use shepherd::model::{EventSourceMapping, EventSourceMappingState};
use shepherd::text::split_text_into_lines;
use shepherd::triggers::{
    eventbridge_rule_mapping, parse_event_source_mapping, parse_mapping_state,
    rule_targets_lambda,
};

#[test]
fn a_queue_source_becomes_a_queue_mapping() {
    let arn = "arn:aws:sqs:eu-west-1:123456789012:orders";
    let parsed =
        parse_event_source_mapping(arn, 10, 5, &"Enabled".to_string()).expect("a mapping");
    match parsed {
        EventSourceMapping::SQS { name, batch_size, state, batch_window } => {
            assert_eq!(name, "orders");
            assert_eq!(batch_size, 10);
            assert_eq!(batch_window, 5);
            assert_eq!(state, EventSourceMappingState::Enabled);
        },
        _ => panic!("expected a queue mapping"),
    }
}

#[test]
fn a_bus_source_becomes_a_bus_mapping() {
    let arn = "arn:aws:events:eu-west-1:123456789012:rule/orders-bus/on-order";
    let parsed =
        parse_event_source_mapping(arn, 0, 0, &"Disabled".to_string()).expect("a mapping");
    match parsed {
        EventSourceMapping::EventBridge { name, event_bus_name, state } => {
            assert_eq!(name, "on-order");
            assert_eq!(event_bus_name, "rule");
            assert_eq!(state, EventSourceMappingState::Disabled);
        },
        _ => panic!("expected a bus mapping"),
    }
}

#[test]
fn an_unrecognized_service_yields_no_mapping() {
    let arn = "arn:aws:dynamodb:eu-west-1:123456789012:table/orders";
    assert!(parse_event_source_mapping(arn, 0, 0, &"Enabled".to_string()).is_none());
}

#[test]
fn a_malformed_identifier_yields_no_mapping() {
    assert!(parse_event_source_mapping("orders", 0, 0, &"Enabled".to_string()).is_none());
}

#[test]
fn any_unrecognized_status_maps_to_disabled() {
    assert_eq!(
        parse_mapping_state(&"Enabled".to_string()),
        EventSourceMappingState::Enabled
    );
    assert_eq!(
        parse_mapping_state(&"Disabled".to_string()),
        EventSourceMappingState::Disabled
    );
    assert_eq!(
        parse_mapping_state(&"Enabling".to_string()),
        EventSourceMappingState::Disabled
    );
    assert_eq!(parse_mapping_state(&"".to_string()), EventSourceMappingState::Disabled);
}

#[test]
fn rule_targets_ignore_the_alias_suffix() {
    let lambda_arn = "arn:aws:lambda:eu-west-1:123456789012:function:f1";
    let with_alias = "arn:aws:lambda:eu-west-1:123456789012:function:f1:Live";
    assert!(rule_targets_lambda(with_alias, lambda_arn));
    assert!(rule_targets_lambda(lambda_arn, lambda_arn));
    assert!(!rule_targets_lambda(
        "arn:aws:lambda:eu-west-1:123456789012:function:f2",
        lambda_arn
    ));
}

#[test]
fn a_rule_without_a_bus_lands_on_the_default_bus() {
    let mapping = eventbridge_rule_mapping("on-order".to_string(), None, &"Enabled".to_string());
    match mapping {
        EventSourceMapping::EventBridge { name, event_bus_name, state } => {
            assert_eq!(name, "on-order");
            assert_eq!(event_bus_name, "default");
            assert_eq!(state, EventSourceMappingState::Enabled);
        },
        _ => panic!("expected a bus mapping"),
    }
}

#[test]
fn mapping_projections_are_uniform_over_the_kinds() {
    let sqs = EventSourceMapping::SQS {
        name: "orders".to_string(),
        batch_size: 10,
        state: EventSourceMappingState::Enabled,
        batch_window: 30,
    };
    assert_eq!(sqs.name(), "orders");
    assert_eq!(sqs.type_label(), "SQS");
    assert_eq!(sqs.batch_size(), Some(10));
    assert_eq!(sqs.minimum_batching_window_in_seconds(), Some(30));
    assert_eq!(sqs.state(), EventSourceMappingState::Enabled);

    let eb = EventSourceMapping::EventBridge {
        name: "on-order".to_string(),
        event_bus_name: "orders-bus".to_string(),
        state: EventSourceMappingState::Disabled,
    };
    assert_eq!(eb.name(), "on-order");
    assert_eq!(eb.type_label(), "EventBridge (orders-bus)");
    assert_eq!(eb.batch_size(), None);
    assert_eq!(eb.minimum_batching_window_in_seconds(), None);
    assert_eq!(eb.state(), EventSourceMappingState::Disabled);
}

#[test]
fn long_text_wraps_greedily_at_the_limit() {
    let lines = split_text_into_lines("one two three four", 9);
    assert_eq!(lines, vec!["one two".to_string(), "three".to_string(), "four".to_string()]);
}

#[test]
fn a_word_longer_than_the_limit_still_gets_its_own_line() {
    let lines = split_text_into_lines("tiny enormousword end", 6);
    assert_eq!(
        lines,
        vec!["tiny".to_string(), "enormousword".to_string(), "end".to_string()]
    );
}

#[test]
fn empty_text_yields_no_lines() {
    let lines = split_text_into_lines("   ", 10);
    assert!(lines.is_empty());
}
