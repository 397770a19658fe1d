use shepherd::model::{Action, EventSourceMapping, EventSourceMappingState, Lambda, State};
use shepherd::pages::search::SearchPage;
use shepherd::worker::{
    dashboard_state, search_state, searching_state, worker_run, worker_step, ActionInput,
};

fn lambda(name: &str) -> Lambda {
    Lambda {
        name: name.to_string(),
        arn: format!("arn:aws:lambda:eu-west-1:123456789012:function:{}", name),
        runtime: "python3.12".to_string(),
        memory: 256,
        timeout: 10,
    }
}

#[test]
fn search_with_one_function_yields_search_state_showing_it() {
    let state = search_state(Ok(vec![lambda("f1")]));
    match &state {
        State::Search(ss) => {
            assert_eq!(ss.lambdas.len(), 1);
            assert_eq!(ss.lambdas[0].name, "f1");
        },
        _ => panic!("expected a search state"),
    }
    let page = SearchPage::new(&state);
    assert_eq!(page.props.filtered_list.len(), 1);
    assert_eq!(page.props.filtered_list[0].1.name, "f1");
    assert_eq!(page.props.highlighted_index, 0);
}

#[test]
fn search_failure_becomes_error_state() {
    let state = search_state(Err("access denied".to_string()));
    match state {
        State::Error(e) => assert_eq!(e.error_message, "access denied"),
        _ => panic!("expected an error state"),
    }
}

#[test]
fn metrics_failure_wins_over_successful_triggers() {
    let triggers: Vec<EventSourceMapping> = vec![EventSourceMapping::SQS {
        name: "queue".to_string(),
        batch_size: 10,
        state: EventSourceMappingState::Enabled,
        batch_window: 0,
    }];
    let state = dashboard_state(lambda("f1"), Err("throttled".to_string()), Ok(triggers));
    match state {
        State::Error(e) => assert_eq!(e.error_message, "throttled"),
        _ => panic!("expected an error state, not a dashboard"),
    }
}

#[test]
fn trigger_failure_alone_still_forbids_a_partial_dashboard() {
    let state = dashboard_state(lambda("f1"), Ok(Vec::new()), Err("no access".to_string()));
    match state {
        State::Error(e) => assert_eq!(e.error_message, "no access"),
        _ => panic!("expected an error state, not a dashboard"),
    }
}

#[test]
fn both_successes_build_the_dashboard() {
    let state = dashboard_state(lambda("f1"), Ok(Vec::new()), Ok(Vec::new()));
    match state {
        State::Dashboard(d) => {
            assert_eq!(d.lambda.name, "f1");
            assert!(d.metrics.is_empty());
            assert!(d.event_source_mappings.is_empty());
        },
        _ => panic!("expected a dashboard state"),
    }
}

#[test]
fn perform_search_emits_searching_strictly_before_its_terminal_state() {
    let input = ActionInput::PerformSearch {
        lambda: lambda("f1"),
        metrics: Err("boom".to_string()),
        triggers: Ok(Vec::new()),
    };
    let (states, continues) = worker_step(input);
    assert!(continues);
    assert_eq!(states.len(), 2);
    match &states[0] {
        State::Searching(s) => assert_eq!(s.lambda.name, "f1"),
        _ => panic!("the first emission must announce the search"),
    }
    match &states[1] {
        State::Error(e) => assert_eq!(e.error_message, "boom"),
        _ => panic!("the second emission must be the terminal state"),
    }
}

#[test]
fn searching_state_carries_the_function() {
    let state = searching_state(lambda("f9"));
    match state {
        State::Searching(s) => assert_eq!(s.lambda.name, "f9"),
        _ => panic!("expected a searching state"),
    }
}

#[test]
fn a_run_emits_states_in_action_order_and_stops_at_quit() {
    let inputs = vec![
        ActionInput::Search { result: Ok(vec![lambda("f1")]) },
        ActionInput::PerformSearch {
            lambda: lambda("f1"),
            metrics: Ok(Vec::new()),
            triggers: Ok(Vec::new()),
        },
        ActionInput::Quit,
        ActionInput::Search { result: Err("ignored".to_string()) },
    ];
    let states = worker_run(inputs);
    assert_eq!(states.len(), 4);
    assert!(matches!(states[0], State::Search(_)));
    assert!(matches!(states[1], State::Searching(_)));
    assert!(matches!(states[2], State::Dashboard(_)));
    assert!(matches!(states[3], State::Quit));
}

#[test]
fn quit_action_stops_the_worker() {
    let (states, continues) = worker_step(ActionInput::Quit);
    assert!(!continues);
    assert_eq!(states.len(), 1);
    assert!(matches!(states[0], State::Quit));
    let _ = Action::Quit;
}
