//! Trigger discovery logic: turning the plain values read from the
//! provider's event-source listings into `EventSourceMapping` values, and
//! deciding whether a bus rule's target resolves to a given function.
//!
//! The provider calls themselves (listing mappings, buses, rules and
//! targets) are plumbing outside this crate; they hand these functions the
//! identifier strings and flags they returned.

use vstd::prelude::*;
use vstd::string::StringExecFns;

use crate::model::{EventSourceMapping, EventSourceMappingState, EventSourceMappingV};
use crate::text::{chars_to_string, str_to_chars};

verus! {

/// The parts of `s` around separator `sep`, in order, empty parts kept;
/// `cur` accumulates the part currently being read.  There is always at
/// least one part.
pub open spec fn split_acc(s: Seq<char>, cur: Seq<char>, sep: char) -> Seq<Seq<char>>
    decreases s.len(),
{
    if s.len() == 0 {
        seq![cur]
    } else if s[0] == sep {
        seq![cur] + split_acc(s.drop_first(), Seq::empty(), sep)
    } else {
        split_acc(s.drop_first(), cur.push(s[0]), sep)
    }
}

/// The parts of `s` separated by `sep`, empty parts kept.
pub open spec fn split_parts(s: Seq<char>, sep: char) -> Seq<Seq<char>> {
    split_acc(s, Seq::empty(), sep)
}

/// Splits `s` on `sep`, keeping empty parts.
pub fn split_chars(s: &Vec<char>, sep: char) -> (r: Vec<Vec<char>>)
    ensures
        r.deep_view() == split_parts(s@, sep),
        r@.len() >= 1,
{
    let mut out: Vec<Vec<char>> = Vec::new();
    let mut cur: Vec<char> = Vec::new();
    let mut i: usize = 0;
    assert(s@.skip(0) =~= s@);
    while i < s.len()
        invariant
            i <= s@.len(),
            split_parts(s@, sep) =~~= out.deep_view() + split_acc(s@.skip(i as int), cur@, sep),
        decreases s@.len() - i,
    {
        let ghost pre = s@.skip(i as int);
        let ghost out0 = out.deep_view();
        let ghost cur0 = cur@;
        proof {
            assert(pre[0] == s@[i as int]);
            assert(pre.drop_first() =~= s@.skip(i as int + 1));
        }
        let c = s[i];
        if c == sep {
            proof {
                assert(split_acc(pre, cur0, sep) == seq![cur0] + split_acc(
                    pre.drop_first(),
                    Seq::empty(),
                    sep,
                ));
            }
            out.push(cur);
            cur = Vec::new();
            assert(out.deep_view() =~~= out0 + seq![cur0]);
            assert(cur@ =~= Seq::<char>::empty());
        } else {
            proof {
                assert(split_acc(pre, cur0, sep) == split_acc(
                    pre.drop_first(),
                    cur0.push(pre[0]),
                    sep,
                ));
            }
            cur.push(c);
            assert(cur@ =~= cur0.push(s@[i as int]));
        }
        i = i + 1;
        assert(split_parts(s@, sep) =~~= out.deep_view() + split_acc(
            s@.skip(i as int),
            cur@,
            sep,
        ));
    }
    assert(s@.skip(s@.len() as int) =~= Seq::<char>::empty());
    let ghost out0 = out.deep_view();
    let ghost cur0 = cur@;
    out.push(cur);
    assert(out.deep_view() =~~= out0 + seq![cur0]);
    assert(out.deep_view() =~~= split_parts(s@, sep));
    out
}

/// The two-state flag a provider status string maps to: exactly the label
/// `Enabled` enables the mapping; every other status, recognized or not,
/// maps to `Disabled`.
pub open spec fn spec_mapping_state(label: Seq<char>) -> EventSourceMappingState {
    if label == "Enabled"@ {
        EventSourceMappingState::Enabled
    } else {
        EventSourceMappingState::Disabled
    }
}

/// Maps a provider status label to the two-state flag.
pub fn parse_mapping_state(label: &String) -> (r: EventSourceMappingState)
    ensures
        r == spec_mapping_state(label@),
{
    let enabled = String::from_str("Enabled");
    if *label == enabled {
        EventSourceMappingState::Enabled
    } else {
        EventSourceMappingState::Disabled
    }
}

/// The mapping a listed event source resolves to, from the plain values of
/// one listing entry: its source identifier, batch settings and status
/// label.  The identifier's third `:`-part names the service; a queue
/// becomes a queue mapping named by the identifier's last part, a bus
/// source becomes a bus mapping named by the last `/`-part of that part
/// (its first `/`-part naming the bus), and any other service yields
/// nothing.  An identifier with fewer than three parts is no event source
/// and yields nothing.
pub open spec fn spec_parse_esm(
    arn: Seq<char>,
    batch_size: i64,
    batch_window: i64,
    label: Seq<char>,
) -> Option<EventSourceMappingV> {
    let parts = split_parts(arn, ':');
    if parts.len() < 3 {
        None
    } else {
        let service = parts[2];
        let name = parts.last();
        if service == "sqs"@ {
            Some(EventSourceMappingV::SQS {
                name,
                batch_size,
                state: spec_mapping_state(label),
                batch_window,
            })
        } else if service == "events"@ {
            let sub = split_parts(name, '/');
            Some(EventSourceMappingV::EventBridge {
                name: sub.last(),
                event_bus_name: sub[0],
                state: spec_mapping_state(label),
            })
        } else {
            None
        }
    }
}

/// Builds the mapping described by one event-source listing entry, if its
/// source is a recognized service.
pub fn parse_event_source_mapping(
    event_source_arn: &str,
    batch_size: i64,
    batch_window: i64,
    state_label: &String,
) -> (r: Option<EventSourceMapping>)
    ensures
        match r {
            Some(m) => spec_parse_esm(
                event_source_arn@,
                batch_size,
                batch_window,
                state_label@,
            ) == Some(m@),
            None => spec_parse_esm(
                event_source_arn@,
                batch_size,
                batch_window,
                state_label@,
            ) is None,
        },
{
    let chars = str_to_chars(event_source_arn);
    let parts = split_chars(&chars, ':');
    if parts.len() < 3 {
        return None;
    }
    let service = chars_to_string(&parts[2]);
    let ghost pv = parts.deep_view();
    assert(parts[2]@ == pv[2]);
    assert(parts[parts.len() - 1]@ == pv.last());
    let state = parse_mapping_state(state_label);
    if service == String::from_str("sqs") {
        let name = chars_to_string(&parts[parts.len() - 1]);
        Some(EventSourceMapping::SQS { name, batch_size, state, batch_window })
    } else if service == String::from_str("events") {
        let sub = split_chars(&parts[parts.len() - 1], '/');
        let ghost sv = sub.deep_view();
        assert(sub[0]@ == sv[0]);
        assert(sub[sub.len() - 1]@ == sv.last());
        let name = chars_to_string(&sub[sub.len() - 1]);
        let event_bus_name = chars_to_string(&sub[0]);
        Some(EventSourceMapping::EventBridge { name, event_bus_name, state })
    } else {
        None
    }
}

/// Builds the mapping described by one bus rule that targets the function:
/// the rule's name, its bus (or the default bus where none is named) and
/// its status label.
pub fn eventbridge_rule_mapping(
    rule_name: String,
    event_bus_name: Option<String>,
    state_label: &String,
) -> (r: EventSourceMapping)
    ensures
        r@ == (EventSourceMappingV::EventBridge {
            name: rule_name@,
            event_bus_name: match event_bus_name {
                Some(b) => b@,
                None => "default"@,
            },
            state: spec_mapping_state(state_label@),
        }),
{
    let bus = match event_bus_name {
        Some(b) => b,
        None => String::from_str("default"),
    };
    EventSourceMapping::EventBridge {
        name: rule_name,
        event_bus_name: bus,
        state: parse_mapping_state(state_label),
    }
}

/// `s` with every occurrence of the alias suffix `:Live` removed, scanning
/// left to right without overlap.
pub open spec fn strip_live_alias(s: Seq<char>) -> Seq<char>
    decreases s.len(),
{
    if s.len() == 0 {
        s
    } else if s.len() >= 5 && s.subrange(0, 5) == ":Live"@ {
        strip_live_alias(s.skip(5))
    } else {
        seq![s[0]] + strip_live_alias(s.drop_first())
    }
}

/// Decides whether a rule target's identifier resolves to the function with
/// identifier `lambda_arn`, ignoring the `:Live` alias suffix on the
/// target.
pub fn rule_targets_lambda(target_arn: &str, lambda_arn: &str) -> (r: bool)
    ensures
        r == (strip_live_alias(target_arn@) == lambda_arn@),
{
    proof {
        reveal_strlit(":Live");
    }
    let s = str_to_chars(target_arn);
    let mut out: Vec<char> = Vec::new();
    let mut i: usize = 0;
    assert(s@.skip(0) =~= s@);
    while i < s.len()
        invariant
            i <= s@.len(),
            strip_live_alias(s@) =~= out@ + strip_live_alias(s@.skip(i as int)),
            ":Live"@ =~= seq![':', 'L', 'i', 'v', 'e'],
        decreases s@.len() - i,
    {
        let ghost pre = s@.skip(i as int);
        let ghost out0 = out@;
        proof {
            assert(pre[0] == s@[i as int]);
            assert(pre.drop_first() =~= s@.skip(i as int + 1));
        }
        let is_alias = s.len() - i >= 5 && s[i] == ':' && s[i + 1] == 'L' && s[i + 2] == 'i'
            && s[i + 3] == 'v' && s[i + 4] == 'e';
        proof {
            if is_alias {
                assert(pre.subrange(0, 5) =~= ":Live"@);
                assert(pre.skip(5) =~= s@.skip(i as int + 5));
                assert(strip_live_alias(pre) == strip_live_alias(pre.skip(5)));
            } else {
                if pre.len() >= 5 && pre.subrange(0, 5) == ":Live"@ {
                    assert(pre.subrange(0, 5)[0] == s@[i as int]);
                    assert(pre.subrange(0, 5)[1] == s@[i as int + 1]);
                    assert(pre.subrange(0, 5)[2] == s@[i as int + 2]);
                    assert(pre.subrange(0, 5)[3] == s@[i as int + 3]);
                    assert(pre.subrange(0, 5)[4] == s@[i as int + 4]);
                    assert(false);
                }
                assert(strip_live_alias(pre) == seq![pre[0]] + strip_live_alias(
                    pre.drop_first(),
                ));
            }
        }
        if is_alias {
            i = i + 5;
        } else {
            out.push(s[i]);
            assert(out@ =~= out0.push(s@[i as int]));
            i = i + 1;
        }
        assert(strip_live_alias(s@) =~= out@ + strip_live_alias(s@.skip(i as int)));
    }
    assert(s@.skip(s@.len() as int) =~= Seq::<char>::empty());
    assert(out@ =~= strip_live_alias(s@));
    let stripped = chars_to_string(&out);
    let lambda = lambda_arn.to_owned();
    stripped == lambda
}

} // verus!
