//! The dashboard page: the terminal success view, showing one function's
//! metrics and trigger mappings.

use vstd::prelude::*;

use crate::keys::{KeyCode, KeyEvent};
use crate::model::{
    clone_mappings, clone_metrics, Action, ActionV, EventSourceMapping, EventSourceMappingV,
    Lambda, LambdaV, Metric, MetricV, State, StateV,
};

verus! {

/// View-state of the dashboard page: the function shown, its trigger
/// mappings and its metric series, or nothing before a dashboard state has
/// been observed.
pub struct DashboardProps {
    pub lambda: Option<Lambda>,
    pub event_source_mappings: Vec<EventSourceMapping>,
    pub data: Option<Vec<Metric>>,
}

/// The dashboard page component.
pub struct DashboardPage {
    pub props: DashboardProps,
}

/// Ghost image of a `DashboardPage`.
#[verifier::ext_equal]
pub ghost struct DashboardPageV {
    pub lambda: Option<LambdaV>,
    pub event_source_mappings: Seq<EventSourceMappingV>,
    pub data: Option<Seq<MetricV>>,
}

impl View for DashboardPage {
    type V = DashboardPageV;

    open spec fn view(&self) -> DashboardPageV {
        DashboardPageV {
            lambda: self.props.lambda.deep_view(),
            event_source_mappings: self.props.event_source_mappings.deep_view(),
            data: self.props.data.deep_view(),
        }
    }
}

/// The empty dashboard view.
pub open spec fn dashboard_empty() -> DashboardPageV {
    DashboardPageV { lambda: None, event_source_mappings: Seq::empty(), data: None }
}

/// What the dashboard page shows for a state: the dashboard's payload, or
/// its empty view for any state this page does not own.
pub open spec fn dashboard_rebuild(s: StateV) -> DashboardPageV {
    match s {
        StateV::Dashboard { lambda, metrics, event_source_mappings } => DashboardPageV {
            lambda: Some(lambda),
            event_source_mappings,
            data: Some(metrics),
        },
        _ => dashboard_empty(),
    }
}

/// The action one key press on the dashboard requests: `s` returns to the
/// search, `q` asks to quit.
pub open spec fn dashboard_key_action(key: KeyEvent) -> Option<ActionV> {
    match key.code {
        KeyCode::Char(c) => if c == 'q' {
            Some(ActionV::Quit)
        } else if c == 's' {
            Some(ActionV::Search)
        } else {
            None
        },
        _ => None,
    }
}

/// Rebuilding the dashboard with a state it does not own yields its empty
/// view, whatever was shown before and however often it is rebuilt.
pub proof fn lemma_dashboard_rebuild_unowned(s: StateV)
    requires
        !(s is Dashboard),
    ensures
        dashboard_rebuild(s) =~= dashboard_empty(),
{
}

/// The chart grid laid out for `count` series: columns and rows, favouring
/// width.
pub open spec fn spec_chart_grid(count: int) -> (int, int) {
    if count == 1 {
        (1, 1)
    } else if count == 2 {
        (1, 2)
    } else if count == 3 {
        (1, 3)
    } else if count == 4 || count == 5 {
        (2, 2)
    } else {
        (2, 3)
    }
}

/// Lays out the chart grid for `count` series.
pub fn chart_grid(count: usize) -> (r: (usize, usize))
    ensures
        (r.0 as int, r.1 as int) == spec_chart_grid(count as int),
{
    if count == 1 {
        (1, 1)
    } else if count == 2 {
        (1, 2)
    } else if count == 3 {
        (1, 3)
    } else if count == 4 || count == 5 {
        (2, 2)
    } else {
        (2, 3)
    }
}

impl DashboardPage {
    /// Builds the page; the dashboard starts from its empty view, whatever
    /// the state, and fills on the first dashboard state it observes.
    pub fn new(state: &State) -> (r: DashboardPage)
        ensures
            r@ == dashboard_empty(),
    {
        let _ = state;
        let r = DashboardPage {
            props: DashboardProps { lambda: None, event_source_mappings: Vec::new(), data: None },
        };
        assert(r@.event_source_mappings =~= Seq::<EventSourceMappingV>::empty());
        r
    }

    pub fn name(&self) -> (r: &'static str)
        ensures
            r@ == "Dashboard"@,
    {
        "Dashboard"
    }

    /// Rebuilds the page on a state change.
    pub fn move_with_state(self, state: &State) -> (r: DashboardPage)
        ensures
            r@ == dashboard_rebuild(state@),
    {
        match state {
            State::Dashboard(d) => {
                let r = DashboardPage {
                    props: DashboardProps {
                        lambda: Some(d.lambda.clone()),
                        event_source_mappings: clone_mappings(&d.event_source_mappings),
                        data: Some(clone_metrics(&d.metrics)),
                    },
                };
                r
            },
            _ => {
                let r = DashboardPage {
                    props: DashboardProps {
                        lambda: None,
                        event_source_mappings: Vec::new(),
                        data: None,
                    },
                };
                assert(r@.event_source_mappings =~= Seq::<EventSourceMappingV>::empty());
                r
            },
        }
    }

    /// Turns one key press into the action it requests, if any.
    pub fn handle_key_event(&self, key: KeyEvent) -> (r: Option<Action>)
        ensures
            r.deep_view() == dashboard_key_action(key),
    {
        match key.code {
            KeyCode::Char(c) => {
                if c == 'q' {
                    Some(Action::Quit)
                } else if c == 's' {
                    Some(Action::Search)
                } else {
                    None
                }
            },
            _ => None,
        }
    }
}

} // verus!
