//! The data model: function summaries, metric series, trigger mappings,
//! and the `State` / `Action` pair that the rest of the crate revolves
//! around.  Every type has a ghost view so that contracts can speak about
//! values mathematically.

use vstd::prelude::*;
use vstd::string::StringExecFns;

verus! {

/// A serverless function's summary, uniquely identified by its resource
/// identifier (`arn`).
#[derive(Debug)]
pub struct Lambda {
    pub name: String,
    pub arn: String,
    pub runtime: String,
    pub memory: i64,
    pub timeout: i64,
}

/// Ghost image of a `Lambda`.
#[verifier::ext_equal]
pub ghost struct LambdaV {
    pub name: Seq<char>,
    pub arn: Seq<char>,
    pub runtime: Seq<char>,
    pub memory: i64,
    pub timeout: i64,
}

impl View for Lambda {
    type V = LambdaV;

    open spec fn view(&self) -> LambdaV {
        LambdaV {
            name: self.name@,
            arn: self.arn@,
            runtime: self.runtime@,
            memory: self.memory,
            timeout: self.timeout,
        }
    }
}

impl DeepView for Lambda {
    type V = LambdaV;

    open spec fn deep_view(&self) -> LambdaV {
        self.view()
    }
}

impl Clone for Lambda {
    fn clone(&self) -> (r: Self)
        ensures
            r == *self,
    {
        Lambda {
            name: self.name.clone(),
            arn: self.arn.clone(),
            runtime: self.runtime.clone(),
            memory: self.memory,
            timeout: self.timeout,
        }
    }
}

/// Whether a trigger mapping is currently delivering events.  Exactly two
/// states exist; an unrecognized upstream status is mapped to `Disabled`.
#[derive(Debug, Clone, Copy, PartialEq, Eq, Structural)]
pub enum EventSourceMappingState {
    Enabled,
    Disabled,
}

impl DeepView for EventSourceMappingState {
    type V = EventSourceMappingState;

    open spec fn deep_view(&self) -> EventSourceMappingState {
        *self
    }
}

/// A configured event source that invokes a function: either a queue
/// mapping or a bus rule.
#[derive(Debug)]
pub enum EventSourceMapping {
    SQS { name: String, batch_size: i64, state: EventSourceMappingState, batch_window: i64 },
    EventBridge { name: String, event_bus_name: String, state: EventSourceMappingState },
}

impl Clone for EventSourceMapping {
    fn clone(&self) -> (r: Self)
        ensures
            r == *self,
    {
        match self {
            EventSourceMapping::SQS { name, batch_size, state, batch_window } => {
                EventSourceMapping::SQS {
                    name: name.clone(),
                    batch_size: *batch_size,
                    state: *state,
                    batch_window: *batch_window,
                }
            },
            EventSourceMapping::EventBridge { name, event_bus_name, state } => {
                EventSourceMapping::EventBridge {
                    name: name.clone(),
                    event_bus_name: event_bus_name.clone(),
                    state: *state,
                }
            },
        }
    }
}

/// Ghost image of an `EventSourceMapping`.
#[verifier::ext_equal]
pub ghost enum EventSourceMappingV {
    SQS { name: Seq<char>, batch_size: i64, state: EventSourceMappingState, batch_window: i64 },
    EventBridge { name: Seq<char>, event_bus_name: Seq<char>, state: EventSourceMappingState },
}

impl View for EventSourceMapping {
    type V = EventSourceMappingV;

    open spec fn view(&self) -> EventSourceMappingV {
        match self {
            EventSourceMapping::SQS { name, batch_size, state, batch_window } => {
                EventSourceMappingV::SQS {
                    name: name@,
                    batch_size: *batch_size,
                    state: *state,
                    batch_window: *batch_window,
                }
            },
            EventSourceMapping::EventBridge { name, event_bus_name, state } => {
                EventSourceMappingV::EventBridge {
                    name: name@,
                    event_bus_name: event_bus_name@,
                    state: *state,
                }
            },
        }
    }
}

impl DeepView for EventSourceMapping {
    type V = EventSourceMappingV;

    open spec fn deep_view(&self) -> EventSourceMappingV {
        self.view()
    }
}

impl EventSourceMappingV {
    /// The display name of the mapping, independent of its kind.
    pub open spec fn spec_name(self) -> Seq<char> {
        match self {
            EventSourceMappingV::SQS { name, .. } => name,
            EventSourceMappingV::EventBridge { name, .. } => name,
        }
    }

    /// The type label shown for the mapping; a bus rule names its bus.
    pub open spec fn spec_type_label(self) -> Seq<char> {
        match self {
            EventSourceMappingV::SQS { .. } => "SQS"@,
            EventSourceMappingV::EventBridge { event_bus_name, .. } => {
                "EventBridge ("@ + event_bus_name + ")"@
            },
        }
    }

    /// The batch size, present only for queue mappings.
    pub open spec fn spec_batch_size(self) -> Option<i64> {
        match self {
            EventSourceMappingV::SQS { batch_size, .. } => Some(batch_size),
            EventSourceMappingV::EventBridge { .. } => None,
        }
    }

    /// The enabled/disabled flag, independent of the kind.
    pub open spec fn spec_state(self) -> EventSourceMappingState {
        match self {
            EventSourceMappingV::SQS { state, .. } => state,
            EventSourceMappingV::EventBridge { state, .. } => state,
        }
    }

    /// The batching window, present only for queue mappings.
    pub open spec fn spec_batch_window(self) -> Option<i64> {
        match self {
            EventSourceMappingV::SQS { batch_window, .. } => Some(batch_window),
            EventSourceMappingV::EventBridge { .. } => None,
        }
    }
}

impl EventSourceMapping {
    pub fn name(&self) -> (r: String)
        ensures
            r@ == self@.spec_name(),
    {
        match self {
            EventSourceMapping::SQS { name, .. } => name.clone(),
            EventSourceMapping::EventBridge { name, .. } => name.clone(),
        }
    }

    pub fn type_label(&self) -> (r: String)
        ensures
            r@ == self@.spec_type_label(),
    {
        match self {
            EventSourceMapping::SQS { .. } => String::from_str("SQS"),
            EventSourceMapping::EventBridge { event_bus_name, .. } => {
                String::from_str("EventBridge (").concat(event_bus_name.as_str()).concat(")")
            },
        }
    }

    pub fn batch_size(&self) -> (r: Option<i64>)
        ensures
            r == self@.spec_batch_size(),
    {
        match self {
            EventSourceMapping::SQS { batch_size, .. } => Some(*batch_size),
            EventSourceMapping::EventBridge { .. } => None,
        }
    }

    pub fn state(&self) -> (r: EventSourceMappingState)
        ensures
            r == self@.spec_state(),
    {
        match self {
            EventSourceMapping::SQS { state, .. } => *state,
            EventSourceMapping::EventBridge { state, .. } => *state,
        }
    }

    pub fn minimum_batching_window_in_seconds(&self) -> (r: Option<i64>)
        ensures
            r == self@.spec_batch_window(),
    {
        match self {
            EventSourceMapping::SQS { batch_window, .. } => Some(*batch_window),
            EventSourceMapping::EventBridge { .. } => None,
        }
    }
}

/// Clones a function list, element by element.
pub fn clone_lambdas(v: &Vec<Lambda>) -> (r: Vec<Lambda>)
    ensures
        r.deep_view() == v.deep_view(),
{
    let mut r: Vec<Lambda> = Vec::new();
    let mut i: usize = 0;
    while i < v.len()
        invariant
            i <= v@.len(),
            r.deep_view() =~~= v.deep_view().take(i as int),
        decreases v@.len() - i,
    {
        let ghost r0 = r.deep_view();
        let elem = v[i].clone();
        assert(elem.deep_view() == v.deep_view()[i as int]);
        r.push(elem);
        assert(r.deep_view() =~~= r0.push(v.deep_view()[i as int]));
        i = i + 1;
        assert(v.deep_view().take(i as int) =~= v.deep_view().take(i as int - 1).push(
            v.deep_view()[i as int - 1],
        ));
        assert(r.deep_view() =~~= v.deep_view().take(i as int));
    }
    assert(v.deep_view().take(v@.len() as int) =~= v.deep_view());
    assert(r.deep_view() =~~= v.deep_view());
    r
}

/// One metric series over a fixed trailing window: a logical name, a chart
/// label, and parallel sequences of bucket timestamps and sampled values of
/// equal length.  A value is carried as the 64-bit encoding of the sampled
/// number, so that the series can travel through the verified core opaquely;
/// an empty bucket carries 0, the encoding of zero.
#[derive(Debug)]
pub struct Metric {
    pub name: String,
    pub metric: String,
    pub timestamps: Vec<u64>,
    pub values: Vec<u64>,
}

impl Clone for Metric {
    fn clone(&self) -> (r: Self)
        ensures
            r@ == self@,
    {
        let timestamps = self.timestamps.clone();
        let values = self.values.clone();
        assert(timestamps@ =~= self.timestamps@);
        assert(values@ =~= self.values@);
        Metric { name: self.name.clone(), metric: self.metric.clone(), timestamps, values }
    }
}

/// Ghost image of a `Metric`.
#[verifier::ext_equal]
pub ghost struct MetricV {
    pub name: Seq<char>,
    pub metric: Seq<char>,
    pub timestamps: Seq<u64>,
    pub values: Seq<u64>,
}

impl View for Metric {
    type V = MetricV;

    open spec fn view(&self) -> MetricV {
        MetricV {
            name: self.name@,
            metric: self.metric@,
            timestamps: self.timestamps@,
            values: self.values@,
        }
    }
}

impl DeepView for Metric {
    type V = MetricV;

    open spec fn deep_view(&self) -> MetricV {
        self.view()
    }
}

/// Clones a metric list, element by element.
pub fn clone_metrics(v: &Vec<Metric>) -> (r: Vec<Metric>)
    ensures
        r.deep_view() == v.deep_view(),
{
    let mut r: Vec<Metric> = Vec::new();
    let mut i: usize = 0;
    while i < v.len()
        invariant
            i <= v@.len(),
            r.deep_view() =~~= v.deep_view().take(i as int),
        decreases v@.len() - i,
    {
        let ghost r0 = r.deep_view();
        let elem = v[i].clone();
        assert(elem.deep_view() == v.deep_view()[i as int]);
        r.push(elem);
        assert(r.deep_view() =~~= r0.push(v.deep_view()[i as int]));
        i = i + 1;
        assert(v.deep_view().take(i as int) =~= v.deep_view().take(i as int - 1).push(
            v.deep_view()[i as int - 1],
        ));
        assert(r.deep_view() =~~= v.deep_view().take(i as int));
    }
    assert(v.deep_view().take(v@.len() as int) =~= v.deep_view());
    assert(r.deep_view() =~~= v.deep_view());
    r
}

/// Clones a trigger-mapping list, element by element.
pub fn clone_mappings(v: &Vec<EventSourceMapping>) -> (r: Vec<EventSourceMapping>)
    ensures
        r.deep_view() == v.deep_view(),
{
    let mut r: Vec<EventSourceMapping> = Vec::new();
    let mut i: usize = 0;
    while i < v.len()
        invariant
            i <= v@.len(),
            r.deep_view() =~~= v.deep_view().take(i as int),
        decreases v@.len() - i,
    {
        let ghost r0 = r.deep_view();
        let elem = v[i].clone();
        assert(elem.deep_view() == v.deep_view()[i as int]);
        r.push(elem);
        assert(r.deep_view() =~~= r0.push(v.deep_view()[i as int]));
        i = i + 1;
        assert(v.deep_view().take(i as int) =~= v.deep_view().take(i as int - 1).push(
            v.deep_view()[i as int - 1],
        ));
        assert(r.deep_view() =~~= v.deep_view().take(i as int));
    }
    assert(v.deep_view().take(v@.len() as int) =~= v.deep_view());
    assert(r.deep_view() =~~= v.deep_view());
    r
}

/// Payload of `State::Search`: the functions available for filtering.
pub struct SearchState {
    pub lambdas: Vec<Lambda>,
}

/// Payload of `State::Searching`: the function whose details are in flight.
pub struct SearchingState {
    pub lambda: Lambda,
}

/// Payload of `State::Dashboard`: the function together with its metrics
/// and trigger mappings.
pub struct DashboardState {
    pub lambda: Lambda,
    pub metrics: Vec<Metric>,
    pub event_source_mappings: Vec<EventSourceMapping>,
}

/// Payload of `State::Error`: the message shown to the operator.
pub struct ErrorState {
    pub error_message: String,
}

/// What the whole application currently shows.  A new `State` always
/// replaces the previous one wholesale; it is never mutated in place.
pub enum State {
    Splash,
    Search(SearchState),
    Searching(SearchingState),
    Dashboard(DashboardState),
    Error(ErrorState),
    Quit,
}

/// Ghost image of a `State`.
#[verifier::ext_equal]
pub ghost enum StateV {
    Splash,
    Search { lambdas: Seq<LambdaV> },
    Searching { lambda: LambdaV },
    Dashboard { lambda: LambdaV, metrics: Seq<MetricV>, event_source_mappings: Seq<EventSourceMappingV> },
    Error { error_message: Seq<char> },
    Quit,
}

impl View for State {
    type V = StateV;

    open spec fn view(&self) -> StateV {
        match self {
            State::Splash => StateV::Splash,
            State::Search(s) => StateV::Search { lambdas: s.lambdas.deep_view() },
            State::Searching(s) => StateV::Searching { lambda: s.lambda@ },
            State::Dashboard(s) => StateV::Dashboard {
                lambda: s.lambda@,
                metrics: s.metrics.deep_view(),
                event_source_mappings: s.event_source_mappings.deep_view(),
            },
            State::Error(s) => StateV::Error { error_message: s.error_message@ },
            State::Quit => StateV::Quit,
        }
    }
}

impl DeepView for State {
    type V = StateV;

    open spec fn deep_view(&self) -> StateV {
        self.view()
    }
}

/// A request to transition `State`, produced only by the page components.
pub enum Action {
    Quit,
    Search,
    PerformSearch { lambda: Lambda },
}

/// Ghost image of an `Action`.
#[verifier::ext_equal]
pub ghost enum ActionV {
    Quit,
    Search,
    PerformSearch { lambda: LambdaV },
}

impl View for Action {
    type V = ActionV;

    open spec fn view(&self) -> ActionV {
        match self {
            Action::Quit => ActionV::Quit,
            Action::Search => ActionV::Search,
            Action::PerformSearch { lambda } => ActionV::PerformSearch { lambda: lambda@ },
        }
    }
}

impl DeepView for Action {
    type V = ActionV;

    open spec fn deep_view(&self) -> ActionV {
        self.view()
    }
}

} // verus!
