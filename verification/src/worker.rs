//! The action/state core: the single authoritative mapping from an
//! `Action` to the `State`s it emits.
//!
//! The worker loop around these functions lives outside the crate: it
//! receives actions from a channel, performs the provider calls, and sends
//! the states built here back to the interface.  Each provider call reaches
//! this module only as a plain `Result`: the payload on success, the
//! display message on failure.  `ActionInput` pairs an action with the
//! outcomes of the calls it triggers, so the mapping itself is a pure,
//! fully specified function.

use vstd::prelude::*;

use crate::model::{
    Action, DashboardState, ErrorState, EventSourceMapping, EventSourceMappingV, Lambda,
    LambdaV, Metric, MetricV, SearchState, SearchingState, State, StateV,
};

verus! {

/// An action together with the outcomes of the provider calls it causes.
pub enum ActionInput {
    Quit,
    Search { result: Result<Vec<Lambda>, String> },
    PerformSearch {
        lambda: Lambda,
        metrics: Result<Vec<Metric>, String>,
        triggers: Result<Vec<EventSourceMapping>, String>,
    },
}

/// Ghost image of an `ActionInput`.
#[verifier::ext_equal]
pub ghost enum ActionInputV {
    Quit,
    Search { result: Result<Seq<LambdaV>, Seq<char>> },
    PerformSearch {
        lambda: LambdaV,
        metrics: Result<Seq<MetricV>, Seq<char>>,
        triggers: Result<Seq<EventSourceMappingV>, Seq<char>>,
    },
}

impl View for ActionInput {
    type V = ActionInputV;

    open spec fn view(&self) -> ActionInputV {
        match self {
            ActionInput::Quit => ActionInputV::Quit,
            ActionInput::Search { result } => ActionInputV::Search {
                result: match result {
                    Ok(ls) => Ok(ls.deep_view()),
                    Err(m) => Err(m@),
                },
            },
            ActionInput::PerformSearch { lambda, metrics, triggers } => {
                ActionInputV::PerformSearch {
                    lambda: lambda@,
                    metrics: match metrics {
                        Ok(ms) => Ok(ms.deep_view()),
                        Err(m) => Err(m@),
                    },
                    triggers: match triggers {
                        Ok(ts) => Ok(ts.deep_view()),
                        Err(m) => Err(m@),
                    },
                }
            },
        }
    }
}

impl DeepView for ActionInput {
    type V = ActionInputV;

    open spec fn deep_view(&self) -> ActionInputV {
        self.view()
    }
}

/// The state a `Search` action resolves to: the function list on success,
/// an error view carrying the failure message otherwise.
pub open spec fn search_outcome(result: Result<Seq<LambdaV>, Seq<char>>) -> StateV {
    match result {
        Ok(lambdas) => StateV::Search { lambdas },
        Err(error_message) => StateV::Error { error_message },
    }
}

/// The terminal state a `PerformSearch` action resolves to.  A dashboard is
/// built only when both queries succeed; otherwise the first failure (the
/// metrics query is joined first) becomes the error message and no partial
/// dashboard is ever produced.
pub open spec fn perform_search_outcome(
    lambda: LambdaV,
    metrics: Result<Seq<MetricV>, Seq<char>>,
    triggers: Result<Seq<EventSourceMappingV>, Seq<char>>,
) -> StateV {
    match metrics {
        Err(error_message) => StateV::Error { error_message },
        Ok(ms) => match triggers {
            Err(error_message) => StateV::Error { error_message },
            Ok(ts) => StateV::Dashboard {
                lambda,
                metrics: ms,
                event_source_mappings: ts,
            },
        },
    }
}

/// All states one resolved action emits, in emission order.
pub open spec fn step_emissions(input: ActionInputV) -> Seq<StateV> {
    match input {
        ActionInputV::Quit => seq![StateV::Quit],
        ActionInputV::Search { result } => seq![search_outcome(result)],
        ActionInputV::PerformSearch { lambda, metrics, triggers } => seq![
            StateV::Searching { lambda },
            perform_search_outcome(lambda, metrics, triggers),
        ],
    }
}

/// Whether the worker keeps consuming actions after this one.
pub open spec fn step_continues(input: ActionInputV) -> bool {
    !(input is Quit)
}

/// Builds the state answering a `Search` action.
pub fn search_state(result: Result<Vec<Lambda>, String>) -> (r: State)
    ensures
        r@ == search_outcome(
            match result {
                Ok(ls) => Ok(ls.deep_view()),
                Err(m) => Err(m@),
            },
        ),
{
    match result {
        Ok(lambdas) => State::Search(SearchState { lambdas }),
        Err(error_message) => State::Error(ErrorState { error_message }),
    }
}

/// Builds the transient state announcing an in-flight detail fetch.
pub fn searching_state(lambda: Lambda) -> (r: State)
    ensures
        r@ == (StateV::Searching { lambda: lambda@ }),
{
    State::Searching(SearchingState { lambda })
}

/// Builds the terminal state answering a `PerformSearch` action.
pub fn dashboard_state(
    lambda: Lambda,
    metrics: Result<Vec<Metric>, String>,
    triggers: Result<Vec<EventSourceMapping>, String>,
) -> (r: State)
    ensures
        r@ == perform_search_outcome(
            lambda@,
            match metrics {
                Ok(ms) => Ok(ms.deep_view()),
                Err(m) => Err(m@),
            },
            match triggers {
                Ok(ts) => Ok(ts.deep_view()),
                Err(m) => Err(m@),
            },
        ),
{
    match metrics {
        Err(error_message) => State::Error(ErrorState { error_message }),
        Ok(metrics) => match triggers {
            Err(error_message) => State::Error(ErrorState { error_message }),
            Ok(event_source_mappings) => State::Dashboard(DashboardState {
                lambda,
                metrics,
                event_source_mappings,
            }),
        },
    }
}

/// Resolves one action: the states to emit, in order, and whether the
/// worker keeps running.
pub fn worker_step(input: ActionInput) -> (r: (Vec<State>, bool))
    ensures
        r.0.deep_view() == step_emissions(input@),
        r.1 == step_continues(input@),
{
    let ghost iv = input@;
    match input {
        ActionInput::Quit => {
            let mut out: Vec<State> = Vec::new();
            out.push(State::Quit);
            assert(out.deep_view() =~= step_emissions(iv));
            (out, false)
        },
        ActionInput::Search { result } => {
            let mut out: Vec<State> = Vec::new();
            out.push(search_state(result));
            assert(out.deep_view() =~= step_emissions(iv));
            (out, true)
        },
        ActionInput::PerformSearch { lambda, metrics, triggers } => {
            let mut out: Vec<State> = Vec::new();
            out.push(searching_state(lambda.clone()));
            out.push(dashboard_state(lambda, metrics, triggers));
            assert(out.deep_view() =~= step_emissions(iv));
            (out, true)
        },
    }
}

/// All states a sequence of resolved actions emits: the concatenation of
/// each action's emissions, in arrival order, cut off after the first
/// `Quit` (no later action is processed).
pub open spec fn run_emissions(inputs: Seq<ActionInputV>) -> Seq<StateV>
    decreases inputs.len(),
{
    if inputs.len() == 0 {
        Seq::empty()
    } else if inputs[0] is Quit {
        step_emissions(inputs[0])
    } else {
        step_emissions(inputs[0]) + run_emissions(inputs.drop_first())
    }
}

/// Where the emissions of action `i` start inside the run's output.
pub open spec fn emission_offset(inputs: Seq<ActionInputV>, i: int) -> int {
    run_emissions(inputs.take(i)).len() as int
}

/// Runs the worker over a whole sequence of resolved actions, strictly one
/// at a time, stopping after a `Quit`.
pub fn worker_run(inputs: Vec<ActionInput>) -> (r: Vec<State>)
    ensures
        r.deep_view() == run_emissions(inputs.deep_view()),
{
    let ghost all = inputs.deep_view();
    let mut remaining = inputs;
    let mut out: Vec<State> = Vec::new();
    let mut running = true;
    while running && remaining.len() > 0
        invariant
            running ==> out.deep_view() + run_emissions(remaining.deep_view())
                =~= run_emissions(all),
            !running ==> out.deep_view() =~= run_emissions(all),
        decreases remaining.len() + (if running { 1int } else { 0int }),
    {
        let ghost pre = remaining.deep_view();
        let input = remaining.remove(0);
        assert(pre[0] == input@);
        assert(remaining.deep_view() =~= pre.drop_first());
        let (mut states, continues) = worker_step(input);
        out.append(&mut states);
        running = continues;
        proof {
            if pre[0] is Quit {
                assert(run_emissions(pre) == step_emissions(pre[0]));
            } else {
                assert(run_emissions(pre) == step_emissions(pre[0]) + run_emissions(
                    pre.drop_first(),
                ));
            }
        }
    }
    out
}

/// States are observed in the same order the actions were issued: among
/// actions that are actually processed (no `Quit` stands before them), the
/// emissions of action `i` form the contiguous block starting at
/// `emission_offset(inputs, i)`, and the blocks of earlier actions lie
/// strictly before the blocks of later ones.
pub proof fn lemma_emission_order(inputs: Seq<ActionInputV>, i: int)
    requires
        0 <= i < inputs.len(),
        forall|k: int| 0 <= k < i ==> !(inputs[k] is Quit),
    ensures
        0 <= emission_offset(inputs, i),
        emission_offset(inputs, i) + step_emissions(inputs[i]).len() as int
            == emission_offset(inputs, i + 1),
        emission_offset(inputs, i + 1) <= run_emissions(inputs).len(),
        run_emissions(inputs).subrange(
            emission_offset(inputs, i),
            emission_offset(inputs, i + 1),
        ) =~= step_emissions(inputs[i]),
    decreases i,
{
    let seg = step_emissions(inputs[i]);
    if i == 0 {
        let one = seq![inputs[0]];
        assert(inputs.take(0) =~= Seq::<ActionInputV>::empty());
        assert(run_emissions(inputs.take(0)).len() == 0);
        assert(inputs.take(1) =~= one);
        assert(one.drop_first() =~= Seq::<ActionInputV>::empty());
        assert(run_emissions(one.drop_first()) =~= Seq::<StateV>::empty());
        if one[0] is Quit {
            assert(run_emissions(one) == seg);
        } else {
            assert(run_emissions(one) == seg + run_emissions(one.drop_first()));
            assert(run_emissions(one) =~= seg);
        }
        assert(emission_offset(inputs, 1) == seg.len());
        if inputs[0] is Quit {
            assert(run_emissions(inputs) == seg);
        } else {
            assert(run_emissions(inputs) == seg + run_emissions(inputs.drop_first()));
        }
        assert(run_emissions(inputs).subrange(0, seg.len() as int) =~= seg);
    } else {
        let rest = inputs.drop_first();
        assert(!(inputs[0] is Quit));
        assert forall|k: int| 0 <= k < i - 1 implies !(rest[k] is Quit) by {
            assert(rest[k] == inputs[k + 1]);
        }
        assert(rest[i - 1] == inputs[i]);
        lemma_emission_order(rest, i - 1);
        let head = step_emissions(inputs[0]);
        assert(inputs.take(i)[0] == inputs[0]);
        assert(inputs.take(i).drop_first() =~= rest.take(i - 1));
        assert(run_emissions(inputs.take(i)) == head + run_emissions(inputs.take(
            i,
        ).drop_first()));
        assert(inputs.take(i + 1)[0] == inputs[0]);
        assert(inputs.take(i + 1).drop_first() =~= rest.take(i));
        assert(run_emissions(inputs.take(i + 1)) == head + run_emissions(inputs.take(
            i + 1,
        ).drop_first()));
        assert(emission_offset(inputs, i) == head.len() + emission_offset(rest, i - 1));
        assert(emission_offset(inputs, i + 1) == head.len() + emission_offset(rest, i));
        assert(run_emissions(inputs) == head + run_emissions(rest));
        let lo = emission_offset(inputs, i);
        let hi = emission_offset(inputs, i + 1);
        let rlo = emission_offset(rest, i - 1);
        assert forall|k: int| 0 <= k < seg.len() implies run_emissions(inputs)[lo + k]
            == seg[k] by {
            assert(run_emissions(inputs)[lo + k] == run_emissions(rest)[rlo + k]);
            assert(run_emissions(rest)[rlo + k] == run_emissions(rest).subrange(
                rlo,
                emission_offset(rest, i),
            )[k]);
        }
        assert(run_emissions(inputs).subrange(lo, hi) =~= seg);
    }
}

/// A detail request announces itself first: `PerformSearch` emits a
/// `Searching` state for its function strictly before its terminal state,
/// and that terminal state is always a dashboard or an error, never
/// anything else.
pub proof fn lemma_searching_precedes_terminal(input: ActionInputV)
    requires
        input is PerformSearch,
    ensures
        step_emissions(input).len() == 2,
        step_emissions(input)[0] == (StateV::Searching { lambda: input->lambda }),
        step_emissions(input)[1] is Dashboard || step_emissions(input)[1] is Error,
{
}

} // verus!
