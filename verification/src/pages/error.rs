//! The error page: the terminal failure view, showing the current
//! operation's failure message with a quit affordance.

use vstd::prelude::*;
use vstd::string::StringExecFns;

use crate::keys::{KeyCode, KeyEvent};
use crate::model::{Action, ActionV, State, StateV};

verus! {

/// View-state of the error page: the message shown.
pub struct ErrorProps {
    pub error_message: String,
}

/// The error page component.
pub struct ErrorPage {
    pub props: ErrorProps,
}

/// Ghost image of an `ErrorPage`.
#[verifier::ext_equal]
pub ghost struct ErrorPageV {
    pub error_message: Seq<char>,
}

impl View for ErrorPage {
    type V = ErrorPageV;

    open spec fn view(&self) -> ErrorPageV {
        ErrorPageV { error_message: self.props.error_message@ }
    }
}

/// The message the error page shows for a state: the error's message, or
/// nothing for any state this page does not own.
pub open spec fn error_rebuild(s: StateV) -> ErrorPageV {
    match s {
        StateV::Error { error_message } => ErrorPageV { error_message },
        _ => ErrorPageV { error_message: Seq::empty() },
    }
}

/// The action one key press on the error page requests: only `q`, to quit.
pub open spec fn error_key_action(key: KeyEvent) -> Option<ActionV> {
    match key.code {
        KeyCode::Char(c) => if c == 'q' {
            Some(ActionV::Quit)
        } else {
            None
        },
        _ => None,
    }
}

/// Rebuilding the error page with a state it does not own yields its
/// empty view, whatever was shown before and however often it is rebuilt.
pub proof fn lemma_error_rebuild_unowned(s: StateV)
    requires
        !(s is Error),
    ensures
        error_rebuild(s) =~= (ErrorPageV { error_message: Seq::empty() }),
{
}

impl ErrorPage {
    /// Builds the page for the just-observed state.
    pub fn new(state: &State) -> (r: ErrorPage)
        ensures
            r@ == error_rebuild(state@),
    {
        let error_message = match state {
            State::Error(e) => e.error_message.clone(),
            _ => String::new(),
        };
        ErrorPage { props: ErrorProps { error_message } }
    }

    pub fn name(&self) -> (r: &'static str)
        ensures
            r@ == "Error"@,
    {
        "Error"
    }

    /// Rebuilds the page on a state change.
    pub fn move_with_state(self, state: &State) -> (r: ErrorPage)
        ensures
            r@ == error_rebuild(state@),
    {
        ErrorPage::new(state)
    }

    /// Turns one key press into the action it requests, if any.
    pub fn handle_key_event(&self, key: KeyEvent) -> (r: Option<Action>)
        ensures
            r.deep_view() == error_key_action(key),
    {
        match key.code {
            KeyCode::Char(c) => {
                if c == 'q' {
                    Some(Action::Quit)
                } else {
                    None
                }
            },
            _ => None,
        }
    }
}

} // verus!
