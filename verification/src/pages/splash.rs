//! The splash page: the initial/idle view.  It holds no data; its keys
//! start a search or quit.

use vstd::prelude::*;

use crate::keys::{KeyCode, KeyEvent};
use crate::model::{Action, ActionV, State};

verus! {

/// View-state of the splash page: nothing.
pub struct SplashProps;

/// The splash page component.
pub struct SplashPage {
    pub props: SplashProps,
}

/// Ghost image of a `SplashPage`.
#[verifier::ext_equal]
pub ghost struct SplashPageV {}

impl View for SplashPage {
    type V = SplashPageV;

    open spec fn view(&self) -> SplashPageV {
        SplashPageV {  }
    }
}

/// The action one key press on the splash page requests: `s` asks for the
/// function list, `q` asks to quit.
pub open spec fn splash_key_action(key: KeyEvent) -> Option<ActionV> {
    match key.code {
        KeyCode::Char(c) => if c == 'q' {
            Some(ActionV::Quit)
        } else if c == 's' {
            Some(ActionV::Search)
        } else {
            None
        },
        _ => None,
    }
}

impl SplashPage {
    /// Builds the page; the splash view carries nothing, whatever the
    /// state.
    pub fn new(state: &State) -> (r: SplashPage)
        ensures
            r@ == (SplashPageV {  }),
    {
        let _ = state;
        SplashPage { props: SplashProps }
    }

    pub fn name(&self) -> (r: &'static str)
        ensures
            r@ == "Splash"@,
    {
        "Splash"
    }

    /// Rebuilds the page on a state change; the splash view is always its
    /// default.
    pub fn move_with_state(self, state: &State) -> (r: SplashPage)
        ensures
            r@ == (SplashPageV {  }),
    {
        let _ = state;
        SplashPage { props: self.props }
    }

    /// Turns one key press into the action it requests, if any.
    pub fn handle_key_event(&self, key: KeyEvent) -> (r: Option<Action>)
        ensures
            r.deep_view() == splash_key_action(key),
    {
        match key.code {
            KeyCode::Char(c) => {
                if c == 'q' {
                    Some(Action::Quit)
                } else if c == 's' {
                    Some(Action::Search)
                } else {
                    None
                }
            },
            _ => None,
        }
    }
}

} // verus!
