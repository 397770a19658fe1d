//! The session supervisor's decision core.  The event loop outside the
//! crate multiplexes four sources — the render tick, termination signals,
//! raw terminal input, and state updates — and hands whichever fires to
//! `Session::handle_event`; it then sends the returned action (if any),
//! stops when told to terminate, and performs exactly one full redraw when
//! told to redraw.

use vstd::prelude::*;

use crate::keys::KeyEvent;
use crate::model::{Action, ActionV, State, StateV};
use crate::pages::{router_after_key, router_rebuild, router_wf, AppRouter, AppRouterV, Page};

verus! {

/// One wake-up of the session's event loop.
pub enum SessionEvent {
    /// The fixed-period render tick fired.
    Tick,
    /// A termination signal arrived.
    Interrupt,
    /// One key press arrived.
    Key(KeyEvent),
    /// A non-key terminal event arrived.
    OtherInput,
    /// The input event stream ended (terminal detached).
    InputClosed,
    /// The worker emitted a new state.
    StateArrived(State),
}

/// Ghost image of a `SessionEvent`.
#[verifier::ext_equal]
pub ghost enum SessionEventV {
    Tick,
    Interrupt,
    Key { key: KeyEvent },
    OtherInput,
    InputClosed,
    StateArrived { state: StateV },
}

impl View for SessionEvent {
    type V = SessionEventV;

    open spec fn view(&self) -> SessionEventV {
        match self {
            SessionEvent::Tick => SessionEventV::Tick,
            SessionEvent::Interrupt => SessionEventV::Interrupt,
            SessionEvent::Key(key) => SessionEventV::Key { key: *key },
            SessionEvent::OtherInput => SessionEventV::OtherInput,
            SessionEvent::InputClosed => SessionEventV::InputClosed,
            SessionEvent::StateArrived(state) => SessionEventV::StateArrived { state: state@ },
        }
    }
}

/// What the loop must do after one event: send this action (if any), then
/// stop if `terminate`, else redraw if `redraw`.
pub struct SessionStep {
    pub action: Option<Action>,
    pub terminate: bool,
    pub redraw: bool,
}

/// The session: Running until an interrupt, the end of the input stream,
/// or an observed `Quit` state flips it to Terminating.
pub struct Session {
    pub router: AppRouter,
}

/// What one event does: the router after it, the action to send, whether
/// the session terminates, and whether a redraw follows.  An interrupt or
/// the end of the input stream sends `Quit` and terminates with no further
/// redraw; an observed `Quit` state terminates silently; every other event
/// is followed by exactly one redraw.
pub open spec fn session_step(r: AppRouterV, e: SessionEventV) -> (
    AppRouterV,
    Option<ActionV>,
    bool,
    bool,
) {
    match e {
        SessionEventV::Tick => (r, None, false, true),
        SessionEventV::Interrupt => (r, Some(ActionV::Quit), true, false),
        SessionEventV::Key { key } => {
            let (r2, act) = router_after_key(r, key);
            (r2, act, false, true)
        },
        SessionEventV::OtherInput => (r, None, false, true),
        SessionEventV::InputClosed => (r, Some(ActionV::Quit), true, false),
        SessionEventV::StateArrived { state } => {
            if state is Quit {
                (r, None, true, false)
            } else {
                (router_rebuild(r, state), None, false, true)
            }
        },
    }
}

impl Session {
    /// Starts a session on the splash state.
    pub fn new() -> (r: Session)
        ensures
            r@.current == Page::Splash,
            router_wf(r@),
    {
        Session { router: AppRouter::new(&State::Splash) }
    }

    /// The router as the supervisor sees it.
    pub open spec fn view(&self) -> AppRouterV {
        self.router@
    }

    /// Reacts to one event of the loop.  On an interrupt the next redraw
    /// never occurs: the step terminates the session, with a final `Quit`
    /// action for the worker, and asks for no redraw.
    pub fn handle_event(&mut self, event: SessionEvent) -> (r: SessionStep)
        requires
            router_wf(old(self)@),
        ensures
            final(self)@ == session_step(old(self)@, event@).0,
            r.action.deep_view() == session_step(old(self)@, event@).1,
            r.terminate == session_step(old(self)@, event@).2,
            r.redraw == session_step(old(self)@, event@).3,
            router_wf(final(self)@),
            event is Interrupt ==> r.terminate && !r.redraw && r.action.deep_view()
                == Some(ActionV::Quit),
    {
        match event {
            SessionEvent::Tick => SessionStep { action: None, terminate: false, redraw: true },
            SessionEvent::Interrupt => SessionStep {
                action: Some(Action::Quit),
                terminate: true,
                redraw: false,
            },
            SessionEvent::Key(key) => {
                let action = self.router.handle_key_event(key);
                SessionStep { action, terminate: false, redraw: true }
            },
            SessionEvent::OtherInput => SessionStep {
                action: None,
                terminate: false,
                redraw: true,
            },
            SessionEvent::InputClosed => SessionStep {
                action: Some(Action::Quit),
                terminate: true,
                redraw: false,
            },
            SessionEvent::StateArrived(state) => {
                match state {
                    State::Quit => SessionStep { action: None, terminate: true, redraw: false },
                    _ => {
                        let mut taken = AppRouter::new(&State::Splash);
                        core::mem::swap(&mut self.router, &mut taken);
                        self.router = taken.move_with_state(&state);
                        SessionStep { action: None, terminate: false, redraw: true }
                    },
                }
            },
        }
    }
}

} // verus!
