use shepherd::keys::{KeyCode, KeyEvent};
use shepherd::model::{Action, SearchState, State};
use shepherd::pages::Page;
use shepherd::session::{Session, SessionEvent};
use shepherd::termination::Interrupted;

#[test]
fn an_interrupt_terminates_with_a_quit_action_and_no_redraw() {
    let mut session = Session::new();
    let step = session.handle_event(SessionEvent::Interrupt);
    assert!(step.terminate);
    assert!(!step.redraw);
    assert!(matches!(step.action, Some(Action::Quit)));
    let _ = Interrupted::OsSigInt;
}

#[test]
fn a_closed_input_stream_terminates_like_an_interrupt() {
    let mut session = Session::new();
    let step = session.handle_event(SessionEvent::InputClosed);
    assert!(step.terminate);
    assert!(!step.redraw);
    assert!(matches!(step.action, Some(Action::Quit)));
}

#[test]
fn a_tick_only_redraws() {
    let mut session = Session::new();
    let step = session.handle_event(SessionEvent::Tick);
    assert!(!step.terminate);
    assert!(step.redraw);
    assert!(step.action.is_none());
}

#[test]
fn an_observed_quit_state_terminates_silently() {
    let mut session = Session::new();
    let step = session.handle_event(SessionEvent::StateArrived(State::Quit));
    assert!(step.terminate);
    assert!(!step.redraw);
    assert!(step.action.is_none());
}

#[test]
fn a_state_update_rebuilds_the_router_and_redraws() {
    let mut session = Session::new();
    let step = session.handle_event(SessionEvent::StateArrived(State::Search(SearchState {
        lambdas: Vec::new(),
    })));
    assert!(!step.terminate);
    assert!(step.redraw);
    assert!(matches!(session.router.current, Page::Search));
}

#[test]
fn a_key_goes_to_the_current_page() {
    let mut session = Session::new();
    let step = session.handle_event(SessionEvent::Key(KeyEvent {
        code: KeyCode::Char('s'),
        ctrl: false,
    }));
    assert!(!step.terminate);
    assert!(step.redraw);
    assert!(matches!(step.action, Some(Action::Search)));
}
