use shepherd::keys::{KeyCode, KeyEvent};
use shepherd::model::{Action, Lambda, SearchState, State};
use shepherd::pages::search::{InputMode, SearchPage};

fn lambda(name: &str) -> Lambda {
    Lambda {
        name: name.to_string(),
        arn: format!("arn:aws:lambda:eu-west-1:123456789012:function:{}", name),
        runtime: "nodejs20.x".to_string(),
        memory: 512,
        timeout: 15,
    }
}

fn search_state(names: &[&str]) -> State {
    State::Search(SearchState { lambdas: names.iter().map(|n| lambda(n)).collect() })
}

fn key(code: KeyCode) -> KeyEvent {
    KeyEvent { code, ctrl: false }
}

#[test]
fn cursor_moves_with_ctrl_n_and_ctrl_p_and_stays_in_range() {
    let mut page = SearchPage::new(&search_state(&["a", "b", "c"]));
    assert_eq!(page.props.highlighted_index, 0);
    page.handle_key_event(KeyEvent::ctrl('n'));
    assert_eq!(page.props.highlighted_index, 1);
    page.handle_key_event(KeyEvent::ctrl('n'));
    page.handle_key_event(KeyEvent::ctrl('n'));
    assert_eq!(page.props.highlighted_index, 2);
    page.handle_key_event(KeyEvent::ctrl('p'));
    assert_eq!(page.props.highlighted_index, 1);
    page.handle_key_event(KeyEvent::ctrl('p'));
    page.handle_key_event(KeyEvent::ctrl('p'));
    assert_eq!(page.props.highlighted_index, 0);
}

#[test]
fn cursor_survives_an_empty_filter_and_back() {
    let mut page = SearchPage::new(&search_state(&["alpha", "beta"]));
    page.handle_key_event(KeyEvent::plain('i'));
    assert_eq!(page.input_mode, InputMode::Insert);
    page.handle_key_event(KeyEvent::ctrl('n'));
    assert_eq!(page.props.highlighted_index, 1);
    for c in "zzz".chars() {
        page.handle_key_event(KeyEvent::plain(c));
    }
    assert_eq!(page.props.filtered_list.len(), 0);
    assert_eq!(page.props.highlighted_index, 0);
    page.handle_key_event(KeyEvent::ctrl('n'));
    assert_eq!(page.props.highlighted_index, 0);
    for _ in 0..3 {
        page.handle_key_event(key(KeyCode::Backspace));
    }
    assert_eq!(page.props.filtered_list.len(), 2);
    assert!(page.props.highlighted_index < page.props.filtered_list.len());
}

#[test]
fn typing_in_insert_mode_filters_the_list() {
    let mut page = SearchPage::new(&search_state(&["foo", "bar", "foobar"]));
    assert_eq!(page.props.filtered_list.len(), 3);
    page.handle_key_event(KeyEvent::plain('i'));
    page.handle_key_event(KeyEvent::plain('f'));
    page.handle_key_event(KeyEvent::plain('o'));
    let names: Vec<&str> =
        page.props.filtered_list.iter().map(|(_, l)| l.name.as_str()).collect();
    assert_eq!(names, vec!["foo", "foobar"]);
}

#[test]
fn escape_returns_to_normal_mode_without_refiltering() {
    let mut page = SearchPage::new(&search_state(&["foo"]));
    page.handle_key_event(KeyEvent::plain('i'));
    assert_eq!(page.input_mode, InputMode::Insert);
    let r = page.handle_key_event(key(KeyCode::Esc));
    assert!(r.is_none());
    assert_eq!(page.input_mode, InputMode::Normal);
}

#[test]
fn enter_requests_details_for_the_highlighted_function() {
    let mut page = SearchPage::new(&search_state(&["one", "two"]));
    page.handle_key_event(KeyEvent::ctrl('n'));
    let r = page.handle_key_event(key(KeyCode::Enter));
    match r {
        Some(Action::PerformSearch { lambda }) => assert_eq!(lambda.name, "two"),
        _ => panic!("enter must request the highlighted entry's details"),
    }
}

#[test]
fn enter_on_an_empty_list_requests_nothing() {
    let mut page = SearchPage::new(&State::Splash);
    let r = page.handle_key_event(key(KeyCode::Enter));
    assert!(r.is_none());
}

#[test]
fn q_in_normal_mode_requests_quitting() {
    let mut page = SearchPage::new(&search_state(&["x"]));
    let r = page.handle_key_event(KeyEvent::plain('q'));
    assert!(matches!(r, Some(Action::Quit)));
}

#[test]
fn q_in_insert_mode_edits_the_query_instead() {
    let mut page = SearchPage::new(&search_state(&["quick", "slow"]));
    page.handle_key_event(KeyEvent::plain('i'));
    let r = page.handle_key_event(KeyEvent::plain('q'));
    assert!(r.is_none());
    let names: Vec<&str> =
        page.props.filtered_list.iter().map(|(_, l)| l.name.as_str()).collect();
    assert_eq!(names, vec!["quick"]);
}

#[test]
fn rebuild_keeps_the_query_and_clamps_the_cursor() {
    let mut page = SearchPage::new(&search_state(&["aa", "ab", "ac"]));
    page.handle_key_event(KeyEvent::ctrl('n'));
    page.handle_key_event(KeyEvent::ctrl('n'));
    assert_eq!(page.props.highlighted_index, 2);
    page.handle_key_event(KeyEvent::plain('i'));
    page.handle_key_event(KeyEvent::plain('a'));
    let page = page.move_with_state(&search_state(&["ab"]));
    assert_eq!(page.input_mode, InputMode::Normal);
    assert_eq!(page.props.filtered_list.len(), 1);
    assert_eq!(page.props.highlighted_index, 0);
    assert_eq!(page.input_box.text, vec!['a']);
}
