//! The search page: a fuzzy filter over the function list, a highlight
//! cursor, and two input modes (Normal for single-key commands, Insert for
//! editing the query).

use vstd::prelude::*;

use crate::component::{input_box_edit, InputBox, InputBoxV};
use crate::fuzzy::{fuzzy_sort_lambdas, fuzzy_sorted};
use crate::keys::{KeyCode, KeyEvent};
use crate::model::{clone_lambdas, Action, ActionV, Lambda, LambdaV, State, StateV};

verus! {

/// View-state of the search page: the full function list, the filtered
/// list (each entry with its matched character positions), and the
/// highlight cursor.
pub struct SearchProps {
    pub lambdas: Vec<Lambda>,
    pub filtered_list: Vec<(Vec<usize>, Lambda)>,
    pub highlighted_index: usize,
}

/// The page's two input modes: Normal takes single-key commands, Insert
/// edits the query; escape returns to Normal.
#[derive(Debug, Clone, Copy, PartialEq, Eq, Structural)]
pub enum InputMode {
    Normal,
    Insert,
}

/// The search page component.
pub struct SearchPage {
    pub props: SearchProps,
    pub input_mode: InputMode,
    pub input_box: InputBox,
}

/// Ghost image of a `SearchProps`.
#[verifier::ext_equal]
pub ghost struct SearchPropsV {
    pub lambdas: Seq<LambdaV>,
    pub filtered_list: Seq<(Seq<usize>, LambdaV)>,
    pub highlighted_index: int,
}

/// Ghost image of a `SearchPage`.
#[verifier::ext_equal]
pub ghost struct SearchPageV {
    pub props: SearchPropsV,
    pub input_mode: InputMode,
    pub input_box: InputBoxV,
}

impl View for SearchPage {
    type V = SearchPageV;

    open spec fn view(&self) -> SearchPageV {
        SearchPageV {
            props: SearchPropsV {
                lambdas: self.props.lambdas.deep_view(),
                filtered_list: self.props.filtered_list.deep_view(),
                highlighted_index: self.props.highlighted_index as int,
            },
            input_mode: self.input_mode,
            input_box: self.input_box@,
        }
    }
}

/// The empty view-state: no functions, no matches, cursor at 0.
pub open spec fn search_empty_props() -> SearchPropsV {
    SearchPropsV { lambdas: Seq::empty(), filtered_list: Seq::empty(), highlighted_index: 0 }
}

/// The highlight cursor clamped to the filtered list: inside
/// `[0, len - 1]`, or 0 when the list is empty.
pub open spec fn clamp_index(h: int, len: int) -> int {
    if len == 0 {
        0
    } else if h >= len {
        len - 1
    } else {
        h
    }
}

/// A well-formed search page: the highlight cursor sits inside the
/// filtered list (at 0 when it is empty), and the input box is sound.
pub open spec fn search_wf(p: SearchPageV) -> bool {
    &&& p.input_box.wf()
    &&& 0 <= p.props.highlighted_index
    &&& p.props.filtered_list.len() == 0 ==> p.props.highlighted_index == 0
    &&& p.props.filtered_list.len() > 0 ==> p.props.highlighted_index
        < p.props.filtered_list.len()
}

/// What rebuilding the page with state `s` yields: for a search state, the
/// new function list filtered by the kept query, the cursor clamped to the
/// new filtered list; for every other state, the empty view.  The query
/// box survives rebuilds; the mode resets to Normal.
pub open spec fn search_rebuild(prev: SearchPageV, s: StateV) -> SearchPageV {
    match s {
        StateV::Search { lambdas } => {
            let filtered = fuzzy_sorted(lambdas, prev.input_box.text);
            SearchPageV {
                props: SearchPropsV {
                    lambdas,
                    filtered_list: filtered,
                    highlighted_index: clamp_index(
                        prev.props.highlighted_index,
                        filtered.len() as int,
                    ),
                },
                input_mode: InputMode::Normal,
                input_box: prev.input_box,
            }
        },
        _ => SearchPageV {
            props: search_empty_props(),
            input_mode: InputMode::Normal,
            input_box: prev.input_box,
        },
    }
}

/// The freshly built page: a rebuild starting from the empty view and an
/// empty query.
pub open spec fn search_init(s: StateV) -> SearchPageV {
    search_rebuild(
        SearchPageV {
            props: search_empty_props(),
            input_mode: InputMode::Normal,
            input_box: InputBoxV::empty(),
        },
        s,
    )
}

/// What one key press does to the page, and the action it requests.
/// Escape returns to Normal mode; Enter requests the highlighted entry's
/// details; both leave the filter untouched.  Every other key first moves
/// the cursor (control-n/p, in both modes), then acts by mode (Normal:
/// `i` enters Insert, `q` requests quitting; Insert: the key edits the
/// query), and finally recomputes the filter and clamps the cursor.
pub open spec fn search_after_key(p: SearchPageV, key: KeyEvent) -> (SearchPageV, Option<
    ActionV,
>) {
    if key.code is Esc {
        (
            SearchPageV { props: p.props, input_mode: InputMode::Normal, input_box: p.input_box },
            None,
        )
    } else if key.code is Enter {
        let act: Option<ActionV> = if p.props.filtered_list.len() > 0 {
            Some(
                ActionV::PerformSearch {
                    lambda: p.props.filtered_list[p.props.highlighted_index].1,
                },
            )
        } else {
            None
        };
        (p, act)
    } else {
        let len0 = p.props.filtered_list.len() as int;
        let h1: int = if key == (KeyEvent { code: KeyCode::Char('n'), ctrl: true }) {
            clamp_index(p.props.highlighted_index + 1, len0)
        } else if key == (KeyEvent { code: KeyCode::Char('p'), ctrl: true }) {
            if p.props.highlighted_index > 0 {
                p.props.highlighted_index - 1
            } else {
                0
            }
        } else {
            p.props.highlighted_index
        };
        let mode1: InputMode = if p.input_mode == InputMode::Normal {
            if key.code == KeyCode::Char('i') {
                InputMode::Insert
            } else {
                InputMode::Normal
            }
        } else {
            InputMode::Insert
        };
        let box1: InputBoxV = if p.input_mode == InputMode::Insert {
            input_box_edit(p.input_box, key)
        } else {
            p.input_box
        };
        let act: Option<ActionV> = if p.input_mode == InputMode::Normal && key.code
            == KeyCode::Char('q') {
            Some(ActionV::Quit)
        } else {
            None
        };
        let filtered = fuzzy_sorted(p.props.lambdas, box1.text);
        (
            SearchPageV {
                props: SearchPropsV {
                    lambdas: p.props.lambdas,
                    filtered_list: filtered,
                    highlighted_index: clamp_index(h1, filtered.len() as int),
                },
                input_mode: mode1,
                input_box: box1,
            },
            act,
        )
    }
}

/// Rebuilding the search page with a state it does not own resets its
/// view to the empty one and its mode to Normal, whatever it held before
/// and however often it is rebuilt; only the query box, which belongs to
/// the operator rather than to any state, survives.
pub proof fn lemma_search_rebuild_unowned(p1: SearchPageV, p2: SearchPageV, s: StateV)
    requires
        !(s is Search),
    ensures
        search_rebuild(p1, s).props =~= search_empty_props(),
        search_rebuild(p1, s).props =~= search_rebuild(p2, s).props,
        search_rebuild(p1, s).input_mode == InputMode::Normal,
{
}

/// After a rebuild the highlight cursor always sits inside the filtered
/// list, whatever it was before: clamping re-establishes well-formedness
/// even across a transition to an empty filtered list and back.
pub proof fn lemma_search_rebuild_wf(prev: SearchPageV, s: StateV)
    requires
        prev.input_box.wf(),
        0 <= prev.props.highlighted_index,
    ensures
        search_wf(search_rebuild(prev, s)),
{
}

impl SearchPage {
    /// Builds the page for the just-observed state, with an empty query.
    pub fn new(state: &State) -> (r: SearchPage)
        ensures
            r@ == search_init(state@),
            search_wf(r@),
    {
        let input_box = InputBox::new();
        match state {
            State::Search(ss) => {
                let lambdas = clone_lambdas(&ss.lambdas);
                let filtered_list = fuzzy_sort_lambdas(&lambdas, input_box.text());
                SearchPage {
                    props: SearchProps { lambdas, filtered_list, highlighted_index: 0 },
                    input_mode: InputMode::Normal,
                    input_box,
                }
            },
            _ => {
                let r = SearchPage {
                    props: SearchProps {
                        lambdas: Vec::new(),
                        filtered_list: Vec::new(),
                        highlighted_index: 0,
                    },
                    input_mode: InputMode::Normal,
                    input_box,
                };
                assert(r@.props.lambdas =~= Seq::<LambdaV>::empty());
                assert(r@.props.filtered_list =~= Seq::<(Seq<usize>, LambdaV)>::empty());
                r
            },
        }
    }

    pub fn name(&self) -> (r: &'static str)
        ensures
            r@ == "Search"@,
    {
        "Search"
    }

    /// Rebuilds the page on a state change, keeping the query.
    pub fn move_with_state(self, state: &State) -> (r: SearchPage)
        requires
            self@.input_box.wf(),
        ensures
            r@ == search_rebuild(self@, state@),
            search_wf(r@),
    {
        match state {
            State::Search(ss) => {
                let lambdas = clone_lambdas(&ss.lambdas);
                let filtered_list = fuzzy_sort_lambdas(&lambdas, self.input_box.text());
                let len = filtered_list.len();
                let highlighted_index: usize = if len == 0 {
                    0
                } else if self.props.highlighted_index >= len {
                    len - 1
                } else {
                    self.props.highlighted_index
                };
                SearchPage {
                    props: SearchProps { lambdas, filtered_list, highlighted_index },
                    input_mode: InputMode::Normal,
                    input_box: self.input_box,
                }
            },
            _ => {
                let r = SearchPage {
                    props: SearchProps {
                        lambdas: Vec::new(),
                        filtered_list: Vec::new(),
                        highlighted_index: 0,
                    },
                    input_mode: InputMode::Normal,
                    input_box: self.input_box,
                };
                assert(r@.props.lambdas =~= Seq::<LambdaV>::empty());
                assert(r@.props.filtered_list =~= Seq::<(Seq<usize>, LambdaV)>::empty());
                r
            },
        }
    }

    /// Applies one key press: may move the cursor, switch modes, edit the
    /// query and refilter, and returns the action the key requests, if
    /// any.
    pub fn handle_key_event(&mut self, key: KeyEvent) -> (r: Option<Action>)
        requires
            search_wf(old(self)@),
        ensures
            final(self)@ == search_after_key(old(self)@, key).0,
            r.deep_view() == search_after_key(old(self)@, key).1,
            search_wf(final(self)@),
    {
        let ghost p0 = self@;
        match key.code {
            KeyCode::Esc => {
                self.input_mode = InputMode::Normal;
                return None;
            },
            KeyCode::Enter => {
                if self.props.highlighted_index < self.props.filtered_list.len() {
                    let entry = &self.props.filtered_list[self.props.highlighted_index];
                    let lambda = entry.1.clone();
                    return Some(Action::PerformSearch { lambda });
                }
                return None;
            },
            _ => {},
        }
        let is_ctrl_n = key.ctrl && match key.code {
            KeyCode::Char(c) => c == 'n',
            _ => false,
        };
        let is_ctrl_p = key.ctrl && match key.code {
            KeyCode::Char(c) => c == 'p',
            _ => false,
        };
        if is_ctrl_n {
            let len = self.props.filtered_list.len();
            if len == 0 {
                self.props.highlighted_index = 0;
            } else if self.props.highlighted_index + 1 >= len {
                self.props.highlighted_index = len - 1;
            } else {
                self.props.highlighted_index = self.props.highlighted_index + 1;
            }
        } else if is_ctrl_p {
            if self.props.highlighted_index > 0 {
                self.props.highlighted_index = self.props.highlighted_index - 1;
            }
        }
        let mut action: Option<Action> = None;
        if self.input_mode == InputMode::Normal {
            match key.code {
                KeyCode::Char(c) => {
                    if c == 'i' {
                        self.input_mode = InputMode::Insert;
                    } else if c == 'q' {
                        action = Some(Action::Quit);
                    }
                },
                _ => {},
            }
        } else {
            self.input_box.handle_key_event(key);
        }
        let filtered_list = fuzzy_sort_lambdas(&self.props.lambdas, self.input_box.text());
        let len = filtered_list.len();
        self.props.filtered_list = filtered_list;
        if len == 0 {
            self.props.highlighted_index = 0;
        } else if self.props.highlighted_index >= len {
            self.props.highlighted_index = len - 1;
        }
        action
    }
}

} // verus!
