//! The shared input box: a single-line text editor with a cursor, used by
//! the search page for its free-text query.

use vstd::prelude::*;

use crate::keys::{KeyCode, KeyEvent};

verus! {

/// A single line of editable text and a cursor position inside it.
#[derive(Debug)]
pub struct InputBox {
    pub text: Vec<char>,
    pub cursor: usize,
}

/// Ghost image of an `InputBox`.
#[verifier::ext_equal]
pub ghost struct InputBoxV {
    pub text: Seq<char>,
    pub cursor: int,
}

impl View for InputBox {
    type V = InputBoxV;

    open spec fn view(&self) -> InputBoxV {
        InputBoxV { text: self.text@, cursor: self.cursor as int }
    }
}

impl InputBoxV {
    /// The cursor never leaves the text.
    pub open spec fn wf(self) -> bool {
        0 <= self.cursor <= self.text.len()
    }

    /// An empty box with the cursor at the start.
    pub open spec fn empty() -> InputBoxV {
        InputBoxV { text: Seq::empty(), cursor: 0 }
    }
}

/// How one key press edits the box: a plain character is inserted at the
/// cursor, backspace deletes before it, the arrow keys move it, and
/// control-modified or other keys leave the box alone.
pub open spec fn input_box_edit(b: InputBoxV, key: KeyEvent) -> InputBoxV {
    if key.ctrl {
        b
    } else {
        match key.code {
            KeyCode::Char(c) => InputBoxV {
                text: b.text.insert(b.cursor, c),
                cursor: b.cursor + 1,
            },
            KeyCode::Backspace => if b.cursor > 0 {
                InputBoxV { text: b.text.remove(b.cursor - 1), cursor: b.cursor - 1 }
            } else {
                b
            },
            KeyCode::Left => if b.cursor > 0 {
                InputBoxV { text: b.text, cursor: b.cursor - 1 }
            } else {
                b
            },
            KeyCode::Right => if b.cursor < b.text.len() {
                InputBoxV { text: b.text, cursor: b.cursor + 1 }
            } else {
                b
            },
            _ => b,
        }
    }
}

impl InputBox {
    /// An empty input box.
    pub fn new() -> (r: InputBox)
        ensures
            r@ == InputBoxV::empty(),
            r@.wf(),
    {
        let r = InputBox { text: Vec::new(), cursor: 0 };
        assert(r@.text =~= Seq::<char>::empty());
        r
    }

    /// The current text.
    pub fn text(&self) -> (r: &Vec<char>)
        ensures
            r@ == self@.text,
    {
        &self.text
    }

    /// Applies one key press to the box.
    pub fn handle_key_event(&mut self, key: KeyEvent)
        requires
            old(self)@.wf(),
        ensures
            final(self)@ == input_box_edit(old(self)@, key),
            final(self)@.wf(),
    {
        if key.ctrl {
            return ;
        }
        match key.code {
            KeyCode::Char(c) => {
                self.text.insert(self.cursor, c);
                let n = self.text.len();
                assert(self.cursor < n);
                self.cursor = self.cursor + 1;
            },
            KeyCode::Backspace => {
                if self.cursor > 0 {
                    self.text.remove(self.cursor - 1);
                    self.cursor = self.cursor - 1;
                }
            },
            KeyCode::Left => {
                if self.cursor > 0 {
                    self.cursor = self.cursor - 1;
                }
            },
            KeyCode::Right => {
                if self.cursor < self.text.len() {
                    self.cursor = self.cursor + 1;
                }
            },
            _ => {},
        }
    }
}

} // verus!
