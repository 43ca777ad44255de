//! The message-input line: its text and cursor.

use vstd::prelude::*;

verus! {

/// Where the cursor should move.
pub enum CursorMove {
    Left,
    Right,
    Home,
    End,
}

/// The text being typed and the cursor position within it.
pub struct InputViewModel {
    pub text: Vec<char>,
    pub cursor: usize,
}

impl InputViewModel {
    /// The cursor never leaves the text.
    pub open spec fn wf(self) -> bool {
        self.cursor <= self.text@.len()
    }

    /// An empty input line.
    pub fn new() -> (r: Self)
        ensures
            r.text@ == Seq::<char>::empty(),
            r.cursor == 0,
            r.wf(),
    {
        let r = Self { text: Vec::new(), cursor: 0 };
        proof {
            assert(r.text@ =~= Seq::<char>::empty());
        }
        r
    }

    /// The typed text.
    pub fn input(&self) -> (r: &[char])
        ensures
            r@ == self.text@,
    {
        self.text.as_slice()
    }

    /// Types one character at the cursor.
    pub fn input_write(&mut self, character: char)
        requires
            old(self).wf(),
            old(self).text@.len() < usize::MAX,
        ensures
            final(self).wf(),
            final(self).text@ == old(self).text@.insert(old(self).cursor as int, character),
            final(self).cursor == old(self).cursor + 1,
    {
        self.text.insert(self.cursor, character);
        self.cursor = self.cursor + 1;
    }

    /// Deletes the character under the cursor, if any.
    pub fn input_remove(&mut self)
        requires
            old(self).wf(),
        ensures
            final(self).wf(),
            final(self).cursor == old(self).cursor,
            old(self).cursor < old(self).text@.len() ==> final(self).text@ == old(
                self,
            ).text@.remove(old(self).cursor as int),
            old(self).cursor >= old(self).text@.len() ==> final(self).text@ == old(self).text@,
    {
        if self.cursor < self.text.len() {
            self.text.remove(self.cursor);
        }
    }

    /// Clears the line and returns the cursor to the start.
    pub fn clean_input(&mut self)
        ensures
            final(self).text@ == Seq::<char>::empty(),
            final(self).cursor == 0,
            final(self).wf(),
    {
        self.cursor = 0;
        self.text = Vec::new();
        proof {
            assert(self.text@ =~= Seq::<char>::empty());
        }
    }

    /// Deletes the character before the cursor, if any, moving the cursor
    /// back over it.
    pub fn input_remove_previous(&mut self)
        requires
            old(self).wf(),
        ensures
            final(self).wf(),
            old(self).cursor > 0 ==> final(self).text@ == old(self).text@.remove(
                old(self).cursor - 1,
            ) && final(self).cursor == old(self).cursor - 1,
            old(self).cursor == 0 ==> *final(self) == *old(self),
    {
        if self.cursor > 0 {
            self.cursor = self.cursor - 1;
            self.text.remove(self.cursor);
        }
    }

    /// Moves the cursor one step or to either end, never past the text.
    pub fn input_move_cursor(&mut self, movement: CursorMove)
        requires
            old(self).wf(),
        ensures
            final(self).wf(),
            final(self).text@ == old(self).text@,
            final(self).cursor == (match movement {
                CursorMove::Left => if old(self).cursor > 0 {
                    (old(self).cursor - 1) as usize
                } else {
                    0
                },
                CursorMove::Right => if old(self).cursor < old(self).text@.len() {
                    (old(self).cursor + 1) as usize
                } else {
                    old(self).cursor
                },
                CursorMove::Home => 0,
                CursorMove::End => old(self).text@.len() as usize,
            }),
    {
        match movement {
            CursorMove::Left => {
                if self.cursor > 0 {
                    self.cursor = self.cursor - 1;
                }
            },
            CursorMove::Right => {
                if self.cursor < self.text.len() {
                    self.cursor = self.cursor + 1;
                }
            },
            CursorMove::Home => {
                self.cursor = 0;
            },
            CursorMove::End => {
                self.cursor = self.text.len();
            },
        }
    }
}

} // verus!
