use vstd::prelude::*;
use crate::keys::KeyCode;
use crate::text::push_char;

verus! {

/// A single-line text editor driven by key presses: the buffer and a cursor
/// position counted in characters.
pub struct TextInput {
    pub text: String,
    pub cursor: usize,
}

impl TextInput {
    /// The cursor always sits on a position inside or just past the text.
    pub open spec fn wf(&self) -> bool {
        self.cursor <= self.text@.len()
    }

    /// An empty editor.
    pub fn new() -> (r: TextInput)
        ensures
            r.text@ == Seq::<char>::empty(),
            r.cursor == 0,
            r.wf(),
    {
        TextInput { text: String::new(), cursor: 0 }
    }

    /// An editor holding `text` with the cursor at its end.
    pub fn with_text(text: String) -> (r: TextInput)
        ensures
            r.text == text,
            r.cursor == text@.len(),
            r.wf(),
    {
        let cursor = text.as_str().unicode_len();
        TextInput { text, cursor }
    }

    /// Apply one key press: characters insert at the cursor, Backspace
    /// removes the character before it, Delete the one under it, and the
    /// arrow keys move it; everything else is ignored.
    pub fn handle_key(&mut self, code: KeyCode)
        requires
            old(self).wf(),
            old(self).text@.len() < usize::MAX,
        ensures
            final(self).wf(),
            code matches KeyCode::Char(c) ==> final(self).text@ == old(self).text@.take(
                old(self).cursor as int,
            ) + seq![c] + old(self).text@.skip(old(self).cursor as int) && final(self).cursor
                == old(self).cursor + 1,
            code is Backspace && old(self).cursor > 0 ==> final(self).text@ == old(
                self,
            ).text@.take(old(self).cursor - 1) + old(self).text@.skip(old(self).cursor as int)
                && final(self).cursor == old(self).cursor - 1,
            code is Backspace && old(self).cursor == 0 ==> *final(self) == *old(self),
            code is Delete && old(self).cursor < old(self).text@.len() ==> final(self).text@ == old(
                self,
            ).text@.take(old(self).cursor as int) + old(self).text@.skip(old(self).cursor + 1)
                && final(self).cursor == old(self).cursor,
            code is Delete && old(self).cursor >= old(self).text@.len() ==> *final(self) == *old(
                self,
            ),
            code is Left ==> final(self).text == old(self).text && final(self).cursor == (
            if old(self).cursor > 0 {
                old(self).cursor - 1
            } else {
                0int
            }),
            code is Right ==> final(self).text == old(self).text && final(self).cursor == (
            if old(self).cursor < old(self).text@.len() {
                old(self).cursor + 1
            } else {
                old(self).cursor as int
            }),
            !(code is Char) && !(code is Backspace) && !(code is Delete) && !(code is Left) && !(
            code is Right) ==> *final(self) == *old(self),
    {
        let len = self.text.as_str().unicode_len();
        match code {
            KeyCode::Char(c) => {
                let pre = self.text.as_str().substring_char(0, self.cursor);
                let mut t = pre.to_owned();
                push_char(&mut t, c);
                let post = self.text.as_str().substring_char(self.cursor, len);
                t.append(post);
                proof {
                    assert(t@ =~= self.text@.take(self.cursor as int) + seq![c] + self.text@.skip(
                        self.cursor as int,
                    ));
                }
                self.text = t;
                self.cursor = self.cursor + 1;
            },
            KeyCode::Backspace => {
                if self.cursor > 0 {
                    let pre = self.text.as_str().substring_char(0, self.cursor - 1);
                    let mut t = pre.to_owned();
                    let post = self.text.as_str().substring_char(self.cursor, len);
                    t.append(post);
                    proof {
                        assert(t@ =~= self.text@.take(self.cursor - 1) + self.text@.skip(
                            self.cursor as int,
                        ));
                    }
                    self.text = t;
                    self.cursor = self.cursor - 1;
                }
            },
            KeyCode::Delete => {
                if self.cursor < len {
                    let pre = self.text.as_str().substring_char(0, self.cursor);
                    let mut t = pre.to_owned();
                    let post = self.text.as_str().substring_char(self.cursor + 1, len);
                    t.append(post);
                    proof {
                        assert(t@ =~= self.text@.take(self.cursor as int) + self.text@.skip(
                            self.cursor + 1,
                        ));
                    }
                    self.text = t;
                }
            },
            KeyCode::Left => {
                if self.cursor > 0 {
                    self.cursor = self.cursor - 1;
                }
            },
            KeyCode::Right => {
                if self.cursor < len {
                    self.cursor = self.cursor + 1;
                }
            },
            _ => {},
        }
    }
}

} // verus!
