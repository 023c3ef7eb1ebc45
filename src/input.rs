use vstd::prelude::*;

use crate::key::Key;

verus! {

/// The text and caret after an editing key: a character is typed at the caret,
/// Backspace and Delete remove the character before or at it, Left and Right
/// move it within the text; any other key changes nothing.
pub open spec fn edited(text: Seq<char>, caret: int, key: Key) -> (Seq<char>, int) {
    match key {
        Key::Char(c) => if text.len() < usize::MAX {
            (text.insert(caret, c), caret + 1)
        } else {
            (text, caret)
        },
        Key::Backspace => if caret > 0 {
            (text.remove(caret - 1), caret - 1)
        } else {
            (text, caret)
        },
        Key::Delete => if caret < text.len() {
            (text.remove(caret), caret)
        } else {
            (text, caret)
        },
        Key::Left => if caret > 0 {
            (text, caret - 1)
        } else {
            (text, caret)
        },
        Key::Right => if caret < text.len() {
            (text, caret + 1)
        } else {
            (text, caret)
        },
        _ => (text, caret),
    }
}

/// The text being typed at the prompt, with its caret, and the entry it will rename.
pub struct Input {
    pub text: Vec<char>,
    /// Where the next character goes: `0..=text.len()`.
    pub caret: usize,
    /// The index of the entry that the submitted text renames.
    pub target: usize,
}

impl Input {
    /// The caret stays within the text.
    pub open spec fn wf(&self) -> bool {
        self.caret <= self.text@.len()
    }

    /// A prompt seeded with `text`, the caret after its last character.
    pub fn new(text: Vec<char>, target: usize) -> (r: Input)
        ensures
            r.wf(),
            r.text == text,
            r.caret == text@.len(),
            r.target == target,
    {
        let caret = text.len();
        Input { text, caret, target }
    }

    /// Types `c` at the caret, which moves past it.
    pub fn insert_char(&mut self, c: char)
        requires
            old(self).wf(),
            old(self).text@.len() < usize::MAX,
        ensures
            final(self).wf(),
            final(self).text@ == old(self).text@.insert(old(self).caret as int, c),
            final(self).caret == old(self).caret + 1,
            final(self).target == old(self).target,
    {
        self.text.insert(self.caret, c);
        self.caret = self.caret + 1;
    }

    /// Removes the character before the caret, if there is one.
    pub fn backspace(&mut self)
        requires
            old(self).wf(),
        ensures
            final(self).wf(),
            final(self).target == old(self).target,
            old(self).caret > 0 ==> final(self).text@ == old(self).text@.remove(
                old(self).caret - 1,
            ) && final(self).caret == old(self).caret - 1,
            old(self).caret == 0 ==> *final(self) == *old(self),
    {
        if self.caret > 0 {
            self.text.remove(self.caret - 1);
            self.caret = self.caret - 1;
        }
    }

    /// Removes the character at the caret, if there is one.
    pub fn delete_forward(&mut self)
        requires
            old(self).wf(),
        ensures
            final(self).wf(),
            final(self).target == old(self).target,
            final(self).caret == old(self).caret,
            old(self).caret < old(self).text@.len() ==> final(self).text@ == old(
                self,
            ).text@.remove(old(self).caret as int),
            old(self).caret == old(self).text@.len() ==> final(self).text == old(self).text,
    {
        if self.caret < self.text.len() {
            self.text.remove(self.caret);
        }
    }

    /// Moves the caret one character back, stopping at the start.
    pub fn move_left(&mut self)
        requires
            old(self).wf(),
        ensures
            final(self).wf(),
            final(self).text == old(self).text,
            final(self).target == old(self).target,
            final(self).caret == (if old(self).caret > 0 {
                old(self).caret - 1
            } else {
                0
            }),
    {
        if self.caret > 0 {
            self.caret = self.caret - 1;
        }
    }

    /// Moves the caret one character on, stopping at the end.
    pub fn move_right(&mut self)
        requires
            old(self).wf(),
        ensures
            final(self).wf(),
            final(self).text == old(self).text,
            final(self).target == old(self).target,
            final(self).caret == (if old(self).caret < old(self).text@.len() {
                old(self).caret + 1
            } else {
                old(self).caret as int
            }),
    {
        if self.caret < self.text.len() {
            self.caret = self.caret + 1;
        }
    }
}

impl Input {
    /// Applies one editing key.
    pub fn edit(&mut self, key: Key)
        requires
            old(self).wf(),
        ensures
            final(self).wf(),
            final(self).target == old(self).target,
            (final(self).text@, final(self).caret as int) == edited(
                old(self).text@,
                old(self).caret as int,
                key,
            ),
    {
        match key {
            Key::Char(c) => {
                if self.text.len() < usize::MAX {
                    self.insert_char(c);
                }
            },
            Key::Backspace => self.backspace(),
            Key::Delete => self.delete_forward(),
            Key::Left => self.move_left(),
            Key::Right => self.move_right(),
            _ => {},
        }
    }
}

/// The characters of `s`, in order.
pub fn chars_of(s: &String) -> (r: Vec<char>)
    ensures
        r@ == s@,
{
    let n = s.as_str().unicode_len();
    let mut r: Vec<char> = Vec::new();
    let mut i: usize = 0;
    while i < n
        invariant
            n == s@.len(),
            i <= n,
            r@ == s@.subrange(0, i as int),
        decreases n - i,
    {
        r.push(s.as_str().get_char(i));
        i = i + 1;
    }
    assert(r@ =~= s@);
    r
}

/// Relies on std's `FromIterator<char>` for `String`: the string of exactly these characters.
#[verifier::external_body]
pub(crate) fn string_of(chars: &Vec<char>) -> (r: String)
    ensures
        r@ == chars@,
{
    chars.iter().collect()
}

} // verus!
