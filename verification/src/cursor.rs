//! A forward-only cursor over the characters of a source text.

use vstd::prelude::*;

verus! {

/// A position in a source text that only ever moves forward. The text is held
/// as its characters, so that looking at the next one costs constant time.
pub struct Cursor {
    chars: Vec<char>,
    pos: usize,
}

impl Cursor {
    #[verifier::type_invariant]
    spec fn in_bounds(self) -> bool {
        self.pos <= self.chars@.len()
    }

    /// The characters that have not been consumed yet, in order.
    pub closed spec fn remaining(self) -> Seq<char> {
        self.chars@.skip(self.pos as int)
    }

    /// A cursor at the start of `text`.
    pub fn new(text: &str) -> (cursor: Cursor)
        ensures
            cursor.remaining() == text@,
    {
        let mut chars: Vec<char> = Vec::new();
        for c in it: text.chars()
            invariant
                chars@ == it.seq().take(it.index()),
        {
            chars.push(c);
        }
        Cursor { chars, pos: 0 }
    }

    /// Looks at the next character without consuming it.
    pub fn peek(&self) -> (next: Option<char>)
        ensures
            next == if self.remaining().len() > 0 {
                Some(self.remaining()[0])
            } else {
                None
            },
    {
        proof {
            use_type_invariant(self);
        }
        if self.pos < self.chars.len() {
            Some(self.chars[self.pos])
        } else {
            None
        }
    }

    /// Consumes the next character and returns it. At the end of the text
    /// nothing is consumed and nothing returned, however often it is called.
    pub fn next(&mut self) -> (next: Option<char>)
        ensures
            old(self).remaining().len() == 0 ==> next is None && final(self).remaining()
                == old(self).remaining(),
            old(self).remaining().len() > 0 ==> next == Some(old(self).remaining()[0])
                && final(self).remaining() == old(self).remaining().skip(1),
    {
        proof {
            use_type_invariant(&*self);
        }
        if self.pos < self.chars.len() {
            let c = self.chars[self.pos];
            self.pos = self.pos + 1;
            Some(c)
        } else {
            None
        }
    }
}

} // verus!
