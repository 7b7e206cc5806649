//! Building and comparing strings character by character.

use vstd::prelude::*;
use vstd::std_specs::iter::IteratorSpec;

verus! {

/// Taken on trust, not proved: `String::push` of the standard library
/// appends the one character `ch` to the end of the string and leaves the
/// characters before it as they were.
pub assume_specification[ String::push ](s: &mut String, ch: char)
    ensures
        final(s)@ == old(s)@.push(ch),
;

/// The string that holds `ch` and nothing else.
pub fn single(ch: char) -> (text: String)
    ensures
        text@ == seq![ch],
{
    let mut text = String::new();
    text.push(ch);
    text
}

/// Whether `a` and `b` hold the same characters.
pub fn same_text(a: &str, b: &str) -> (same: bool)
    ensures
        same == (a@ == b@),
{
    broadcast use vstd::string::group_string_axioms;

    let mut xs = a.chars();
    let mut ys = b.chars();
    let ghost mut n: int = 0;
    loop
        invariant
            0 <= n <= a@.len(),
            n <= b@.len(),
            a@.take(n) == b@.take(n),
            xs.remaining() == a@.skip(n),
            ys.remaining() == b@.skip(n),
        decreases a@.len() - n,
    {
        let x = xs.next();
        let y = ys.next();
        match (x, y) {
            (None, None) => {
                assert(a@.take(n) =~= a@ && b@.take(n) =~= b@);
                return true;
            },
            (Some(c), Some(d)) => {
                if c != d {
                    return false;
                }
            },
            _ => {
                return false;
            },
        }
        proof {
            n = n + 1;
        }
    }
}

} // verus!
