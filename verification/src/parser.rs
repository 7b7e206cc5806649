//! The consumer of the token stream.

use crate::lexer::Lexer;
use vstd::prelude::*;

verus! {

/// Parser pulls its tokens from a lexer that it owns.
pub struct Parser {
    lexer: Lexer,
}

impl Parser {
    /// The lexer that the parser reads from.
    pub closed spec fn lexer(self) -> Lexer {
        self.lexer
    }

    /// A parser over `lexer`. Nothing is read yet: every token that the
    /// lexer had to come is still to come.
    pub fn new(lexer: Lexer) -> (parser: Parser)
        ensures
            parser.lexer() == lexer,
    {
        Parser { lexer }
    }
}

} // verus!
