//! The scanner: turns a source text into tokens, one at a time.

use crate::cursor::Cursor;
use crate::grammar::{
    assign_or_equal, bang_or_not_equal, blanks_len, char_count, digits_len, first_token,
    is_significant, lemma_blanks_len_bound, lemma_digits_len_bound, lemma_lex_round_trip,
    lemma_scan_start_is_significant, lemma_token_len_bounds, lemma_tokens_step,
    lemma_tokens_without_whitespace, lemma_word_len_bound, scan_start, sign_len, spelling,
    token_len, tokens, word, word_len,
};
use crate::text::{same_text, single};
use crate::token::{lexemes, Lexeme, Token};
use vstd::prelude::*;

verus! {

/// Lexer produces the tokens of a given input, one at a time and in source
/// order. It cannot be rewound: to scan again, make a new one.
pub struct Lexer {
    input: Cursor,
    keep_whitespace: bool,
}

impl Lexer {
    /// The part of the input that has not been scanned yet.
    pub closed spec fn remaining(self) -> Seq<char> {
        self.input.remaining()
    }

    /// Whether blanks are handed out as `Whitespace` tokens.
    pub closed spec fn keeps_whitespace(self) -> bool {
        self.keep_whitespace
    }

    /// The tokens that are still to come.
    pub open spec fn pending(self) -> Seq<Lexeme> {
        tokens(self.remaining(), self.keeps_whitespace())
    }

    /// A lexer at the start of `input` that passes over blanks silently.
    pub fn new(input: &String) -> (lexer: Lexer)
        ensures
            lexer.remaining() == input@,
            !lexer.keeps_whitespace(),
    {
        Lexer { input: Cursor::new(input.as_str()), keep_whitespace: false }
    }

    /// A lexer at the start of `input` that hands out every blank as a
    /// `Whitespace` token, so that no character of the input is lost.
    pub fn with_whitespace(input: &String) -> (lexer: Lexer)
        ensures
            lexer.remaining() == input@,
            lexer.keeps_whitespace(),
    {
        Lexer { input: Cursor::new(input.as_str()), keep_whitespace: true }
    }

    /// Scans the token at the very start of the remaining input, a blank
    /// included, whatever the mode. At the end of the input there is none.
    pub fn next_token(&mut self) -> (token: Option<Token>)
        ensures
            final(self).keeps_whitespace() == old(self).keeps_whitespace(),
            old(self).remaining().len() == 0 ==> token is None && final(self).remaining()
                == old(self).remaining(),
            old(self).remaining().len() > 0 ==> token is Some && token->0@ == first_token(
                old(self).remaining(),
            ) && final(self).remaining() == old(self).remaining().skip(
                token_len(old(self).remaining()) as int,
            ),
    {
        let token: Option<Token>;

        match self.input.peek() {
            Some(ch) => match ch {
                'a'..='z' | 'A'..='Z' => {
                    let ident_literal = read_identifier(&mut self.input);
                    token = Some(lookup_identifier(ident_literal));
                },
                '=' => {
                    token = Some(read_assign_or_equal(&mut self.input));
                },
                '0'..='9' => {
                    let integer_literal = read_number(&mut self.input);
                    token = Some(Token::Integer(integer_literal));
                },
                '+' => {
                    token = Some(Token::Plus(single(ch)));
                    self.input.next();
                },
                '-' => {
                    token = Some(Token::Minus(single(ch)));
                    self.input.next();
                },
                '*' => {
                    token = Some(Token::Asterisk(single(ch)));
                    self.input.next();
                },
                '/' => {
                    token = Some(Token::Slash(single(ch)));
                    self.input.next();
                },
                '!' => {
                    token = Some(read_bang_or_not_equal(&mut self.input));
                },
                '<' => {
                    token = Some(Token::LessThan(single(ch)));
                    self.input.next();
                },
                '>' => {
                    token = Some(Token::GreaterThan(single(ch)));
                    self.input.next();
                },
                '(' => {
                    token = Some(Token::LParen(single(ch)));
                    self.input.next();
                },
                ')' => {
                    token = Some(Token::RParen(single(ch)));
                    self.input.next();
                },
                ',' => {
                    token = Some(Token::Comma(single(ch)));
                    self.input.next();
                },
                ' ' | '\n' => {
                    token = Some(Token::Whitespace(single(ch)));
                    self.input.next();
                },
                _ => {
                    token = Some(Token::Illegal(single(ch)));
                    self.input.next();
                },
            },
            None => {
                return None;
            },
        }
        proof {
            let start = old(self).remaining();
            lemma_word_len_bound(start);
            lemma_digits_len_bound(start);
            assert(start.take(1) =~= seq![start[0]]);
        }
        token
    }

    /// The next token, or `None` at the end of the input, and from then on
    /// `None` again however often it is called. Where blanks are not kept
    /// they are passed over first, so that no `Whitespace` token comes out.
    pub fn next(&mut self) -> (token: Option<Token>)
        ensures
            final(self).keeps_whitespace() == old(self).keeps_whitespace(),
            ({
                let start = scan_start(old(self).remaining(), old(self).keeps_whitespace());
                if start.len() == 0 {
                    token is None && final(self).remaining() == start
                } else {
                    token is Some && token->0@ == first_token(start) && final(self).remaining()
                        == start.skip(token_len(start) as int)
                }
            }),
            old(self).remaining().len() == 0 ==> token is None && final(self).remaining() == old(
                self,
            ).remaining(),
            token is Some ==> final(self).remaining().len() < old(self).remaining().len(),
            token is Some && !old(self).keeps_whitespace() ==> is_significant(token->0@),
            token is None <==> old(self).pending().len() == 0,
            token is None ==> final(self).pending() == old(self).pending(),
            token is Some ==> token->0@ == old(self).pending()[0] && final(self).pending() == old(
                self,
            ).pending().skip(1),
    {
        if !self.keep_whitespace {
            skip_blanks(&mut self.input);
        }
        proof {
            let before = old(self).remaining();
            let keep = old(self).keeps_whitespace();
            let start = scan_start(before, keep);
            lemma_blanks_len_bound(before);
            lemma_tokens_step(before, keep);
            if start.len() == 0 {
                lemma_tokens_step(start, keep);
            } else {
                lemma_token_len_bounds(start);
                if !keep {
                    lemma_scan_start_is_significant(before);
                }
            }
        }
        self.next_token()
    }

    /// All the tokens that are still to come, in order. The lexer is
    /// exhausted afterwards. Where blanks are kept no character is lost: the
    /// texts of the tokens, one after another, spell the remaining input.
    pub fn drain(&mut self) -> (all: Vec<Token>)
        ensures
            lexemes(all@) == old(self).pending(),
            final(self).keeps_whitespace() == old(self).keeps_whitespace(),
            final(self).remaining().len() == 0,
            final(self).pending().len() == 0,
            old(self).keeps_whitespace() ==> spelling(lexemes(all@)) == old(self).remaining()
                && char_count(lexemes(all@)) == old(self).remaining().len(),
            !old(self).keeps_whitespace() ==> forall|i: int|
                0 <= i < all.len() ==> is_significant((#[trigger] all[i])@),
    {
        proof {
            lemma_lex_round_trip(self.remaining());
            lemma_tokens_without_whitespace(self.remaining());
        }
        let mut all: Vec<Token> = Vec::new();
        loop
            invariant
                self.keeps_whitespace() == old(self).keeps_whitespace(),
                lexemes(all@) + self.pending() == old(self).pending(),
            ensures
                self.remaining().len() == 0,
                self.pending().len() == 0,
            decreases self.remaining().len(),
        {
            match self.next() {
                Some(token) => {
                    all.push(token);
                },
                None => break,
            }
        }
        proof {
            assert forall|i: int| 0 <= i < all.len() implies (#[trigger] all[i])@ == old(
                self,
            ).pending()[i] by {
                assert(lexemes(all@)[i] == all[i]@);
            }
        }
        all
    }
}

/// Passes over the blanks at the cursor and consumes nothing else.
fn skip_blanks(characters: &mut Cursor)
    ensures
        final(characters).remaining() == old(characters).remaining().skip(
            blanks_len(old(characters).remaining()) as int,
        ),
{
    let ghost start = characters.remaining();
    let ghost mut n: int = 0;
    loop
        invariant
            0 <= n <= start.len(),
            n + blanks_len(characters.remaining()) == blanks_len(start),
            characters.remaining() == start.skip(n),
        ensures
            blanks_len(characters.remaining()) == 0,
        decreases characters.remaining().len(),
    {
        match characters.peek() {
            Some(' ') | Some('\n') => {
                proof {
                    n = n + 1;
                }
                characters.next();
            },
            _ => break,
        }
    }
}

/// Reads the word at the cursor: the longest run of letters and underscores.
/// The run may be empty; nothing but the run is consumed.
pub fn read_identifier(characters: &mut Cursor) -> (ident: String)
    ensures
        ident@ == old(characters).remaining().take(word_len(old(characters).remaining()) as int),
        final(characters).remaining() == old(characters).remaining().skip(
            word_len(old(characters).remaining()) as int,
        ),
{
    let mut ident = String::new();
    let ghost start = characters.remaining();
    loop
        invariant
            ident@.len() + word_len(characters.remaining()) == word_len(start),
            ident@.len() <= start.len(),
            ident@ == start.take(ident@.len() as int),
            characters.remaining() == start.skip(ident@.len() as int),
        ensures
            word_len(characters.remaining()) == 0,
        decreases characters.remaining().len(),
    {
        match characters.peek() {
            Some(ch) => match ch {
                'a'..='z' | 'A'..='Z' | '_' => {
                    ident.push(ch);
                    characters.next();
                },
                _ => break,  // the word ends here
            },
            None => break,
        }
    }
    ident
}

/// Reads the number at the cursor: the longest run of decimal digits, kept
/// as text. The run may be empty; nothing but the run is consumed.
pub fn read_number(characters: &mut Cursor) -> (number: String)
    ensures
        number@ == old(characters).remaining().take(
            digits_len(old(characters).remaining()) as int,
        ),
        final(characters).remaining() == old(characters).remaining().skip(
            digits_len(old(characters).remaining()) as int,
        ),
{
    let mut number = String::new();
    let ghost start = characters.remaining();
    loop
        invariant
            number@.len() + digits_len(characters.remaining()) == digits_len(start),
            number@.len() <= start.len(),
            number@ == start.take(number@.len() as int),
            characters.remaining() == start.skip(number@.len() as int),
        ensures
            digits_len(characters.remaining()) == 0,
        decreases characters.remaining().len(),
    {
        match characters.peek() {
            Some(ch) => match ch {
                '0'..='9' => {
                    number.push(ch);
                    characters.next();
                },
                _ => break,  // the number ends here
            },
            None => break,
        }
    }
    number
}

/// Reads the sign at an `=`: the one character at the cursor, and with it a
/// directly following `=`. The longer match is taken whenever there is one.
pub fn read_assign_or_equal(characters: &mut Cursor) -> (token: Token)
    requires
        old(characters).remaining().len() > 0,
    ensures
        token@ == assign_or_equal(old(characters).remaining()),
        final(characters).remaining() == old(characters).remaining().skip(
            sign_len(old(characters).remaining()) as int,
        ),
{
    let ghost start = characters.remaining();
    let mut literal = String::new();
    if let Some(first) = characters.next() {
        literal.push(first);
    }
    assert(literal@ =~= start.take(1));

    let token: Token;
    if let Some('=') = characters.peek() {
        literal.push('=');
        characters.next();
        assert(literal@ =~= start.take(2));
        token = Token::Equal(literal);
    } else {
        token = Token::Assign(literal);
    }
    token
}

/// Reads the sign at a `!`: the one character at the cursor, and with it a
/// directly following `=`. The longer match is taken whenever there is one.
pub fn read_bang_or_not_equal(characters: &mut Cursor) -> (token: Token)
    requires
        old(characters).remaining().len() > 0,
    ensures
        token@ == bang_or_not_equal(old(characters).remaining()),
        final(characters).remaining() == old(characters).remaining().skip(
            sign_len(old(characters).remaining()) as int,
        ),
{
    let ghost start = characters.remaining();
    let mut literal = String::new();
    if let Some(first) = characters.next() {
        literal.push(first);
    }
    assert(literal@ =~= start.take(1));

    let token: Token;
    if let Some('=') = characters.peek() {
        literal.push('=');
        characters.next();
        assert(literal@ =~= start.take(2));
        token = Token::NotEqual(literal);
    } else {
        token = Token::Bang(literal);
    }
    token
}

/// Looks a whole word up in the keyword table. A keyword gives its own
/// token, any other word an identifier; either carries the word unchanged.
pub fn lookup_identifier(identifier: String) -> (token: Token)
    ensures
        token@ == word(identifier@),
{
    let text = identifier.as_str();
    if same_text(text, "return") {
        Token::Return(identifier)
    } else if same_text(text, "def") {
        Token::Method(identifier)
    } else if same_text(text, "end") {
        Token::End(identifier)
    } else if same_text(text, "if") {
        Token::If(identifier)
    } else if same_text(text, "else") {
        Token::Else(identifier)
    } else if same_text(text, "true") {
        Token::True(identifier)
    } else if same_text(text, "false") {
        Token::False(identifier)
    } else {
        Token::Ident(identifier)
    }
}

/// Two lexers over the same input, in the same mode, hand out the same
/// tokens: where `first` is what draining `a` gives and `second` what
/// draining `b` gives, the two are of one length and equal token by token.
pub proof fn lemma_same_input_same_tokens(
    a: Lexer,
    b: Lexer,
    first: Seq<Token>,
    second: Seq<Token>,
)
    requires
        a.remaining() == b.remaining(),
        a.keeps_whitespace() == b.keeps_whitespace(),
        lexemes(first) == a.pending(),
        lexemes(second) == b.pending(),
    ensures
        a.pending() == b.pending(),
        first.len() == second.len(),
        forall|i: int| 0 <= i < first.len() ==> (#[trigger] first[i])@ == second[i]@,
{
    assert(lexemes(first).len() == first.len() && lexemes(second).len() == second.len());
    assert forall|i: int| 0 <= i < first.len() implies (#[trigger] first[i])@ == second[i]@ by {
        assert(lexemes(first)[i] == first[i]@);
    }
}

} // verus!
