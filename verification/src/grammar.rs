//! The token grammar, stated over sequences of characters.
//!
//! Nothing here runs. The definitions say what the first token of a text is
//! and what the whole token sequence of a text is; the lemmas say what follows
//! from that. The scanner in `lexer` is proved against these definitions.
//!
//! Only ASCII is categorized. A word is made of letters and underscores and
//! starts with a letter; a digit is never part of a word, so `x1` is the
//! identifier `x` followed by the integer `1`.

use crate::token::{Lexeme, TokenKind};
use vstd::prelude::*;

verus! {

/// An ASCII letter, the only character that can start a word.
pub open spec fn is_letter(c: char) -> bool {
    ('a' <= c && c <= 'z') || ('A' <= c && c <= 'Z')
}

/// A character that can continue a word: a letter or an underscore.
pub open spec fn is_word_char(c: char) -> bool {
    is_letter(c) || c == '_'
}

/// An ASCII decimal digit.
pub open spec fn is_digit(c: char) -> bool {
    '0' <= c && c <= '9'
}

/// A blank: a space or a newline.
pub open spec fn is_blank(c: char) -> bool {
    c == ' ' || c == '\n'
}

/// The length of the longest prefix of `s` whose characters all satisfy `class`.
pub open spec fn run_len(s: Seq<char>, class: spec_fn(char) -> bool) -> nat
    decreases s.len(),
{
    if s.len() > 0 && class(s[0]) {
        1 + run_len(s.skip(1), class)
    } else {
        0
    }
}

/// The length of the word at the start of `s`: letters and underscores.
pub open spec fn word_len(s: Seq<char>) -> nat {
    run_len(s, |c: char| is_word_char(c))
}

/// The length of the digit run at the start of `s`.
pub open spec fn digits_len(s: Seq<char>) -> nat {
    run_len(s, |c: char| is_digit(c))
}

/// The number of blanks at the start of `s`.
pub open spec fn blanks_len(s: Seq<char>) -> nat {
    run_len(s, |c: char| is_blank(c))
}

/// The keyword table: the kind of `text` if it is exactly one of the seven
/// keywords, compared case-sensitively.
pub open spec fn keyword(text: Seq<char>) -> Option<TokenKind> {
    if text == "return"@ {
        Some(TokenKind::Return)
    } else if text == "def"@ {
        Some(TokenKind::Method)
    } else if text == "end"@ {
        Some(TokenKind::End)
    } else if text == "if"@ {
        Some(TokenKind::If)
    } else if text == "else"@ {
        Some(TokenKind::Else)
    } else if text == "true"@ {
        Some(TokenKind::True)
    } else if text == "false"@ {
        Some(TokenKind::False)
    } else {
        None
    }
}

/// The kind of a whole word: its keyword, or else an identifier.
pub open spec fn word_kind(text: Seq<char>) -> TokenKind {
    match keyword(text) {
        Some(kind) => kind,
        None => TokenKind::Ident,
    }
}

/// The lexeme of a whole word: its kind from the keyword table, and the word
/// itself as its text.
pub open spec fn word(text: Seq<char>) -> Lexeme {
    Lexeme { kind: word_kind(text), text }
}

/// Whether the first character of `s` is directly followed by `=`.
pub open spec fn followed_by_equals(s: Seq<char>) -> bool {
    s.len() > 1 && s[1] == '='
}

/// The length of a sign that may be extended by `=`: two if it is, else one.
pub open spec fn sign_len(s: Seq<char>) -> nat {
    if followed_by_equals(s) {
        2
    } else {
        1
    }
}

/// The lexeme read at an `=`: `==` where a second `=` follows, else `=`.
pub open spec fn assign_or_equal(s: Seq<char>) -> Lexeme {
    Lexeme {
        kind: if followed_by_equals(s) {
            TokenKind::Equal
        } else {
            TokenKind::Assign
        },
        text: s.take(sign_len(s) as int),
    }
}

/// The lexeme read at a `!`: `!=` where an `=` follows, else `!`.
pub open spec fn bang_or_not_equal(s: Seq<char>) -> Lexeme {
    Lexeme {
        kind: if followed_by_equals(s) {
            TokenKind::NotEqual
        } else {
            TokenKind::Bang
        },
        text: s.take(sign_len(s) as int),
    }
}

/// The kind of a token that is the single character `c`, where `c` is no
/// letter, no digit, and neither `=` nor `!`.
pub open spec fn single_kind(c: char) -> TokenKind {
    if c == '+' {
        TokenKind::Plus
    } else if c == '-' {
        TokenKind::Minus
    } else if c == '*' {
        TokenKind::Asterisk
    } else if c == '/' {
        TokenKind::Slash
    } else if c == '<' {
        TokenKind::LessThan
    } else if c == '>' {
        TokenKind::GreaterThan
    } else if c == '(' {
        TokenKind::LParen
    } else if c == ')' {
        TokenKind::RParen
    } else if c == ',' {
        TokenKind::Comma
    } else if is_blank(c) {
        TokenKind::Whitespace
    } else {
        TokenKind::Illegal
    }
}

/// The first token of a non-empty text.
///
/// A letter starts a word, which runs on over letters and underscores and is
/// then looked up in the keyword table as a whole. A digit starts a run of
/// digits. `=` and `!` take a directly following `=` with them. Every other
/// character is a token by itself.
pub open spec fn first_token(s: Seq<char>) -> Lexeme
    recommends
        s.len() > 0,
{
    let c = s[0];
    if is_letter(c) {
        word(s.take(word_len(s) as int))
    } else if is_digit(c) {
        Lexeme { kind: TokenKind::Integer, text: s.take(digits_len(s) as int) }
    } else if c == '=' {
        assign_or_equal(s)
    } else if c == '!' {
        bang_or_not_equal(s)
    } else {
        Lexeme { kind: single_kind(c), text: s.take(1) }
    }
}

/// The number of characters that the first token of `s` takes up.
pub open spec fn token_len(s: Seq<char>) -> nat
    recommends
        s.len() > 0,
{
    first_token(s).text.len()
}

/// The whole token sequence of `s`, blanks included: the first token, then
/// the tokens of what follows it.
pub open spec fn lex(s: Seq<char>) -> Seq<Lexeme>
    decreases s.len(),
    via lex_decreases
{
    if s.len() == 0 {
        Seq::empty()
    } else {
        seq![first_token(s)] + lex(s.skip(token_len(s) as int))
    }
}

#[via_fn]
proof fn lex_decreases(s: Seq<char>) {
    if s.len() > 0 {
        lemma_token_len_bounds(s);
    }
}

/// Where the scan for the next token starts in `s`: at its first character
/// where blanks are kept, behind its leading blanks where they are not.
pub open spec fn scan_start(s: Seq<char>, keep_whitespace: bool) -> Seq<char> {
    if keep_whitespace {
        s
    } else {
        s.skip(blanks_len(s) as int)
    }
}

/// Whether a lexeme is anything but a blank.
pub open spec fn is_significant(t: Lexeme) -> bool {
    t.kind != TokenKind::Whitespace
}

/// The token sequence of `s` as a consumer sees it: with the blanks where
/// `keep_whitespace` is set, without them where it is not.
pub open spec fn tokens(s: Seq<char>, keep_whitespace: bool) -> Seq<Lexeme> {
    if keep_whitespace {
        lex(s)
    } else {
        lex(s).filter(|t: Lexeme| is_significant(t))
    }
}

/// The texts of `tokens`, written one after another.
pub open spec fn spelling(tokens: Seq<Lexeme>) -> Seq<char>
    decreases tokens.len(),
{
    if tokens.len() == 0 {
        Seq::empty()
    } else {
        tokens[0].text + spelling(tokens.skip(1))
    }
}

/// The number of characters in all of `tokens` together.
pub open spec fn char_count(tokens: Seq<Lexeme>) -> nat
    decreases tokens.len(),
{
    if tokens.len() == 0 {
        0
    } else {
        tokens[0].text.len() + char_count(tokens.skip(1))
    }
}

/// The text that every token of `kind` carries, for the kinds that have one:
/// the signs and the keywords.
pub open spec fn fixed_literal(kind: TokenKind) -> Option<Seq<char>> {
    match kind {
        TokenKind::Assign => Some("="@),
        TokenKind::Equal => Some("=="@),
        TokenKind::NotEqual => Some("!="@),
        TokenKind::Bang => Some("!"@),
        TokenKind::Plus => Some("+"@),
        TokenKind::Minus => Some("-"@),
        TokenKind::Asterisk => Some("*"@),
        TokenKind::Slash => Some("/"@),
        TokenKind::LessThan => Some("<"@),
        TokenKind::GreaterThan => Some(">"@),
        TokenKind::LParen => Some("("@),
        TokenKind::RParen => Some(")"@),
        TokenKind::Comma => Some(","@),
        TokenKind::Method => Some("def"@),
        TokenKind::Return => Some("return"@),
        TokenKind::End => Some("end"@),
        TokenKind::If => Some("if"@),
        TokenKind::Else => Some("else"@),
        TokenKind::True => Some("true"@),
        TokenKind::False => Some("false"@),
        TokenKind::Ident | TokenKind::Integer | TokenKind::Whitespace | TokenKind::Illegal => None,
    }
}

/// Whether `c` is one of the characters that the grammar gives a meaning to.
pub open spec fn is_recognized(c: char) -> bool {
    is_letter(c) || is_digit(c) || is_blank(c) || c == '=' || c == '!' || c == '+' || c == '-'
        || c == '*' || c == '/' || c == '<' || c == '>' || c == '(' || c == ')' || c == ','
}

/// Whether the text of `t` is one that a token of its kind can carry.
///
/// A sign or a keyword carries its fixed literal. An identifier is a word
/// that starts with a letter and is no keyword. An integer is a non-empty run
/// of digits. A blank is one space or newline, and an illegal token is one
/// character that the grammar gives no meaning to.
pub open spec fn is_well_formed(t: Lexeme) -> bool {
    match t.kind {
        TokenKind::Ident => {
            &&& t.text.len() > 0
            &&& is_letter(t.text[0])
            &&& forall|i: int| 0 <= i < t.text.len() ==> is_word_char(#[trigger] t.text[i])
            &&& keyword(t.text) is None
        },
        TokenKind::Integer => {
            &&& t.text.len() > 0
            &&& forall|i: int| 0 <= i < t.text.len() ==> is_digit(#[trigger] t.text[i])
        },
        TokenKind::Whitespace => t.text.len() == 1 && is_blank(t.text[0]),
        TokenKind::Illegal => t.text.len() == 1 && !is_recognized(t.text[0]),
        _ => fixed_literal(t.kind) == Some(t.text),
    }
}

/// A run is greedy: it lies within the text, every character of it is in the
/// class, and it stops only at the end of the text or before a character that
/// is not in the class.
pub proof fn lemma_run_is_longest(s: Seq<char>, class: spec_fn(char) -> bool)
    ensures
        run_len(s, class) <= s.len(),
        forall|i: int| 0 <= i < run_len(s, class) ==> class(#[trigger] s[i]),
        run_len(s, class) < s.len() ==> !class(s[run_len(s, class) as int]),
    decreases s.len(),
{
    if s.len() > 0 && class(s[0]) {
        let tail = s.skip(1);
        lemma_run_is_longest(tail, class);
        assert forall|i: int| 0 <= i < run_len(s, class) implies class(#[trigger] s[i]) by {
            if i > 0 {
                assert(s[i] == tail[i - 1]);
            }
        }
    }
}

/// The word at the start of a text lies within the text.
pub proof fn lemma_word_len_bound(s: Seq<char>)
    ensures
        word_len(s) <= s.len(),
{
    lemma_run_is_longest(s, |c: char| is_word_char(c));
}

/// The digit run at the start of a text lies within the text.
pub proof fn lemma_digits_len_bound(s: Seq<char>)
    ensures
        digits_len(s) <= s.len(),
{
    lemma_run_is_longest(s, |c: char| is_digit(c));
}

/// The blanks at the start of a text lie within the text.
pub proof fn lemma_blanks_len_bound(s: Seq<char>)
    ensures
        blanks_len(s) <= s.len(),
{
    lemma_run_is_longest(s, |c: char| is_blank(c));
}

/// The first token of a non-empty text is not empty, and its text is the
/// start of that text.
pub proof fn lemma_token_len_bounds(s: Seq<char>)
    requires
        s.len() > 0,
    ensures
        1 <= token_len(s) <= s.len(),
        first_token(s).text == s.take(token_len(s) as int),
{
    lemma_word_len_bound(s);
    lemma_digits_len_bound(s);
}

/// The keyword table names seven different words: a word has the kind of a
/// keyword exactly where it is that keyword, letter for letter, and is an
/// identifier exactly where it is none of them.
pub proof fn lemma_keyword_exact(text: Seq<char>)
    ensures
        word_kind(text) == TokenKind::Return <==> text == "return"@,
        word_kind(text) == TokenKind::Method <==> text == "def"@,
        word_kind(text) == TokenKind::End <==> text == "end"@,
        word_kind(text) == TokenKind::If <==> text == "if"@,
        word_kind(text) == TokenKind::Else <==> text == "else"@,
        word_kind(text) == TokenKind::True <==> text == "true"@,
        word_kind(text) == TokenKind::False <==> text == "false"@,
        word_kind(text) == TokenKind::Ident <==> keyword(text) is None,
        keyword(text) matches Some(kind) ==> fixed_literal(kind) == Some(text),
{
    reveal_strlit("return");
    reveal_strlit("def");
    reveal_strlit("end");
    reveal_strlit("if");
    reveal_strlit("else");
    reveal_strlit("true");
    reveal_strlit("false");
    assert("return"@.len() == 6 && "def"@.len() == 3 && "end"@.len() == 3 && "if"@.len() == 2
        && "else"@.len() == 4 && "true"@.len() == 4 && "false"@.len() == 5);
    assert("def"@[0] != "end"@[0]);
    assert("else"@[0] != "true"@[0]);
}

/// Every first token is well formed.
pub proof fn lemma_first_token_well_formed(s: Seq<char>)
    requires
        s.len() > 0,
    ensures
        is_well_formed(first_token(s)),
{
    let t = first_token(s);
    let c = s[0];
    lemma_token_len_bounds(s);
    if is_letter(c) {
        lemma_run_is_longest(s, |c: char| is_word_char(c));
        lemma_keyword_exact(t.text);
    } else if is_digit(c) {
        lemma_run_is_longest(s, |c: char| is_digit(c));
    } else {
        reveal_strlit("=");
        reveal_strlit("==");
        reveal_strlit("!=");
        reveal_strlit("!");
        reveal_strlit("+");
        reveal_strlit("-");
        reveal_strlit("*");
        reveal_strlit("/");
        reveal_strlit("<");
        reveal_strlit(">");
        reveal_strlit("(");
        reveal_strlit(")");
        reveal_strlit(",");
        match fixed_literal(t.kind) {
            Some(literal) => {
                assert(t.text =~= literal);
            },
            None => {},
        }
    }
}

/// Every token of a text is well formed.
pub proof fn lemma_lex_well_formed(s: Seq<char>)
    ensures
        forall|i: int| 0 <= i < lex(s).len() ==> is_well_formed(#[trigger] lex(s)[i]),
    decreases s.len(),
{
    if s.len() > 0 {
        lemma_token_len_bounds(s);
        lemma_first_token_well_formed(s);
        let rest = lex(s.skip(token_len(s) as int));
        lemma_lex_well_formed(s.skip(token_len(s) as int));
        assert forall|i: int| 0 <= i < lex(s).len() implies is_well_formed(
            #[trigger] lex(s)[i],
        ) by {
            if i > 0 {
                assert(lex(s)[i] == rest[i - 1]);
            }
        }
    }
}

/// Where blanks are not kept, the scan never starts at one: the token that
/// starts behind the leading blanks is no `Whitespace`.
pub proof fn lemma_scan_start_is_significant(s: Seq<char>)
    requires
        scan_start(s, false).len() > 0,
    ensures
        is_significant(first_token(scan_start(s, false))),
{
    lemma_run_is_longest(s, |c: char| is_blank(c));
    lemma_keyword_exact(scan_start(s, false).take(word_len(scan_start(s, false)) as int));
}

/// Where blanks are not kept, no token of the sequence is a `Whitespace`.
pub proof fn lemma_tokens_without_whitespace(s: Seq<char>)
    ensures
        forall|i: int|
            0 <= i < tokens(s, false).len() ==> is_significant(#[trigger] tokens(s, false)[i]),
{
    let significant = |t: Lexeme| is_significant(t);
    assert forall|i: int| 0 <= i < tokens(s, false).len() implies is_significant(
        #[trigger] tokens(s, false)[i],
    ) by {
        lex(s).lemma_filter_pred(significant, i);
    }
}

/// What the next token is, and what comes after it.
///
/// Where the text holds nothing from `scan_start` on, there are no tokens.
/// Otherwise the first token is the one that starts there, and the others
/// are the tokens of the text behind it.
pub proof fn lemma_tokens_step(s: Seq<char>, keep_whitespace: bool)
    ensures
        ({
            let start = scan_start(s, keep_whitespace);
            tokens(s, keep_whitespace) == if start.len() == 0 {
                Seq::<Lexeme>::empty()
            } else {
                seq![first_token(start)] + tokens(
                    start.skip(token_len(start) as int),
                    keep_whitespace,
                )
            }
        }),
    decreases s.len(),
{
    if !keep_whitespace {
        reveal_with_fuel(Seq::filter, 2);
        let significant = |t: Lexeme| is_significant(t);
        if s.len() > 0 {
            let first = seq![first_token(s)];
            let rest = s.skip(token_len(s) as int);
            Seq::filter_distributes_over_add(first, lex(rest), significant);
            if is_blank(s[0]) {
                lemma_tokens_step(s.skip(1), false);
                lemma_blanks_len_bound(s.skip(1));
                assert(s.skip(1).skip(blanks_len(s.skip(1)) as int) =~= s.skip(
                    blanks_len(s) as int,
                ));
            } else {
                assert(s.skip(0) =~= s);
            }
        }
    }
}

/// No character is lost: the texts of the tokens of `s`, blanks included and
/// written one after another, are `s` again, and so their lengths add up to
/// the length of `s`.
pub proof fn lemma_lex_round_trip(s: Seq<char>)
    ensures
        spelling(lex(s)) == s,
        char_count(lex(s)) == s.len(),
    decreases s.len(),
{
    if s.len() > 0 {
        lemma_token_len_bounds(s);
        let n = token_len(s) as int;
        lemma_lex_round_trip(s.skip(n));
        assert(lex(s).skip(1) =~= lex(s.skip(n)));
    }
}

} // verus!
