//! The mathematical model of a token stream.

use vstd::prelude::*;

verus! {

/// One token tree, without its span.
pub enum Token {
    /// An identifier or keyword, as it is written.
    Ident(Seq<char>),
    /// One punctuation character and how it joins the next token.
    Punct(char, proc_macro2::Spacing),
    /// A string literal, by the value it denotes.
    Str(Seq<char>),
    /// Any other literal, by its text.
    Literal(Seq<char>),
    /// A delimited sequence of token trees.
    Group(proc_macro2::Delimiter, Seq<Token>),
}

/// The characters that may start an ASCII identifier.
pub open spec fn is_identifier_start(c: char) -> bool {
    c == '_' || ('a' <= c && c <= 'z') || ('A' <= c && c <= 'Z')
}

/// The characters that may follow the first in an ASCII identifier.
pub open spec fn is_identifier_continue(c: char) -> bool {
    is_identifier_start(c) || ('0' <= c && c <= '9')
}

/// An ASCII identifier or keyword: a letter or underscore, then letters,
/// digits and underscores.
pub open spec fn is_identifier(s: Seq<char>) -> bool {
    &&& s.len() > 0
    &&& is_identifier_start(s[0])
    &&& forall|i: int| 0 < i < s.len() ==> is_identifier_continue(#[trigger] s[i])
}

/// The characters that can stand as a punctuation token.
pub open spec fn is_punctuation(c: char) -> bool {
    c == '!' || c == '#' || c == '$' || c == '%' || c == '&' || c == '\'' || c == '*' || c == '+'
        || c == ',' || c == '-' || c == '.' || c == '/' || c == ':' || c == ';' || c == '<'
        || c == '=' || c == '>' || c == '?' || c == '@' || c == '^' || c == '|' || c == '~'
}

/// The character of one decimal digit.
pub open spec fn digit(d: nat) -> char
    recommends
        d < 10,
{
    if d == 0 {
        '0'
    } else if d == 1 {
        '1'
    } else if d == 2 {
        '2'
    } else if d == 3 {
        '3'
    } else if d == 4 {
        '4'
    } else if d == 5 {
        '5'
    } else if d == 6 {
        '6'
    } else if d == 7 {
        '7'
    } else if d == 8 {
        '8'
    } else {
        '9'
    }
}

/// A number written in decimal, without sign or leading zeros.
pub open spec fn decimal(n: nat) -> Seq<char>
    decreases n,
{
    if n < 10 {
        seq![digit(n)]
    } else {
        decimal(n / 10).push(digit(n % 10))
    }
}

} // verus!
