//! The bridge to `proc_macro2`: the token stream as a sequence of modelled
//! tokens, and the operations that append to it.

use crate::token::{decimal, is_identifier, is_punctuation, Token};
use proc_macro2::{Delimiter, Group, Ident, Literal, Punct, Spacing, Span, TokenStream};
use quote::{ToTokens, TokenStreamExt};
use vstd::prelude::*;

verus! {

/// `proc_macro2::TokenStream`, opaque: what it holds is known through
/// [`stream_tokens`] alone.
#[verifier::external_type_specification]
#[verifier::external_body]
pub struct ExTokenStream(proc_macro2::TokenStream);

/// `proc_macro2::Delimiter`, with its variants: an enum without fields.
#[verifier::external_type_specification]
pub struct ExDelimiter(proc_macro2::Delimiter);

/// `proc_macro2::Spacing`, with its variants: an enum without fields.
#[verifier::external_type_specification]
pub struct ExSpacing(proc_macro2::Spacing);

/// The token trees that a stream holds, in order, spans left out. A
/// negative number counts as it is held: as `-` and the literal after it.
pub uninterp spec fn stream_tokens(stream: TokenStream) -> Seq<Token>;

/// `TokenStream::new`: a stream that holds no token.
#[verifier::external_body]
pub(crate) fn new_stream() -> (stream: TokenStream)
    ensures
        stream_tokens(stream) == Seq::<Token>::empty(),
{
    TokenStream::new()
}

/// `Ident::new` with the call-site span, appended with `TokenStreamExt::append`:
/// the stream gains one identifier token with the given text.
/// `Ident::new` panics unless the text is an identifier.
#[verifier::external_body]
pub(crate) fn push_ident(stream: &mut TokenStream, name: &str)
    requires
        is_identifier(name@),
    ensures
        stream_tokens(*final(stream)) == stream_tokens(*old(stream)).push(Token::Ident(name@)),
{
    stream.append(Ident::new(name, Span::call_site()));
}

/// `Punct::new`, appended with `TokenStreamExt::append`: the stream gains one
/// punctuation token. `Punct::new` panics on any other character.
#[verifier::external_body]
pub(crate) fn push_punct(stream: &mut TokenStream, ch: char, spacing: Spacing)
    requires
        is_punctuation(ch),
    ensures
        stream_tokens(*final(stream)) == stream_tokens(*old(stream)).push(Token::Punct(ch, spacing)),
{
    stream.append(Punct::new(ch, spacing));
}

/// `Literal::string`, appended with `TokenStreamExt::append`: the stream gains
/// one string literal that denotes the given value.
#[verifier::external_body]
pub(crate) fn push_string(stream: &mut TokenStream, value: &str)
    ensures
        stream_tokens(*final(stream)) == stream_tokens(*old(stream)).push(Token::Str(value@)),
{
    stream.append(Literal::string(value));
}

/// `Literal::u8_unsuffixed`, appended with `TokenStreamExt::append`: the stream
/// gains one literal whose text is the number in decimal, without a suffix.
#[verifier::external_body]
pub(crate) fn push_unsuffixed(stream: &mut TokenStream, n: u8)
    ensures
        stream_tokens(*final(stream)) == stream_tokens(*old(stream)).push(
            Token::Literal(decimal(n as nat)),
        ),
{
    stream.append(Literal::u8_unsuffixed(n));
}

/// `Group::new`, appended with `TokenStreamExt::append`: the stream gains one
/// group that holds the tokens of `inner` between the given delimiters.
#[verifier::external_body]
pub(crate) fn push_group(stream: &mut TokenStream, delimiter: Delimiter, inner: TokenStream)
    ensures
        stream_tokens(*final(stream)) == stream_tokens(*old(stream)).push(
            Token::Group(delimiter, stream_tokens(inner)),
        ),
{
    stream.append(Group::new(delimiter, inner));
}

/// `ToTokens::to_tokens` of a `TokenStream`: the stream gains the tokens of
/// `other`, in their order, after its own.
#[verifier::external_body]
pub(crate) fn append_stream(stream: &mut TokenStream, other: &TokenStream)
    ensures
        stream_tokens(*final(stream)) == stream_tokens(*old(stream)) + stream_tokens(*other),
{
    other.to_tokens(stream);
}

} // verus!
