//! The shapes that the synthesized program is made of, as token sequences,
//! and the verified procedures that append them to a stream.

use crate::stream::{new_stream, push_group, push_ident, push_punct, stream_tokens};
use crate::token::{is_identifier, Token};
use proc_macro2::{Delimiter, Spacing, TokenStream};
use vstd::prelude::*;

verus! {

/// An identifier or keyword.
pub open spec fn ident(name: Seq<char>) -> Token {
    Token::Ident(name)
}

/// A punctuation character that ends an operator.
pub open spec fn alone(ch: char) -> Token {
    Token::Punct(ch, Spacing::Alone)
}

/// A punctuation character that the next one continues.
pub open spec fn joint(ch: char) -> Token {
    Token::Punct(ch, Spacing::Joint)
}

/// `( .. )`
pub open spec fn parenthesized(inner: Seq<Token>) -> Token {
    Token::Group(Delimiter::Parenthesis, inner)
}

/// `{ .. }`
pub open spec fn braced(inner: Seq<Token>) -> Token {
    Token::Group(Delimiter::Brace, inner)
}

/// `[ .. ]`
pub open spec fn bracketed(inner: Seq<Token>) -> Token {
    Token::Group(Delimiter::Bracket, inner)
}

/// `()`
pub open spec fn unit() -> Token {
    parenthesized(Seq::empty())
}

/// `::name`
pub open spec fn segment(name: Seq<char>) -> Seq<Token> {
    seq![joint(':'), alone(':'), ident(name)]
}

/// Appends `::name`.
pub(crate) fn emit_segment(stream: &mut TokenStream, name: &str)
    requires
        is_identifier(name@),
    ensures
        stream_tokens(*final(stream)) == stream_tokens(*old(stream)) + segment(name@),
{
    push_punct(stream, ':', Spacing::Joint);
    push_punct(stream, ':', Spacing::Alone);
    push_ident(stream, name);
}

/// Appends `()`.
pub(crate) fn emit_unit(stream: &mut TokenStream)
    ensures
        stream_tokens(*final(stream)) == stream_tokens(*old(stream)).push(unit()),
{
    push_group(stream, Delimiter::Parenthesis, new_stream());
}

/// `.name(arguments)`
pub open spec fn method_call(name: Seq<char>, arguments: Seq<Token>) -> Seq<Token> {
    seq![alone('.'), ident(name), parenthesized(arguments)]
}

/// Appends `.name(arguments)`.
pub(crate) fn emit_method_call(stream: &mut TokenStream, name: &str, arguments: TokenStream)
    requires
        is_identifier(name@),
    ensures
        stream_tokens(*final(stream)) == stream_tokens(*old(stream)) + method_call(
            name@,
            stream_tokens(arguments),
        ),
{
    push_punct(stream, '.', Spacing::Alone);
    push_ident(stream, name);
    push_group(stream, Delimiter::Parenthesis, arguments);
}

/// `::fluvio_connector_common`, the root of every path into the connector
/// runtime.
pub open spec fn runtime_root() -> Seq<Token> {
    segment("fluvio_connector_common"@)
}

/// Appends `::fluvio_connector_common`.
pub(crate) fn emit_runtime_root(stream: &mut TokenStream)
    ensures
        stream_tokens(*final(stream)) == stream_tokens(*old(stream)) + runtime_root(),
{
    proof {
        reveal_strlit("fluvio_connector_common");
    }
    emit_segment(stream, "fluvio_connector_common");
}

/// `::fluvio_connector_common::module::item`
pub open spec fn runtime_item(module: Seq<char>, item: Seq<char>) -> Seq<Token> {
    runtime_root() + segment(module) + segment(item)
}

/// Appends `::fluvio_connector_common::module::item`.
pub(crate) fn emit_runtime_item(stream: &mut TokenStream, module: &str, item: &str)
    requires
        is_identifier(module@),
        is_identifier(item@),
    ensures
        stream_tokens(*final(stream)) == stream_tokens(*old(stream)) + runtime_item(
            module@,
            item@,
        ),
{
    emit_runtime_root(stream);
    emit_segment(stream, module);
    emit_segment(stream, item);
}

/// `::fluvio_connector_common::tracing::level!(arguments);`
pub open spec fn log_line(level: Seq<char>, arguments: Seq<Token>) -> Seq<Token> {
    runtime_item("tracing"@, level) + seq![alone('!'), parenthesized(arguments), alone(';')]
}

/// Appends `::fluvio_connector_common::tracing::level!(arguments);`.
pub(crate) fn emit_log_line(stream: &mut TokenStream, level: &str, arguments: TokenStream)
    requires
        is_identifier(level@),
    ensures
        stream_tokens(*final(stream)) == stream_tokens(*old(stream)) + log_line(
            level@,
            stream_tokens(arguments),
        ),
{
    proof {
        reveal_strlit("tracing");
    }
    emit_runtime_item(stream, "tracing", level);
    push_punct(stream, '!', Spacing::Alone);
    push_group(stream, Delimiter::Parenthesis, arguments);
    push_punct(stream, ';', Spacing::Alone);
}

} // verus!
