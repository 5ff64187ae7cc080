//! The synthesis of a connector program: the `main` procedure that brings
//! the runtime up around the author's function, followed by that function.

use crate::ast::{ConnectorDirection, ConnectorFn};
use crate::emit::{
    alone, braced, emit_method_call, emit_runtime_item, emit_runtime_root, emit_segment,
    emit_unit, ident, joint, method_call, parenthesized, runtime_item, runtime_root, segment,
    unit,
};
use crate::prologue::{init_and_parse_config, prologue};
use crate::stream::{append_stream, new_stream, push_group, push_ident, push_punct, stream_tokens};
use crate::token::{is_identifier, Token};
use proc_macro2::{Delimiter, Spacing, TokenStream};
use vstd::prelude::*;

verus! {

proof fn lemma_vocabulary()
    ensures
        is_identifier("fn"@),
        is_identifier("main"@),
        is_identifier("Result"@),
        is_identifier("let"@),
        is_identifier("fluvio"@),
        is_identifier("config"@),
        is_identifier("await"@),
        is_identifier("metrics"@),
        is_identifier("std"@),
        is_identifier("sync"@),
        is_identifier("Arc"@),
        is_identifier("new"@),
        is_identifier("monitoring"@),
        is_identifier("ConnectorMetrics"@),
        is_identifier("init_monitoring"@),
        is_identifier("future"@),
        is_identifier("run_block_on"@),
        is_identifier("async"@),
        is_identifier("Ok"@),
        is_identifier("producer"@),
        is_identifier("stream"@),
        is_identifier("consumer"@),
        is_identifier("producer_from_config"@),
        is_identifier("consumer_stream_from_config"@),
{
    reveal_strlit("fn");
    reveal_strlit("main");
    reveal_strlit("Result");
    reveal_strlit("let");
    reveal_strlit("fluvio");
    reveal_strlit("config");
    reveal_strlit("await");
    reveal_strlit("metrics");
    reveal_strlit("std");
    reveal_strlit("sync");
    reveal_strlit("Arc");
    reveal_strlit("new");
    reveal_strlit("monitoring");
    reveal_strlit("ConnectorMetrics");
    reveal_strlit("init_monitoring");
    reveal_strlit("future");
    reveal_strlit("run_block_on");
    reveal_strlit("async");
    reveal_strlit("Ok");
    reveal_strlit("producer");
    reveal_strlit("stream");
    reveal_strlit("consumer");
    reveal_strlit("producer_from_config");
    reveal_strlit("consumer_stream_from_config");
}

/// The variable that holds what the author's function works on: the
/// producer of a source, the record stream of a sink.
pub open spec fn handle(direction: ConnectorDirection) -> Seq<char> {
    match direction {
        ConnectorDirection::Source => "producer"@,
        ConnectorDirection::Sink => "stream"@,
    }
}

/// The module of the runtime that constructs the client of this direction.
pub open spec fn constructor_module(direction: ConnectorDirection) -> Seq<char> {
    match direction {
        ConnectorDirection::Source => "producer"@,
        ConnectorDirection::Sink => "consumer"@,
    }
}

/// The function of the runtime that constructs the client of this direction.
pub open spec fn constructor(direction: ConnectorDirection) -> Seq<char> {
    match direction {
        ConnectorDirection::Source => "producer_from_config"@,
        ConnectorDirection::Sink => "consumer_stream_from_config"@,
    }
}

fn handle_name(direction: ConnectorDirection) -> (name: &'static str)
    ensures
        name@ == handle(direction),
        is_identifier(name@),
{
    proof {
        lemma_vocabulary();
    }
    match direction {
        ConnectorDirection::Source => "producer",
        ConnectorDirection::Sink => "stream",
    }
}

fn constructor_module_name(direction: ConnectorDirection) -> (name: &'static str)
    ensures
        name@ == constructor_module(direction),
        is_identifier(name@),
{
    proof {
        lemma_vocabulary();
    }
    match direction {
        ConnectorDirection::Source => "producer",
        ConnectorDirection::Sink => "consumer",
    }
}

fn constructor_name(direction: ConnectorDirection) -> (name: &'static str)
    ensures
        name@ == constructor(direction),
        is_identifier(name@),
{
    proof {
        lemma_vocabulary();
    }
    match direction {
        ConnectorDirection::Source => "producer_from_config",
        ConnectorDirection::Sink => "consumer_stream_from_config",
    }
}

/// `(fluvio, handle)`, the pair that construction yields.
pub open spec fn client_pair(direction: ConnectorDirection) -> Seq<Token> {
    seq![ident("fluvio"@), alone(','), ident(handle(direction))]
}

fn build_client_pair(direction: ConnectorDirection) -> (pair: TokenStream)
    ensures
        stream_tokens(pair) == client_pair(direction),
{
    proof {
        lemma_vocabulary();
    }
    let mut pair = new_stream();
    push_ident(&mut pair, "fluvio");
    push_punct(&mut pair, ',', Spacing::Alone);
    push_ident(&mut pair, handle_name(direction));
    pair
}

/// The construction of the client and the handle from the configuration,
/// whose failure ends the program before the author's function runs:
/// `let (fluvio, handle) = ::fluvio_connector_common::module::constructor(&config).await?;`
pub open spec fn client_construction(direction: ConnectorDirection) -> Seq<Token> {
    seq![ident("let"@), parenthesized(client_pair(direction)), alone('=')] + runtime_item(
        constructor_module(direction),
        constructor(direction),
    ) + seq![
        parenthesized(seq![alone('&'), ident("config"@)]),
        alone('.'),
        ident("await"@),
        alone('?'),
        alone(';'),
    ]
}

fn emit_client_construction(stream: &mut TokenStream, direction: ConnectorDirection)
    ensures
        stream_tokens(*final(stream)) == stream_tokens(*old(stream)) + client_construction(
            direction,
        ),
{
    proof {
        lemma_vocabulary();
    }
    let mut borrowed = new_stream();
    push_punct(&mut borrowed, '&', Spacing::Alone);
    push_ident(&mut borrowed, "config");
    assert(stream_tokens(borrowed) == seq![alone('&'), ident("config"@)]);
    push_ident(stream, "let");
    push_group(stream, Delimiter::Parenthesis, build_client_pair(direction));
    push_punct(stream, '=', Spacing::Alone);
    emit_runtime_item(stream, constructor_module_name(direction), constructor_name(direction));
    push_group(stream, Delimiter::Parenthesis, borrowed);
    push_punct(stream, '.', Spacing::Alone);
    push_ident(stream, "await");
    push_punct(stream, '?', Spacing::Alone);
    push_punct(stream, ';', Spacing::Alone);
}

/// `::fluvio_connector_common::monitoring::ConnectorMetrics::new(fluvio.metrics())`:
/// the metrics handle, made from the metrics of the client.
pub open spec fn metrics_construction() -> Seq<Token> {
    runtime_item("monitoring"@, "ConnectorMetrics"@) + segment("new"@) + seq![
        parenthesized(seq![ident("fluvio"@)] + method_call("metrics"@, Seq::empty())),
    ]
}

fn build_metrics_construction() -> (construction: TokenStream)
    ensures
        stream_tokens(construction) == metrics_construction(),
{
    proof {
        lemma_vocabulary();
    }
    let mut client_metrics = new_stream();
    push_ident(&mut client_metrics, "fluvio");
    emit_method_call(&mut client_metrics, "metrics", new_stream());
    assert(stream_tokens(client_metrics) == seq![ident("fluvio"@)] + method_call(
        "metrics"@,
        Seq::empty(),
    ));
    let mut construction = new_stream();
    emit_runtime_item(&mut construction, "monitoring", "ConnectorMetrics");
    emit_segment(&mut construction, "new");
    push_group(&mut construction, Delimiter::Parenthesis, client_metrics);
    construction
}

/// The shared metrics handle:
/// `let metrics = ::std::sync::Arc::new(..);`
pub open spec fn metrics_handle() -> Seq<Token> {
    seq![ident("let"@), ident("metrics"@), alone('=')] + segment("std"@) + segment("sync"@)
        + segment("Arc"@) + segment("new"@) + seq![
        parenthesized(metrics_construction()),
        alone(';'),
    ]
}

fn emit_metrics_handle(stream: &mut TokenStream)
    ensures
        stream_tokens(*final(stream)) == stream_tokens(*old(stream)) + metrics_handle(),
{
    proof {
        lemma_vocabulary();
    }
    push_ident(stream, "let");
    push_ident(stream, "metrics");
    push_punct(stream, '=', Spacing::Alone);
    emit_segment(stream, "std");
    emit_segment(stream, "sync");
    emit_segment(stream, "Arc");
    emit_segment(stream, "new");
    push_group(stream, Delimiter::Parenthesis, build_metrics_construction());
    push_punct(stream, ';', Spacing::Alone);
}

/// The registration of the handle with the monitoring of the process:
/// `::fluvio_connector_common::monitoring::init_monitoring(metrics);`
pub open spec fn metrics_registration() -> Seq<Token> {
    runtime_item("monitoring"@, "init_monitoring"@) + seq![
        parenthesized(seq![ident("metrics"@)]),
        alone(';'),
    ]
}

fn emit_metrics_registration(stream: &mut TokenStream)
    ensures
        stream_tokens(*final(stream)) == stream_tokens(*old(stream)) + metrics_registration(),
{
    proof {
        lemma_vocabulary();
    }
    let mut handle = new_stream();
    push_ident(&mut handle, "metrics");
    assert(stream_tokens(handle) == seq![ident("metrics"@)]);
    emit_runtime_item(stream, "monitoring", "init_monitoring");
    push_group(stream, Delimiter::Parenthesis, handle);
    push_punct(stream, ';', Spacing::Alone);
}

/// `(config, handle)`, what the author's function is called with.
pub open spec fn entry_arguments(direction: ConnectorDirection) -> Seq<Token> {
    seq![ident("config"@), alone(','), ident(handle(direction))]
}

fn build_entry_arguments(direction: ConnectorDirection) -> (arguments: TokenStream)
    ensures
        stream_tokens(arguments) == entry_arguments(direction),
{
    proof {
        lemma_vocabulary();
    }
    let mut arguments = new_stream();
    push_ident(&mut arguments, "config");
    push_punct(&mut arguments, ',', Spacing::Alone);
    push_ident(&mut arguments, handle_name(direction));
    arguments
}

/// The call of the author's function, whose result is the result of the
/// asynchronous block: `name(config, handle).await`
pub open spec fn entry_call(direction: ConnectorDirection, name: Seq<Token>) -> Seq<Token> {
    name + seq![parenthesized(entry_arguments(direction)), alone('.'), ident("await"@)]
}

fn emit_entry_call(stream: &mut TokenStream, direction: ConnectorDirection, name: &TokenStream)
    ensures
        stream_tokens(*final(stream)) == stream_tokens(*old(stream)) + entry_call(
            direction,
            stream_tokens(*name),
        ),
{
    proof {
        lemma_vocabulary();
    }
    append_stream(stream, name);
    push_group(stream, Delimiter::Parenthesis, build_entry_arguments(direction));
    push_punct(stream, '.', Spacing::Alone);
    push_ident(stream, "await");
}

/// What runs inside the asynchronous context, in order: the client is
/// constructed, the metrics handle is made and registered, and the author's
/// function is called.
pub open spec fn runtime_block(direction: ConnectorDirection, name: Seq<Token>) -> Seq<Token> {
    client_construction(direction) + metrics_handle() + metrics_registration() + entry_call(
        direction,
        name,
    )
}

fn build_runtime_block(direction: ConnectorDirection, name: &TokenStream) -> (block: TokenStream)
    ensures
        stream_tokens(block) == runtime_block(direction, stream_tokens(*name)),
{
    let mut block = new_stream();
    emit_client_construction(&mut block, direction);
    emit_metrics_handle(&mut block);
    emit_metrics_registration(&mut block);
    emit_entry_call(&mut block, direction, name);
    block
}

/// `async { .. }`
pub open spec fn runtime_task(direction: ConnectorDirection, name: Seq<Token>) -> Seq<Token> {
    seq![ident("async"@), braced(runtime_block(direction, name))]
}

fn build_runtime_task(direction: ConnectorDirection, name: &TokenStream) -> (task: TokenStream)
    ensures
        stream_tokens(task) == runtime_task(direction, stream_tokens(*name)),
{
    proof {
        lemma_vocabulary();
    }
    let mut task = new_stream();
    push_ident(&mut task, "async");
    push_group(&mut task, Delimiter::Brace, build_runtime_block(direction, name));
    task
}

/// The blocking entry into the asynchronous context, whose error ends
/// `main` with that error:
/// `::fluvio_connector_common::future::run_block_on(async { .. })?;`
pub open spec fn runtime_entry(direction: ConnectorDirection, name: Seq<Token>) -> Seq<Token> {
    runtime_item("future"@, "run_block_on"@) + seq![
        parenthesized(runtime_task(direction, name)),
        alone('?'),
        alone(';'),
    ]
}

fn emit_runtime_entry(stream: &mut TokenStream, direction: ConnectorDirection, name: &TokenStream)
    ensures
        stream_tokens(*final(stream)) == stream_tokens(*old(stream)) + runtime_entry(
            direction,
            stream_tokens(*name),
        ),
{
    proof {
        lemma_vocabulary();
    }
    emit_runtime_item(stream, "future", "run_block_on");
    push_group(stream, Delimiter::Parenthesis, build_runtime_task(direction, name));
    push_punct(stream, '?', Spacing::Alone);
    push_punct(stream, ';', Spacing::Alone);
}

/// `Ok(())`, the value of `main` when nothing failed.
pub open spec fn success() -> Seq<Token> {
    seq![ident("Ok"@), parenthesized(seq![unit()])]
}

fn emit_success(stream: &mut TokenStream)
    ensures
        stream_tokens(*final(stream)) == stream_tokens(*old(stream)) + success(),
{
    proof {
        lemma_vocabulary();
    }
    let mut nothing = new_stream();
    emit_unit(&mut nothing);
    assert(stream_tokens(nothing) == seq![unit()]);
    push_ident(stream, "Ok");
    push_group(stream, Delimiter::Parenthesis, nothing);
}

/// The body of `main`: the prologue, the entry into the runtime, success.
pub open spec fn main_body(direction: ConnectorDirection, name: Seq<Token>) -> Seq<Token> {
    prologue() + runtime_entry(direction, name) + success()
}

fn build_main_body(direction: ConnectorDirection, name: &TokenStream) -> (body: TokenStream)
    ensures
        stream_tokens(body) == main_body(direction, stream_tokens(*name)),
{
    let mut body = init_and_parse_config();
    emit_runtime_entry(&mut body, direction, name);
    emit_success(&mut body);
    body
}

/// `fn main() -> ::fluvio_connector_common::Result<()>`
pub open spec fn main_signature() -> Seq<Token> {
    seq![ident("fn"@), ident("main"@), unit(), joint('-'), alone('>')] + runtime_root() + segment(
        "Result"@,
    ) + seq![alone('<'), unit(), alone('>')]
}

fn emit_main_signature(stream: &mut TokenStream)
    ensures
        stream_tokens(*final(stream)) == stream_tokens(*old(stream)) + main_signature(),
{
    proof {
        lemma_vocabulary();
    }
    push_ident(stream, "fn");
    push_ident(stream, "main");
    emit_unit(stream);
    push_punct(stream, '-', Spacing::Joint);
    push_punct(stream, '>', Spacing::Alone);
    emit_runtime_root(stream);
    emit_segment(stream, "Result");
    push_punct(stream, '<', Spacing::Alone);
    emit_unit(stream);
    push_punct(stream, '>', Spacing::Alone);
}

/// The synthesized procedure: the signature of `main` and its body.
pub open spec fn entry_point(direction: ConnectorDirection, name: Seq<Token>) -> Seq<Token> {
    main_signature().push(braced(main_body(direction, name)))
}

/// The whole program: the synthesized `main`, then the author's function
/// as it was given.
pub open spec fn program(direction: ConnectorDirection, name: Seq<Token>, code: Seq<Token>) -> Seq<
    Token,
> {
    entry_point(direction, name) + code
}

fn assemble(direction: ConnectorDirection, func: &ConnectorFn) -> (tokens: TokenStream)
    ensures
        stream_tokens(tokens) == program(
            direction,
            stream_tokens(func.name),
            stream_tokens(func.func),
        ),
{
    let mut tokens = new_stream();
    emit_main_signature(&mut tokens);
    push_group(&mut tokens, Delimiter::Brace, build_main_body(direction, &func.name));
    append_stream(&mut tokens, &func.func);
    tokens
}

/// Synthesizes the program of a source: the author's function is called with
/// the configuration and a producer.
pub fn generate_source(func: &ConnectorFn) -> (tokens: TokenStream)
    ensures
        stream_tokens(tokens) == program(
            ConnectorDirection::Source,
            stream_tokens(func.name),
            stream_tokens(func.func),
        ),
{
    assemble(ConnectorDirection::Source, func)
}

/// Synthesizes the program of a sink: the author's function is called with
/// the configuration and a stream of records.
pub fn generate_sink(func: &ConnectorFn) -> (tokens: TokenStream)
    ensures
        stream_tokens(tokens) == program(
            ConnectorDirection::Sink,
            stream_tokens(func.name),
            stream_tokens(func.func),
        ),
{
    assemble(ConnectorDirection::Sink, func)
}

/// Synthesizes the program of a connector of the given direction. Every
/// direction and every function yields a program; nothing is rejected.
pub fn generate_connector(direction: ConnectorDirection, func: &ConnectorFn) -> (tokens:
    TokenStream)
    ensures
        stream_tokens(tokens) == program(
            direction,
            stream_tokens(func.name),
            stream_tokens(func.func),
        ),
{
    match direction {
        ConnectorDirection::Source => generate_source(func),
        ConnectorDirection::Sink => generate_sink(func),
    }
}

/// The places in the asynchronous block of a program, `len` tokens long,
/// at which the direction shows: the pair that construction yields, the
/// module and the function that construct, and the arguments of the
/// author's function.
pub open spec fn direction_places(len: int) -> Set<int> {
    set![1, 8, 11, len - 3]
}

/// The two directions yield programs of one shape. Both have the signature
/// of `main` and the author's function in common, and differ only inside
/// the body of `main`; the bodies differ only in the block that runs
/// asynchronously; and the blocks hold the same tokens in the same order but
/// at four places, where the producer or the record stream is constructed
/// and handed to the author's function.
pub proof fn lemma_directions_share_shape(name: Seq<Token>, code: Seq<Token>)
    ensures
        program(ConnectorDirection::Source, name, code).len() == program(
            ConnectorDirection::Sink,
            name,
            code,
        ).len(),
        forall|i: int|
            0 <= i < program(ConnectorDirection::Source, name, code).len() && i
                != main_signature().len() ==> program(ConnectorDirection::Source, name, code)[i]
                == program(ConnectorDirection::Sink, name, code)[i],
        main_body(ConnectorDirection::Source, name).len() == main_body(
            ConnectorDirection::Sink,
            name,
        ).len(),
        forall|i: int|
            0 <= i < main_body(ConnectorDirection::Source, name).len() && i != prologue().len()
                + 9 ==> main_body(ConnectorDirection::Source, name)[i] == main_body(
                ConnectorDirection::Sink,
                name,
            )[i],
        runtime_block(ConnectorDirection::Source, name).len() == runtime_block(
            ConnectorDirection::Sink,
            name,
        ).len(),
        forall|i: int|
            0 <= i < runtime_block(ConnectorDirection::Source, name).len() && !direction_places(
                runtime_block(ConnectorDirection::Source, name).len() as int,
            ).contains(i) ==> runtime_block(ConnectorDirection::Source, name)[i] == runtime_block(
                ConnectorDirection::Sink,
                name,
            )[i],
{
}

/// What stands at the four places: for each direction its own pair, module,
/// constructor and arguments, and the two directions differ in nothing
/// else.
pub proof fn lemma_direction_places(direction: ConnectorDirection, name: Seq<Token>)
    ensures
        runtime_block(direction, name).len() == 48 + name.len(),
        runtime_block(direction, name)[1] == parenthesized(client_pair(direction)),
        runtime_block(direction, name)[8] == ident(constructor_module(direction)),
        runtime_block(direction, name)[11] == ident(constructor(direction)),
        runtime_block(direction, name)[runtime_block(direction, name).len() - 3] == parenthesized(
            entry_arguments(direction),
        ),
{
}

/// Synthesis is a function of its input: two programs made for the same
/// direction from functions with the same tokens hold the same tokens.
pub proof fn lemma_synthesis_is_deterministic(
    direction: ConnectorDirection,
    first: ConnectorFn,
    second: ConnectorFn,
    first_program: TokenStream,
    second_program: TokenStream,
)
    requires
        stream_tokens(first.name) == stream_tokens(second.name),
        stream_tokens(first.func) == stream_tokens(second.func),
        stream_tokens(first_program) == program(
            direction,
            stream_tokens(first.name),
            stream_tokens(first.func),
        ),
        stream_tokens(second_program) == program(
            direction,
            stream_tokens(second.name),
            stream_tokens(second.func),
        ),
    ensures
        stream_tokens(first_program) == stream_tokens(second_program),
{
}

/// The author's function is carried through as it was given: the program
/// ends with its tokens, and before them stands the synthesized procedure.
pub proof fn lemma_function_is_kept(
    direction: ConnectorDirection,
    name: Seq<Token>,
    code: Seq<Token>,
)
    ensures
        program(direction, name, code).len() == entry_point(direction, name).len() + code.len(),
        program(direction, name, code).subrange(
            entry_point(direction, name).len() as int,
            program(direction, name, code).len() as int,
        ) == code,
        program(direction, name, code).subrange(0, entry_point(direction, name).len() as int)
            == entry_point(direction, name),
{
}

} // verus!
