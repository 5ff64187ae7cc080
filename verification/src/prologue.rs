//! The opening of every connector program, whatever its direction: the option
//! holder and its parser, the start of logging, and the loading of the
//! configuration.

use crate::emit::{
    alone, braced, bracketed, emit_log_line, emit_method_call, emit_runtime_item, emit_segment,
    emit_unit, ident, joint, log_line, method_call, parenthesized, runtime_item, segment, unit,
};
use crate::options::{CONFIG_FLAG, MISSING_CONFIG, MISSING_CONFIG_EXIT_CODE};
use crate::stream::{
    new_stream, push_group, push_ident, push_punct, push_string, push_unsuffixed, stream_tokens,
};
use crate::token::{decimal, is_identifier, Token};
use proc_macro2::{Delimiter, Spacing, TokenStream};
use vstd::prelude::*;

verus! {

/// The line that reports the resolved configuration path, at info level.
pub const PATH_REPORT: &'static str = "Reading config file from: {}";

/// The line that reports the loaded configuration in full, at debug level.
pub const CONFIG_REPORT: &'static str = "{:#?}";

/// The line that reports that processing begins, at info level.
pub const START_REPORT: &'static str = "starting processing";

proof fn lemma_vocabulary()
    ensures
        is_identifier("derive"@),
        is_identifier("Debug"@),
        is_identifier("pub"@),
        is_identifier("struct"@),
        is_identifier("ConnectorOpt"@),
        is_identifier("config"@),
        is_identifier("std"@),
        is_identifier("path"@),
        is_identifier("PathBuf"@),
        is_identifier("impl"@),
        is_identifier("fn"@),
        is_identifier("parse"@),
        is_identifier("Self"@),
        is_identifier("let"@),
        is_identifier("env"@),
        is_identifier("args_os"@),
        is_identifier("enumerate"@),
        is_identifier("find"@),
        is_identifier("_"@),
        is_identifier("a"@),
        is_identifier("eq"@),
        is_identifier("and_then"@),
        is_identifier("i"@),
        is_identifier("nth"@),
        is_identifier("map"@),
        is_identifier("from"@),
        is_identifier("match"@),
        is_identifier("Some"@),
        is_identifier("None"@),
        is_identifier("eprintln"@),
        is_identifier("process"@),
        is_identifier("exit"@),
        is_identifier("future"@),
        is_identifier("init_logger"@),
        is_identifier("opts"@),
        is_identifier("info"@),
        is_identifier("debug"@),
        is_identifier("to_string_lossy"@),
        is_identifier("ConnectorConfig"@),
        is_identifier("from_file"@),
        is_identifier("as_path"@),
{
    reveal_strlit("derive");
    reveal_strlit("Debug");
    reveal_strlit("pub");
    reveal_strlit("struct");
    reveal_strlit("ConnectorOpt");
    reveal_strlit("config");
    reveal_strlit("std");
    reveal_strlit("path");
    reveal_strlit("PathBuf");
    reveal_strlit("impl");
    reveal_strlit("fn");
    reveal_strlit("parse");
    reveal_strlit("Self");
    reveal_strlit("let");
    reveal_strlit("env");
    reveal_strlit("args_os");
    reveal_strlit("enumerate");
    reveal_strlit("find");
    reveal_strlit("_");
    reveal_strlit("a");
    reveal_strlit("eq");
    reveal_strlit("and_then");
    reveal_strlit("i");
    reveal_strlit("nth");
    reveal_strlit("map");
    reveal_strlit("from");
    reveal_strlit("match");
    reveal_strlit("Some");
    reveal_strlit("None");
    reveal_strlit("eprintln");
    reveal_strlit("process");
    reveal_strlit("exit");
    reveal_strlit("future");
    reveal_strlit("init_logger");
    reveal_strlit("opts");
    reveal_strlit("info");
    reveal_strlit("debug");
    reveal_strlit("to_string_lossy");
    reveal_strlit("ConnectorConfig");
    reveal_strlit("from_file");
    reveal_strlit("as_path");
}

/// `::std::path::PathBuf`, the type of the configuration path.
pub open spec fn path_type() -> Seq<Token> {
    segment("std"@) + segment("path"@) + segment("PathBuf"@)
}

fn emit_path_type(stream: &mut TokenStream)
    ensures
        stream_tokens(*final(stream)) == stream_tokens(*old(stream)) + path_type(),
{
    proof {
        lemma_vocabulary();
    }
    emit_segment(stream, "std");
    emit_segment(stream, "path");
    emit_segment(stream, "PathBuf");
}

/// `config: ::std::path::PathBuf,` the single, required field.
pub open spec fn option_fields() -> Seq<Token> {
    seq![ident("config"@), alone(':')] + path_type() + seq![alone(',')]
}

fn build_option_fields() -> (fields: TokenStream)
    ensures
        stream_tokens(fields) == option_fields(),
{
    proof {
        lemma_vocabulary();
    }
    let mut fields = new_stream();
    push_ident(&mut fields, "config");
    push_punct(&mut fields, ':', Spacing::Alone);
    emit_path_type(&mut fields);
    push_punct(&mut fields, ',', Spacing::Alone);
    fields
}

/// `derive(Debug)`
pub open spec fn option_attribute() -> Seq<Token> {
    seq![ident("derive"@), parenthesized(seq![ident("Debug"@)])]
}

fn build_option_attribute() -> (attribute: TokenStream)
    ensures
        stream_tokens(attribute) == option_attribute(),
{
    proof {
        lemma_vocabulary();
    }
    let mut derived = new_stream();
    push_ident(&mut derived, "Debug");
    let mut attribute = new_stream();
    push_ident(&mut attribute, "derive");
    push_group(&mut attribute, Delimiter::Parenthesis, derived);
    attribute
}

/// The option holder:
/// `#[derive(Debug)] pub struct ConnectorOpt { config: ::std::path::PathBuf, }`
pub open spec fn option_holder() -> Seq<Token> {
    seq![
        alone('#'),
        bracketed(option_attribute()),
        ident("pub"@),
        ident("struct"@),
        ident("ConnectorOpt"@),
        braced(option_fields()),
    ]
}

fn emit_option_holder(stream: &mut TokenStream)
    ensures
        stream_tokens(*final(stream)) == stream_tokens(*old(stream)) + option_holder(),
{
    proof {
        lemma_vocabulary();
    }
    push_punct(stream, '#', Spacing::Alone);
    push_group(stream, Delimiter::Bracket, build_option_attribute());
    push_ident(stream, "pub");
    push_ident(stream, "struct");
    push_ident(stream, "ConnectorOpt");
    push_group(stream, Delimiter::Brace, build_option_fields());
}

/// `::std::env::args_os()`, the arguments that the process was started
/// with, as the operating system gave them: one that is not Unicode is an
/// argument like any other.
pub open spec fn process_arguments() -> Seq<Token> {
    segment("std"@) + segment("env"@) + segment("args_os"@) + seq![unit()]
}

fn emit_process_arguments(stream: &mut TokenStream)
    ensures
        stream_tokens(*final(stream)) == stream_tokens(*old(stream)) + process_arguments(),
{
    proof {
        lemma_vocabulary();
    }
    emit_segment(stream, "std");
    emit_segment(stream, "env");
    emit_segment(stream, "args_os");
    emit_unit(stream);
}

/// `|(_, a)| a.eq("--config")`: an argument is the flag when it equals
/// `--config` exactly.
pub open spec fn flag_test() -> Seq<Token> {
    seq![
        alone('|'),
        parenthesized(seq![ident("_"@), alone(','), ident("a"@)]),
        alone('|'),
        ident("a"@),
    ] + method_call("eq"@, seq![Token::Str(CONFIG_FLAG@)])
}

fn build_flag_test() -> (test: TokenStream)
    ensures
        stream_tokens(test) == flag_test(),
{
    proof {
        lemma_vocabulary();
    }
    let mut pair = new_stream();
    push_ident(&mut pair, "_");
    push_punct(&mut pair, ',', Spacing::Alone);
    push_ident(&mut pair, "a");
    assert(stream_tokens(pair) == seq![ident("_"@), alone(','), ident("a"@)]);
    let mut flag = new_stream();
    push_string(&mut flag, CONFIG_FLAG);
    assert(stream_tokens(flag) == seq![Token::Str(CONFIG_FLAG@)]);
    let mut test = new_stream();
    push_punct(&mut test, '|', Spacing::Alone);
    push_group(&mut test, Delimiter::Parenthesis, pair);
    push_punct(&mut test, '|', Spacing::Alone);
    push_ident(&mut test, "a");
    emit_method_call(&mut test, "eq", flag);
    test
}

/// `|(i, _)| ::std::env::args_os().nth(i + 1)`: the path is the argument
/// that follows the flag, if there is one.
pub open spec fn following_argument() -> Seq<Token> {
    seq![alone('|'), parenthesized(seq![ident("i"@), alone(','), ident("_"@)]), alone('|')]
        + process_arguments() + method_call(
        "nth"@,
        seq![ident("i"@), alone('+'), Token::Literal(decimal(1))],
    )
}

fn build_following_argument() -> (next: TokenStream)
    ensures
        stream_tokens(next) == following_argument(),
{
    proof {
        lemma_vocabulary();
    }
    let mut pair = new_stream();
    push_ident(&mut pair, "i");
    push_punct(&mut pair, ',', Spacing::Alone);
    push_ident(&mut pair, "_");
    assert(stream_tokens(pair) == seq![ident("i"@), alone(','), ident("_"@)]);
    let mut position = new_stream();
    push_ident(&mut position, "i");
    push_punct(&mut position, '+', Spacing::Alone);
    push_unsuffixed(&mut position, 1);
    assert(stream_tokens(position) == seq![ident("i"@), alone('+'), Token::Literal(decimal(1))]);
    let mut next = new_stream();
    push_punct(&mut next, '|', Spacing::Alone);
    push_group(&mut next, Delimiter::Parenthesis, pair);
    push_punct(&mut next, '|', Spacing::Alone);
    emit_process_arguments(&mut next);
    emit_method_call(&mut next, "nth", position);
    next
}

/// `::std::path::PathBuf::from`
pub open spec fn path_conversion() -> Seq<Token> {
    path_type() + segment("from"@)
}

fn build_path_conversion() -> (conversion: TokenStream)
    ensures
        stream_tokens(conversion) == path_conversion(),
{
    proof {
        lemma_vocabulary();
    }
    let mut conversion = new_stream();
    emit_path_type(&mut conversion);
    emit_segment(&mut conversion, "from");
    conversion
}

/// The scan of the arguments for the flag and the token after it:
/// `let path = ::std::env::args_os().enumerate().find(..).and_then(..).map(..);`
pub open spec fn path_lookup() -> Seq<Token> {
    seq![ident("let"@), ident("path"@), alone('=')] + process_arguments() + method_call(
        "enumerate"@,
        Seq::empty(),
    ) + method_call("find"@, flag_test()) + method_call("and_then"@, following_argument())
        + method_call("map"@, path_conversion()) + seq![alone(';')]
}

fn emit_path_lookup(stream: &mut TokenStream)
    ensures
        stream_tokens(*final(stream)) == stream_tokens(*old(stream)) + path_lookup(),
{
    proof {
        lemma_vocabulary();
    }
    push_ident(stream, "let");
    push_ident(stream, "path");
    push_punct(stream, '=', Spacing::Alone);
    emit_process_arguments(stream);
    emit_method_call(stream, "enumerate", new_stream());
    emit_method_call(stream, "find", build_flag_test());
    emit_method_call(stream, "and_then", build_following_argument());
    emit_method_call(stream, "map", build_path_conversion());
    push_punct(stream, ';', Spacing::Alone);
}

/// What the program does when no path was found: it prints the diagnostic
/// to standard error and ends the process with exit code 1,
/// `eprintln!(".."); ::std::process::exit(1)`.
pub open spec fn missing_path_exit() -> Seq<Token> {
    seq![
        ident("eprintln"@),
        alone('!'),
        parenthesized(seq![Token::Str(MISSING_CONFIG@)]),
        alone(';'),
    ] + segment("std"@) + segment("process"@) + segment("exit"@) + seq![
        parenthesized(seq![Token::Literal(decimal(MISSING_CONFIG_EXIT_CODE as nat))]),
    ]
}

fn build_missing_path_exit() -> (exit: TokenStream)
    ensures
        stream_tokens(exit) == missing_path_exit(),
{
    proof {
        lemma_vocabulary();
    }
    let mut diagnostic = new_stream();
    push_string(&mut diagnostic, MISSING_CONFIG);
    let mut code = new_stream();
    push_unsuffixed(&mut code, MISSING_CONFIG_EXIT_CODE);
    assert(stream_tokens(code) == seq![
        Token::Literal(decimal(MISSING_CONFIG_EXIT_CODE as nat)),
    ]);
    let mut exit = new_stream();
    push_ident(&mut exit, "eprintln");
    push_punct(&mut exit, '!', Spacing::Alone);
    push_group(&mut exit, Delimiter::Parenthesis, diagnostic);
    push_punct(&mut exit, ';', Spacing::Alone);
    emit_segment(&mut exit, "std");
    emit_segment(&mut exit, "process");
    emit_segment(&mut exit, "exit");
    push_group(&mut exit, Delimiter::Parenthesis, code);
    exit
}

/// The two arms: `Some(config) => Self {config}, None => { .. }`
pub open spec fn path_arms() -> Seq<Token> {
    seq![
        ident("Some"@),
        parenthesized(seq![ident("config"@)]),
        joint('='),
        alone('>'),
        ident("Self"@),
        braced(seq![ident("config"@)]),
        alone(','),
        ident("None"@),
        joint('='),
        alone('>'),
        braced(missing_path_exit()),
    ]
}

fn build_path_arms() -> (arms: TokenStream)
    ensures
        stream_tokens(arms) == path_arms(),
{
    proof {
        lemma_vocabulary();
    }
    let mut found = new_stream();
    push_ident(&mut found, "config");
    let mut holder = new_stream();
    push_ident(&mut holder, "config");
    let mut arms = new_stream();
    push_ident(&mut arms, "Some");
    push_group(&mut arms, Delimiter::Parenthesis, found);
    push_punct(&mut arms, '=', Spacing::Joint);
    push_punct(&mut arms, '>', Spacing::Alone);
    push_ident(&mut arms, "Self");
    push_group(&mut arms, Delimiter::Brace, holder);
    push_punct(&mut arms, ',', Spacing::Alone);
    push_ident(&mut arms, "None");
    push_punct(&mut arms, '=', Spacing::Joint);
    push_punct(&mut arms, '>', Spacing::Alone);
    push_group(&mut arms, Delimiter::Brace, build_missing_path_exit());
    arms
}

/// The body of the parser: the lookup, then `match path { .. }`.
pub open spec fn parser_body() -> Seq<Token> {
    path_lookup() + seq![ident("match"@), ident("path"@), braced(path_arms())]
}

fn build_parser_body() -> (body: TokenStream)
    ensures
        stream_tokens(body) == parser_body(),
{
    proof {
        lemma_vocabulary();
    }
    let mut body = new_stream();
    emit_path_lookup(&mut body);
    push_ident(&mut body, "match");
    push_ident(&mut body, "path");
    push_group(&mut body, Delimiter::Brace, build_path_arms());
    body
}

/// `fn parse() -> Self { .. }`
pub open spec fn parser_method() -> Seq<Token> {
    seq![
        ident("fn"@),
        ident("parse"@),
        unit(),
        joint('-'),
        alone('>'),
        ident("Self"@),
        braced(parser_body()),
    ]
}

fn build_parser_method() -> (method: TokenStream)
    ensures
        stream_tokens(method) == parser_method(),
{
    proof {
        lemma_vocabulary();
    }
    let mut method = new_stream();
    push_ident(&mut method, "fn");
    push_ident(&mut method, "parse");
    emit_unit(&mut method);
    push_punct(&mut method, '-', Spacing::Joint);
    push_punct(&mut method, '>', Spacing::Alone);
    push_ident(&mut method, "Self");
    push_group(&mut method, Delimiter::Brace, build_parser_body());
    method
}

/// The parser of the option holder: `impl ConnectorOpt { fn parse() -> Self { .. } }`
pub open spec fn option_parser() -> Seq<Token> {
    seq![ident("impl"@), ident("ConnectorOpt"@), braced(parser_method())]
}

fn emit_option_parser(stream: &mut TokenStream)
    ensures
        stream_tokens(*final(stream)) == stream_tokens(*old(stream)) + option_parser(),
{
    proof {
        lemma_vocabulary();
    }
    push_ident(stream, "impl");
    push_ident(stream, "ConnectorOpt");
    push_group(stream, Delimiter::Brace, build_parser_method());
}

/// The start of logging, once a path was found and before anything is
/// logged: `::fluvio_connector_common::future::init_logger();`
pub open spec fn logger_start() -> Seq<Token> {
    runtime_item("future"@, "init_logger"@) + seq![unit(), alone(';')]
}

fn emit_logger_start(stream: &mut TokenStream)
    ensures
        stream_tokens(*final(stream)) == stream_tokens(*old(stream)) + logger_start(),
{
    proof {
        lemma_vocabulary();
    }
    emit_runtime_item(stream, "future", "init_logger");
    emit_unit(stream);
    push_punct(stream, ';', Spacing::Alone);
}

/// The call of the parser, the first thing that the program does. Where no
/// path is found the process ends here: `let opts = ConnectorOpt::parse();`
pub open spec fn options_binding() -> Seq<Token> {
    seq![ident("let"@), ident("opts"@), alone('='), ident("ConnectorOpt"@)] + segment("parse"@)
        + seq![unit(), alone(';')]
}

fn emit_options_binding(stream: &mut TokenStream)
    ensures
        stream_tokens(*final(stream)) == stream_tokens(*old(stream)) + options_binding(),
{
    proof {
        lemma_vocabulary();
    }
    push_ident(stream, "let");
    push_ident(stream, "opts");
    push_punct(stream, '=', Spacing::Alone);
    push_ident(stream, "ConnectorOpt");
    emit_segment(stream, "parse");
    emit_unit(stream);
    push_punct(stream, ';', Spacing::Alone);
}

/// `opts.config`, the resolved path.
pub open spec fn resolved_path() -> Seq<Token> {
    seq![ident("opts"@), alone('.'), ident("config"@)]
}

fn emit_resolved_path(stream: &mut TokenStream)
    ensures
        stream_tokens(*final(stream)) == stream_tokens(*old(stream)) + resolved_path(),
{
    proof {
        lemma_vocabulary();
    }
    push_ident(stream, "opts");
    push_punct(stream, '.', Spacing::Alone);
    push_ident(stream, "config");
}

/// What the first log line is given: the format and the path, rendered
/// lossily so that a malformed path cannot stop the program.
pub open spec fn path_report_arguments() -> Seq<Token> {
    seq![Token::Str(PATH_REPORT@), alone(',')] + resolved_path() + method_call(
        "to_string_lossy"@,
        Seq::empty(),
    )
}

fn build_path_report_arguments() -> (arguments: TokenStream)
    ensures
        stream_tokens(arguments) == path_report_arguments(),
{
    proof {
        lemma_vocabulary();
    }
    let mut arguments = new_stream();
    push_string(&mut arguments, PATH_REPORT);
    push_punct(&mut arguments, ',', Spacing::Alone);
    emit_resolved_path(&mut arguments);
    emit_method_call(&mut arguments, "to_string_lossy", new_stream());
    arguments
}

/// What the loader is given: `opts.config.as_path()`
pub open spec fn load_arguments() -> Seq<Token> {
    resolved_path() + method_call("as_path"@, Seq::empty())
}

fn build_load_arguments() -> (arguments: TokenStream)
    ensures
        stream_tokens(arguments) == load_arguments(),
{
    proof {
        lemma_vocabulary();
    }
    let mut arguments = new_stream();
    emit_resolved_path(&mut arguments);
    emit_method_call(&mut arguments, "as_path", new_stream());
    arguments
}

/// The loading of the configuration, whose failure ends `main` with that
/// error:
/// `let config = ::fluvio_connector_common::ConnectorConfig::from_file(..)?;`
pub open spec fn config_load() -> Seq<Token> {
    seq![ident("let"@), ident("config"@), alone('=')] + runtime_item(
        "ConnectorConfig"@,
        "from_file"@,
    ) + seq![parenthesized(load_arguments()), alone('?'), alone(';')]
}

fn emit_config_load(stream: &mut TokenStream)
    ensures
        stream_tokens(*final(stream)) == stream_tokens(*old(stream)) + config_load(),
{
    proof {
        lemma_vocabulary();
    }
    push_ident(stream, "let");
    push_ident(stream, "config");
    push_punct(stream, '=', Spacing::Alone);
    emit_runtime_item(stream, "ConnectorConfig", "from_file");
    push_group(stream, Delimiter::Parenthesis, build_load_arguments());
    push_punct(stream, '?', Spacing::Alone);
    push_punct(stream, ';', Spacing::Alone);
}

/// What the debug line is given: the format and the configuration.
pub open spec fn config_report_arguments() -> Seq<Token> {
    seq![Token::Str(CONFIG_REPORT@), alone(','), ident("config"@)]
}

fn build_config_report_arguments() -> (arguments: TokenStream)
    ensures
        stream_tokens(arguments) == config_report_arguments(),
{
    proof {
        lemma_vocabulary();
    }
    let mut arguments = new_stream();
    push_string(&mut arguments, CONFIG_REPORT);
    push_punct(&mut arguments, ',', Spacing::Alone);
    push_ident(&mut arguments, "config");
    arguments
}

/// What the last line is given: its text.
pub open spec fn start_report_arguments() -> Seq<Token> {
    seq![Token::Str(START_REPORT@)]
}

fn build_start_report_arguments() -> (arguments: TokenStream)
    ensures
        stream_tokens(arguments) == start_report_arguments(),
{
    let mut arguments = new_stream();
    push_string(&mut arguments, START_REPORT);
    arguments
}

/// The statements of the prologue, in the order in which they run: the
/// arguments are parsed, logging starts, the path is reported, the
/// configuration is loaded and reported, and processing is announced.
pub open spec fn prologue_statements() -> Seq<Token> {
    options_binding() + logger_start() + log_line("info"@, path_report_arguments())
        + config_load() + log_line("debug"@, config_report_arguments()) + log_line(
        "info"@,
        start_report_arguments(),
    )
}

fn emit_prologue_statements(stream: &mut TokenStream)
    ensures
        stream_tokens(*final(stream)) == stream_tokens(*old(stream)) + prologue_statements(),
{
    proof {
        lemma_vocabulary();
    }
    emit_options_binding(stream);
    emit_logger_start(stream);
    emit_log_line(stream, "info", build_path_report_arguments());
    emit_config_load(stream);
    emit_log_line(stream, "debug", build_config_report_arguments());
    emit_log_line(stream, "info", build_start_report_arguments());
}

/// The statements begin with the call of the parser; the start of logging
/// comes right after it, and every line that is logged comes later.
pub proof fn lemma_parsing_precedes_logging()
    ensures
        prologue_statements().subrange(0, options_binding().len() as int)
            == options_binding(),
        prologue_statements().subrange(
            options_binding().len() as int,
            (options_binding().len() + logger_start().len()) as int,
        ) == logger_start(),
        prologue_statements().subrange(
            (options_binding().len() + logger_start().len()) as int,
            prologue_statements().len() as int,
        ) == log_line("info"@, path_report_arguments()) + config_load() + log_line(
            "debug"@,
            config_report_arguments(),
        ) + log_line("info"@, start_report_arguments()),
{
}

/// The whole prologue: the option holder, its parser, and the statements.
/// It leaves the loaded configuration in the variable `config`.
pub open spec fn prologue() -> Seq<Token> {
    option_holder() + option_parser() + prologue_statements()
}

/// Synthesizes the prologue that both directions share.
pub fn init_and_parse_config() -> (tokens: TokenStream)
    ensures
        stream_tokens(tokens) == prologue(),
{
    let mut tokens = new_stream();
    emit_option_holder(&mut tokens);
    emit_option_parser(&mut tokens);
    emit_prologue_statements(&mut tokens);
    tokens
}

} // verus!
