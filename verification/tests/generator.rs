use fluvio_connector_derive::ast::{ConnectorDirection, ConnectorFn};
use fluvio_connector_derive::generator::{generate_connector, generate_sink, generate_source};
use fluvio_connector_derive::prologue::init_and_parse_config;
use proc_macro2::{Delimiter, Spacing, TokenStream, TokenTree};

/// The tokens of a stream in order, groups opened up, spacing left out.
fn flatten(stream: TokenStream) -> Vec<String> {
    let mut out = Vec::new();
    for tree in stream {
        match tree {
            TokenTree::Group(group) => {
                let (open, close) = match group.delimiter() {
                    Delimiter::Parenthesis => ("(", ")"),
                    Delimiter::Brace => ("{", "}"),
                    Delimiter::Bracket => ("[", "]"),
                    Delimiter::None => ("<none>", "</none>"),
                };
                out.push(open.to_string());
                out.extend(flatten(group.stream()));
                out.push(close.to_string());
            }
            TokenTree::Ident(ident) => out.push(ident.to_string()),
            TokenTree::Punct(punct) => out.push(punct.as_char().to_string()),
            TokenTree::Literal(literal) => out.push(literal.to_string()),
        }
    }
    out
}

/// Every punctuation character of a stream with its spacing and the
/// character of the punctuation that follows it directly, if any.
fn punctuation(stream: TokenStream, out: &mut Vec<(char, Spacing, Option<char>)>) {
    let trees: Vec<TokenTree> = stream.into_iter().collect();
    for (i, tree) in trees.iter().enumerate() {
        match tree {
            TokenTree::Group(group) => punctuation(group.stream(), out),
            TokenTree::Punct(punct) => {
                let next = match trees.get(i + 1) {
                    Some(TokenTree::Punct(next)) => Some(next.as_char()),
                    _ => None,
                };
                out.push((punct.as_char(), punct.spacing(), next));
            }
            _ => {}
        }
    }
}

fn lex(text: &str) -> TokenStream {
    text.parse().unwrap()
}

fn global(segments: &[&str]) -> String {
    let mut path = String::new();
    for segment in segments {
        path.push_str("::");
        path.push_str(segment);
    }
    path
}

fn prologue_text() -> String {
    format!(
        r#"
        #[derive(Debug)]
        pub struct ConnectorOpt {{
            config: {path_buf},
        }}

        impl ConnectorOpt {{
            fn parse() -> Self {{
                let path = {args}()
                    .enumerate()
                    .find(|(_, a)| a.eq("--config"))
                    .and_then(|(i, _)| {args}().nth(i + 1))
                    .map({path_buf}::from);
                match path {{
                    Some(config) => Self {{config}},
                    None => {{
                        eprintln!("error: The following required arguments were not provided:\n  --config <PATH>");
                        {exit}(1)
                    }}
                }}
            }}
        }}

        let opts = ConnectorOpt::parse();

        ::fluvio_connector_common::future::init_logger();
        ::fluvio_connector_common::tracing::info!("Reading config file from: {{}}", opts.config.to_string_lossy());

        let config = ::fluvio_connector_common::ConnectorConfig::from_file(opts.config.as_path())?;
        ::fluvio_connector_common::tracing::debug!("{{:#?}}", config);

        ::fluvio_connector_common::tracing::info!("starting processing");
        "#,
        path_buf = global(&["std", "path", "PathBuf"]),
        args = global(&["std", "env", "args_os"]),
        exit = global(&["std", "process", "exit"]),
    )
}

fn program_text(module: &str, constructor: &str, handle: &str, name: &str, code: &str) -> String {
    format!(
        r#"
        fn main() -> ::fluvio_connector_common::Result<()> {{
            {prologue}

            ::fluvio_connector_common::future::run_block_on(async {{
                let (fluvio, {handle}) = ::fluvio_connector_common::{module}::{constructor}(&config).await?;

                let metrics = ::std::sync::Arc::new(::fluvio_connector_common::monitoring::ConnectorMetrics::new(fluvio.metrics()));
                ::fluvio_connector_common::monitoring::init_monitoring(metrics);

                {name}(config, {handle}).await
            }})?;

            Ok(())
        }}

        {code}
        "#,
        prologue = prologue_text(),
    )
}

const SOURCE_FN: &str =
    "async fn my_fn(config: ConnectorConfig, producer: TopicProducerPool) -> Result<()> { Ok(()) }";

const SINK_FN: &str =
    "async fn my_fn(config: ConnectorConfig, mut stream: impl ConsumerStream) -> Result<()> { while let Some(Ok(record)) = stream.next().await { println!(\"{}\", record.len() - 1); } Ok(()) }";

fn connector_fn(name: &str, code: &str) -> ConnectorFn {
    ConnectorFn { name: lex(name), func: lex(code) }
}

fn position(tokens: &[String], from: usize, wanted: &str) -> usize {
    match tokens[from..].iter().position(|token| token == wanted) {
        Some(found) => from + found,
        None => panic!("`{}` does not occur from {} on", wanted, from),
    }
}

#[test]
fn prologue_matches_template() {
    assert_eq!(flatten(init_and_parse_config()), flatten(lex(&prologue_text())));
}

#[test]
fn prologue_is_rendered_token_by_token() {
    let rendered = init_and_parse_config().to_string();
    assert!(rendered.starts_with(
        "# [derive (Debug)] pub struct ConnectorOpt { config : :: std :: path :: PathBuf , } \
         impl ConnectorOpt { fn parse () -> Self { let path = :: std :: env :: args_os () . enumerate () \
         . find (| (_ , a) | a . eq (\"--config\"))"
    ));
    assert!(rendered.ends_with(
        ":: fluvio_connector_common :: tracing :: debug ! (\"{:#?}\" , config) ; \
         :: fluvio_connector_common :: tracing :: info ! (\"starting processing\") ;"
    ));
}

#[test]
fn prologue_holds_the_diagnostic_and_the_exit_code() {
    let tokens = flatten(init_and_parse_config());
    let report = position(&tokens, 0, "eprintln");
    assert_eq!(tokens[report + 1], "!");
    assert_eq!(
        tokens[report + 3],
        "\"error: The following required arguments were not provided:\\n  --config <PATH>\""
    );
    let exit = position(&tokens, report, "exit");
    assert_eq!(&tokens[exit + 1..exit + 4], ["(", "1", ")"]);
    let next = position(&tokens, 0, "nth");
    assert_eq!(&tokens[next + 1..next + 6], ["(", "i", "+", "1", ")"]);
}

#[test]
fn source_program_matches_template() {
    let func = connector_fn("my_fn", SOURCE_FN);
    let expected =
        program_text("producer", "producer_from_config", "producer", "my_fn", SOURCE_FN);
    assert_eq!(flatten(generate_source(&func)), flatten(lex(&expected)));
}

#[test]
fn sink_program_matches_template() {
    let func = connector_fn("my_fn", SINK_FN);
    let expected =
        program_text("consumer", "consumer_stream_from_config", "stream", "my_fn", SINK_FN);
    assert_eq!(flatten(generate_sink(&func)), flatten(lex(&expected)));
}

#[test]
fn dispatch_selects_the_branch_of_the_direction() {
    let func = connector_fn("my_fn", SOURCE_FN);
    assert_eq!(
        generate_connector(ConnectorDirection::Source, &func).to_string(),
        generate_source(&func).to_string()
    );
    assert_eq!(
        generate_connector(ConnectorDirection::Sink, &func).to_string(),
        generate_sink(&func).to_string()
    );
    assert_ne!(generate_source(&func).to_string(), generate_sink(&func).to_string());
}

#[test]
fn operators_are_joined_and_nothing_else() {
    let func = connector_fn("my_fn", "fn my_fn() {}");
    let expected =
        program_text("producer", "producer_from_config", "producer", "my_fn", "fn my_fn() {}");
    let mut found = Vec::new();
    punctuation(generate_source(&func), &mut found);
    let mut written = Vec::new();
    punctuation(lex(&expected), &mut written);
    assert!(found.len() > 100);
    assert_eq!(found.len(), written.len());
    let mut joined = 0;
    for ((ch, spacing, next), (_, written_spacing, _)) in found.into_iter().zip(written) {
        // a character is joint where it is written against the next one and
        // begins one of the operators `::`, `->` and `=>`
        let begins_operator =
            matches!((ch, next), (':', Some(':')) | ('-', Some('>')) | ('=', Some('>')));
        let expected = written_spacing == Spacing::Joint && begins_operator;
        assert_eq!(spacing == Spacing::Joint, expected, "at `{}`", ch);
        if expected {
            joined += 1;
        }
    }
    assert!(joined > 40);
}

#[test]
fn directions_differ_in_four_places() {
    let func = connector_fn("my_fn", SOURCE_FN);
    let source = flatten(generate_source(&func));
    let sink = flatten(generate_sink(&func));
    assert_eq!(source.len(), sink.len());
    let mut differences = Vec::new();
    for i in 0..source.len() {
        if source[i] != sink[i] {
            differences.push((source[i].as_str(), sink[i].as_str()));
        }
    }
    assert_eq!(
        differences,
        vec![
            ("producer", "stream"),
            ("producer", "consumer"),
            ("producer_from_config", "consumer_stream_from_config"),
            ("producer", "stream"),
        ]
    );
}

#[test]
fn synthesis_is_deterministic() {
    for direction in [ConnectorDirection::Source, ConnectorDirection::Sink] {
        let first = generate_connector(direction, &connector_fn("my_fn", SINK_FN));
        let second = generate_connector(direction, &connector_fn("my_fn", SINK_FN));
        assert_eq!(first.to_string(), second.to_string());
        assert_eq!(flatten(first), flatten(second));
    }
    assert_eq!(init_and_parse_config().to_string(), init_and_parse_config().to_string());
}

fn assert_sequence(tokens: &[String], handle: &str, constructor: &str) {
    // `fn main () - > :: fluvio_connector_common :: Result < () > {`, then the
    // option holder and its parser, which name nothing of the runtime
    assert_eq!(position(tokens, 0, "fluvio_connector_common"), 8);
    let parsing = position(tokens, 17, "opts");
    assert_eq!(&tokens[parsing - 1..parsing + 6], ["let", "opts", "=", "ConnectorOpt", ":", ":", "parse"]);
    // the runtime is first touched to start logging, after the parse
    let logging = position(tokens, 17, "init_logger");
    assert!(parsing < logging);
    assert_eq!(position(tokens, 17, "fluvio_connector_common"), logging - 6);
    let reporting = position(tokens, logging, "info");
    let loading = position(tokens, reporting, "from_file");
    let entering = position(tokens, loading, "run_block_on");
    let constructing = position(tokens, entering, constructor);
    assert_eq!(&tokens[constructing - 14..constructing - 9], ["(", "fluvio", ",", handle, ")"]);
    let building = position(tokens, constructing, "ConnectorMetrics");
    let registering = position(tokens, building, "init_monitoring");
    let calling = position(tokens, registering, "my_fn");
    assert_eq!(
        &tokens[calling..calling + 8],
        ["my_fn", "(", "config", ",", handle, ")", ".", "await"]
    );
    // the result of the block is propagated, then `main` succeeds
    assert_eq!(&tokens[calling + 8..calling + 18], ["}", ")", "?", ";", "Ok", "(", "(", ")", ")", "}"]);
    // the definition of the function follows `main`
    let definition = position(tokens, calling + 1, "my_fn");
    assert_eq!(&tokens[definition - 2..definition], ["async", "fn"]);
    // logging is started once, and nothing is logged before
    assert_eq!(tokens.iter().filter(|token| *token == "init_logger").count(), 1);
    assert!(!tokens[..logging].contains(&"tracing".to_string()));
}

#[test]
fn arguments_are_read_as_the_system_gives_them() {
    let tokens = flatten(init_and_parse_config());
    assert_eq!(tokens.iter().filter(|token| *token == "args_os").count(), 2);
    assert!(!tokens.contains(&"args".to_string()));
    let lossy = position(&tokens, 0, "to_string_lossy");
    assert_eq!(&tokens[lossy - 4..lossy], ["opts", ".", "config", "."]);
    let loader = position(&tokens, lossy, "from_file");
    assert_eq!(
        &tokens[loader + 1..loader + 10],
        ["(", "opts", ".", "config", ".", "as_path", "(", ")", ")"]
    );
}

#[test]
fn source_runs_the_steps_in_order() {
    let func = connector_fn("my_fn", SOURCE_FN);
    let tokens = flatten(generate_connector(ConnectorDirection::Source, &func));
    assert_sequence(&tokens, "producer", "producer_from_config");
    assert!(!tokens.contains(&"consumer_stream_from_config".to_string()));
}

#[test]
fn sink_runs_the_steps_in_order() {
    let func = connector_fn("my_fn", SINK_FN);
    let tokens = flatten(generate_connector(ConnectorDirection::Sink, &func));
    assert_sequence(&tokens, "stream", "consumer_stream_from_config");
    assert!(!tokens.contains(&"producer_from_config".to_string()));
}

#[test]
fn function_is_carried_through_unchanged() {
    let func = connector_fn("my_fn", SINK_FN);
    let program = generate_sink(&func);
    let trees: Vec<TokenTree> = program.into_iter().collect();
    let given: Vec<TokenTree> = lex(SINK_FN).into_iter().collect();
    // `fn main () - > :: fluvio_connector_common :: Result < () > { .. }`
    assert_eq!(trees.len(), 15 + given.len());
    for (kept, handed) in trees[15..].iter().zip(given.iter()) {
        assert_eq!(kept.to_string(), handed.to_string());
    }
    let kept: TokenStream = trees[15..].iter().cloned().collect();
    assert_eq!(kept.to_string(), lex(SINK_FN).to_string());
}

#[test]
fn name_is_not_inspected() {
    let func = connector_fn("helpers::r#try", "");
    let tokens = flatten(generate_source(&func));
    let called = position(&tokens, 0, "helpers");
    assert_eq!(
        &tokens[called..called + 11],
        ["helpers", ":", ":", "r#try", "(", "config", ",", "producer", ")", ".", "await"]
    );
    assert_eq!(tokens.last().map(String::as_str), Some("}"));
}

#[test]
fn empty_function_yields_main_alone() {
    let func = ConnectorFn { name: TokenStream::new(), func: TokenStream::new() };
    let trees: Vec<TokenTree> = generate_source(&func).into_iter().collect();
    assert_eq!(trees.len(), 15);
    assert_eq!(trees[0].to_string(), "fn");
    assert_eq!(trees[1].to_string(), "main");
    assert!(matches!(&trees[14], TokenTree::Group(body) if body.delimiter() == Delimiter::Brace));
}
