use fluvio_connector_derive::ast::ConnectorDirection;
use fluvio_connector_derive::lifecycle::{exit_code, parse_outcome, step, Action, Outcome, Phase};
use fluvio_connector_derive::options::{
    find_config, is_flag, ConnectorOpt, CONFIG_FLAG, MISSING_CONFIG, MISSING_CONFIG_EXIT_CODE,
};

fn arguments(args: &[&str]) -> Vec<Vec<u8>> {
    args.iter().map(|arg| arg.as_bytes().to_vec()).collect()
}

fn path(args: &[&str]) -> Option<Vec<u8>> {
    ConnectorOpt::parse_from(&arguments(args)).map(|opt| opt.config)
}

fn bytes(text: &str) -> Option<Vec<u8>> {
    Some(text.as_bytes().to_vec())
}

/// The lookup as the synthesized program writes it, over a list in place of
/// the arguments of the process.
fn written_lookup(args: &[Vec<u8>]) -> Option<Vec<u8>> {
    args.iter()
        .cloned()
        .enumerate()
        .find(|(_, a)| a.as_slice().eq("--config".as_bytes()))
        .and_then(|(i, _)| args.iter().cloned().nth(i + 1))
}

fn argument_lists() -> Vec<Vec<Vec<u8>>> {
    let mut lists = vec![
        arguments(&[]),
        arguments(&["prog"]),
        arguments(&["--config"]),
        arguments(&["prog", "--config"]),
        arguments(&["prog", "--config", "/a/b.yaml"]),
        arguments(&["--config", "/a/b.yaml"]),
        arguments(&["prog", "--config", "/a/b.yaml", "rest"]),
        arguments(&["prog", "--verbose", "-x", "--config", "/a/b.yaml", "--trailing", "y"]),
        arguments(&["prog", "--config", "--config", "x"]),
        arguments(&["prog", "--config", "a", "--config", "b"]),
        arguments(&["prog", "--config", "a", "--config"]),
        arguments(&["prog", "--config=/a/b.yaml"]),
        arguments(&["prog", "-config", "/a/b.yaml"]),
        arguments(&["prog", "--Config", "/a/b.yaml"]),
        arguments(&["prog", "--config ", "/a/b.yaml"]),
        arguments(&["prog", "--configs", "/a/b.yaml"]),
        arguments(&["prog", "--confi", "/a/b.yaml"]),
        arguments(&["prog", "config", "/a/b.yaml"]),
        arguments(&["prog", "--config", ""]),
        arguments(&["prog", "", "--config", "dir with space/ü.yaml"]),
    ];
    lists.push(vec![b"prog".to_vec(), b"--config".to_vec(), vec![b'/', 0xff, 0xfe, b'.', b'y']]);
    lists.push(vec![vec![0xff], b"--config".to_vec(), vec![0x80]]);
    lists.push(vec![b"prog".to_vec(), b"--config\xff".to_vec(), b"x".to_vec()]);
    lists
}

#[test]
fn missing_flag_selects_the_fast_fail() {
    let opt = ConnectorOpt::parse_from(&arguments(&["prog"]));
    assert!(opt.is_none());
    let outcome = parse_outcome(&opt);
    assert_eq!(outcome, Outcome::Failed);
    for direction in [ConnectorDirection::Source, ConnectorDirection::Sink] {
        let next = step(direction, Phase::ParsingArgs, outcome).unwrap();
        assert_eq!(next.phase, Phase::Terminated);
        assert_ne!(next.phase, Phase::Failure);
        assert_eq!(next.actions, vec![Action::PrintDiagnostic, Action::Exit]);
        assert!(!next.actions.contains(&Action::ReturnError));
        assert!(!next.actions.contains(&Action::InitLogger));
        assert_eq!(exit_code(next.phase), Some(1));
    }
}

#[test]
fn flag_resolves_the_path_exactly() {
    assert_eq!(path(&["prog", "--config", "/a/b.yaml"]), bytes("/a/b.yaml"));
}

#[test]
fn flag_resolves_the_path_among_other_flags() {
    assert_eq!(
        path(&["prog", "--verbose", "-x", "--config", "/a/b.yaml", "--trailing", "y"]),
        bytes("/a/b.yaml")
    );
    assert_eq!(path(&["--config", "/a/b.yaml"]), bytes("/a/b.yaml"));
    assert_eq!(path(&["prog", "--config", "/a/b.yaml", "rest"]), bytes("/a/b.yaml"));
}

#[test]
fn flag_without_value_fails_like_no_flag() {
    let without_value = ConnectorOpt::parse_from(&arguments(&["prog", "--config"]));
    let without_flag = ConnectorOpt::parse_from(&arguments(&["prog"]));
    assert!(without_value.is_none());
    assert!(without_flag.is_none());
    assert_eq!(parse_outcome(&without_value), parse_outcome(&without_flag));
    assert_eq!(
        step(ConnectorDirection::Sink, Phase::ParsingArgs, parse_outcome(&without_value)),
        step(ConnectorDirection::Sink, Phase::ParsingArgs, parse_outcome(&without_flag))
    );
}

#[test]
fn found_path_lets_the_program_go_on() {
    let opt = ConnectorOpt::parse_from(&arguments(&["prog", "--config", "c.yaml"]));
    assert_eq!(parse_outcome(&opt), Outcome::Completed);
    let next = step(ConnectorDirection::Source, Phase::ParsingArgs, parse_outcome(&opt)).unwrap();
    assert_eq!(next.phase, Phase::LoadingConfig);
    assert_eq!(next.actions[0], Action::InitLogger);
    assert_eq!(exit_code(next.phase), None);
}

#[test]
fn first_flag_decides() {
    assert_eq!(path(&["prog", "--config", "--config", "x"]), bytes("--config"));
    assert_eq!(path(&["prog", "--config", "a", "--config", "b"]), bytes("a"));
    assert_eq!(path(&["prog", "--config", "a", "--config"]), bytes("a"));
}

#[test]
fn flag_is_matched_exactly() {
    assert_eq!(path(&["prog", "--config=/a/b.yaml"]), None);
    assert_eq!(path(&["prog", "-config", "/a/b.yaml"]), None);
    assert_eq!(path(&["prog", "--Config", "/a/b.yaml"]), None);
    assert_eq!(path(&["prog", "--config ", "/a/b.yaml"]), None);
    assert_eq!(path(&["prog", "--configs", "/a/b.yaml"]), None);
    assert_eq!(path(&["prog", "--confi", "/a/b.yaml"]), None);
    assert_eq!(path(&["prog", "config", "/a/b.yaml"]), None);
    assert!(is_flag(&b"--config".to_vec()));
    assert!(!is_flag(&b"--confih".to_vec()));
    assert!(!is_flag(&b"-+config".to_vec()));
    assert!(!is_flag(&Vec::new()));
    assert!(!is_flag(&b"--config\xff".to_vec()));
}

#[test]
fn no_arguments_name_no_path() {
    assert_eq!(path(&[]), None);
    assert_eq!(path(&["--config"]), None);
}

#[test]
fn path_is_taken_as_it_is() {
    assert_eq!(path(&["prog", "--config", ""]), Some(Vec::new()));
    assert_eq!(path(&["prog", "--config", "dir with space/ü.yaml"]), bytes("dir with space/ü.yaml"));
}

#[test]
fn path_need_not_be_unicode() {
    let malformed = vec![b'/', 0xff, 0xfe, b'.', b'y'];
    let args = vec![b"prog".to_vec(), b"--config".to_vec(), malformed.clone()];
    assert!(String::from_utf8(malformed.clone()).is_err());
    let opt = ConnectorOpt::parse_from(&args);
    assert_eq!(parse_outcome(&opt), Outcome::Completed);
    assert_eq!(opt.map(|found| found.config), Some(malformed));
    assert_eq!(find_config(&args), Some(2));
}

#[test]
fn other_arguments_need_not_be_unicode() {
    let args = vec![vec![0xff], vec![0xc3], b"--config".to_vec(), b"c.yaml".to_vec(), vec![0x80]];
    assert_eq!(find_config(&args), Some(3));
    assert_eq!(ConnectorOpt::parse_from(&args).map(|found| found.config), bytes("c.yaml"));
    let args = vec![b"prog".to_vec(), b"--config\xff".to_vec(), b"x".to_vec()];
    assert_eq!(find_config(&args), None);
}

#[test]
fn position_is_that_of_the_path() {
    assert_eq!(find_config(&arguments(&["prog", "--config", "/a/b.yaml"])), Some(2));
    assert_eq!(find_config(&arguments(&["--config", "x", "--config", "y"])), Some(1));
    assert_eq!(find_config(&arguments(&["a", "b", "c", "--config"])), None);
    assert_eq!(find_config(&arguments(&["a", "b", "c"])), None);
    assert_eq!(find_config(&arguments(&[])), None);
}

#[test]
fn rule_agrees_with_the_lookup_that_the_program_writes() {
    let lists = argument_lists();
    assert_eq!(lists.len(), 23);
    let mut found = 0;
    for args in lists {
        let expected = written_lookup(&args);
        assert_eq!(ConnectorOpt::parse_from(&args).map(|opt| opt.config), expected);
        assert_eq!(find_config(&args).map(|position| args[position].clone()), expected);
        if expected.is_some() {
            found += 1;
        }
    }
    assert_eq!(found, 11);
}

#[test]
fn diagnostic_and_exit_code() {
    assert_eq!(CONFIG_FLAG, "--config");
    assert_eq!(
        MISSING_CONFIG,
        "error: The following required arguments were not provided:\n  --config <PATH>"
    );
    assert_eq!(MISSING_CONFIG_EXIT_CODE, 1);
}
