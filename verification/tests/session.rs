use helpman::{generate_manpage_content, Action, Metadata, Session, Stage, SubcommandEntry};

fn metadata() -> Metadata {
    Metadata {
        name: "tool".to_string(),
        version: "not asked yet".to_string(),
        section: 1,
        title: "General commands".to_string(),
        homepage: Some("https://example.org".to_string()),
        repository: None,
    }
}

fn arguments(action: &Action) -> Vec<String> {
    match action {
        Action::Run(arguments) => arguments.clone(),
        other => panic!("the session does not ask to run the binary: {:?}", other),
    }
}

const HELP: &str = "A tool\n\nUsage: tool <COMMAND>\n\nCommands:\n  build  Build it\n  run    Run it\n  help   Print help\n\nOPTIONS:\n  -h, --help  Print help\n";

#[test]
fn session_asks_for_help_first() {
    let (session, action) = Session::begin(metadata());
    assert_eq!(session.stage, Stage::Help);
    assert_eq!(session.meta.version, "1.0.0");
    assert_eq!(arguments(&action), vec!["--help"]);
}

#[test]
fn session_asks_for_version_then_for_each_subcommand() {
    let (mut session, _) = Session::begin(metadata());
    let action = session.step(Ok(HELP.to_string()));
    assert_eq!(session.stage, Stage::Version);
    assert_eq!(session.names, vec!["build", "run"]);
    assert_eq!(arguments(&action), vec!["--version"]);
    let action = session.step(Ok("tool 2.0.0\n".to_string()));
    assert_eq!(session.stage, Stage::Subcommands);
    assert_eq!(session.meta.version, "tool 2.0.0\n");
    assert_eq!(arguments(&action), vec!["build", "--help"]);
    let action = session.step(Ok("Build it\n".to_string()));
    assert_eq!(session.stage, Stage::Subcommands);
    assert_eq!(arguments(&action), vec!["run", "--help"]);
    let action = session.step(Err("no such command".to_string()));
    assert_eq!(session.stage, Stage::Done);
    let mut meta = metadata();
    meta.version = "tool 2.0.0\n".to_string();
    let entries = vec![
        SubcommandEntry { name: "build".to_string(), help: Some("Build it\n".to_string()) },
        SubcommandEntry { name: "run".to_string(), help: None },
    ];
    match action {
        Action::Done(page) => {
            assert_eq!(page, generate_manpage_content(&meta, HELP, &entries));
            assert!(page.contains(".SH SUBCOMMANDS\n.SS build\nBuild it\n\n.SH SEE ALSO\n"));
            assert!(!page.contains(".SS run"));
        }
        other => panic!("the session is not done: {:?}", other),
    }
}

#[test]
fn session_without_help_fails_with_the_reason() {
    let (mut session, _) = Session::begin(metadata());
    let action = session.step(Err("tool: permission denied".to_string()));
    assert_eq!(session.stage, Stage::Failed);
    assert!(matches!(&action, Action::Failed(message) if message == "tool: permission denied"));
    let again = session.step(Ok(HELP.to_string()));
    assert_eq!(session.stage, Stage::Failed);
    assert!(matches!(&again, Action::Failed(message) if message == "tool: permission denied"));
}

#[test]
fn session_without_version_uses_the_default() {
    let (mut session, _) = Session::begin(metadata());
    session.step(Ok("A tool\n".to_string()));
    let action = session.step(Err("unknown flag".to_string()));
    assert_eq!(session.stage, Stage::Done);
    match action {
        Action::Done(page) => {
            assert!(page.starts_with(".TH \"TOOL\" \"1\" \"\" \"TOOL 1.0.0\" \"General commands\"\n"));
        }
        other => panic!("the session is not done: {:?}", other),
    }
}

#[test]
fn session_that_is_done_repeats_the_page() {
    let (mut session, _) = Session::begin(metadata());
    session.step(Ok("A tool\n".to_string()));
    let first = session.step(Ok("3.1".to_string()));
    let second = session.step(Ok("ignored".to_string()));
    assert_eq!(session.stage, Stage::Done);
    match (first, second) {
        (Action::Done(a), Action::Done(b)) => assert_eq!(a, b),
        other => panic!("the session is not done: {:?}", other),
    }
}

#[test]
fn session_with_empty_help_goes_on() {
    let (mut session, _) = Session::begin(metadata());
    let action = session.step(Ok(String::new()));
    assert_eq!(arguments(&action), vec!["--version"]);
    assert!(session.names.is_empty());
}
