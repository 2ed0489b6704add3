use sspa_tui::launcher::{parse_command, split_command, ReadOutcome, StreamAction, StreamRegistry};

#[test]
fn line_then_end_of_stream_delivers_once_and_closes() {
    let mut reg = StreamRegistry::new(2);
    let mut delivered = Vec::new();
    match reg.on_read(0, ReadOutcome::Line("line1\n".to_string())) {
        StreamAction::Forward(l) => delivered.push(l),
        other => panic!("unexpected {:?}", other),
    }
    assert!(matches!(reg.on_read(0, ReadOutcome::Line(String::new())), StreamAction::Close));
    assert!(!reg.is_open(0));
    assert!(matches!(reg.on_read(0, ReadOutcome::Line("line1\n".to_string())), StreamAction::Ignore));
    assert_eq!(delivered, vec!["line1\n".to_string()]);
    assert!(reg.is_open(1));
    assert!(!reg.finished());
}

#[test]
fn both_streams_must_close_before_finishing() {
    let mut reg = StreamRegistry::new(2);
    assert!(!reg.finished());
    assert!(matches!(reg.on_read(1, ReadOutcome::Failed), StreamAction::CloseFailed));
    assert!(!reg.finished());
    assert!(matches!(reg.on_read(0, ReadOutcome::Line("still here\n".to_string())), StreamAction::Forward(_)));
    assert!(matches!(reg.on_read(0, ReadOutcome::Line(String::new())), StreamAction::Close));
    assert!(reg.finished());
}

#[test]
fn unknown_stream_is_ignored() {
    let mut reg = StreamRegistry::new(2);
    assert!(matches!(reg.on_read(7, ReadOutcome::Line("x".to_string())), StreamAction::Ignore));
    assert!(reg.is_open(0) && reg.is_open(1));
    assert!(!reg.is_open(2));
}

#[test]
fn empty_registry_is_finished() {
    assert!(StreamRegistry::new(0).finished());
}

#[test]
fn command_splits_on_blanks() {
    assert_eq!(split_command("ping localhost"), vec!["ping", "localhost"]);
    assert_eq!(
        split_command("  ssh -tt  host\tsspa -v "),
        vec!["ssh", "-tt", "host", "sspa", "-v"]
    );
    assert!(split_command("").is_empty());
    assert!(split_command("   ").is_empty());
}

#[test]
fn quotes_are_not_special() {
    assert_eq!(split_command("echo \"a b\""), vec!["echo", "\"a", "b\""]);
}

#[test]
fn program_is_first_word() {
    let (program, args) = parse_command("ssh -tt dietpi@192.168.1.16 sspa -v -H -M").unwrap();
    assert_eq!(program, "ssh");
    assert_eq!(args, vec!["-tt", "dietpi@192.168.1.16", "sspa", "-v", "-H", "-M"]);
    let (program, args) = parse_command("ping").unwrap();
    assert_eq!(program, "ping");
    assert!(args.is_empty());
    assert!(parse_command(" \t").is_none());
}

#[test]
fn every_unicode_whitespace_separates_words() {
    let (program, args) = parse_command("a\u{0B}b").unwrap();
    assert_eq!(program, "a");
    assert_eq!(args, vec!["b"]);
    for sep in ['\u{85}', '\u{A0}', '\u{1680}', '\u{2000}', '\u{200A}', '\u{2028}', '\u{2029}', '\u{202F}', '\u{205F}', '\u{3000}'] {
        assert!(sep.is_whitespace());
        let line = format!("x{}y", sep);
        assert_eq!(split_command(&line), vec!["x", "y"]);
    }
    assert_eq!(split_command("x\u{200B}y"), vec!["x\u{200B}y"]);
}
