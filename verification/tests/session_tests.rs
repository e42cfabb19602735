use mimic_keyboard::config::{MimicConfig, MIMIC3_HOST, MIMIC3_LENGTH, MIMIC3_NOISE, MIMIC3_VOICE};
use mimic_keyboard::processor::{Action, ClipLength, Event, Outcome, ProcessError, Processor};
use mimic_keyboard::session::{after_outcome, ends_session, interpret_line, trim, Control, LineAction};

fn settings() -> MimicConfig {
    MimicConfig::new(
        String::from(MIMIC3_HOST),
        MIMIC3_VOICE,
        String::from(MIMIC3_NOISE),
        String::from(MIMIC3_LENGTH),
        false,
    )
}

fn spoken(line: &str) -> Option<String> {
    match interpret_line(Some(line)) {
        LineAction::Quit => None,
        LineAction::Speak { utterance } => Some(utterance),
    }
}

/// What a stand-in for the speech service answers to a body.
enum Reply {
    Refused,
    Status(u16),
    Clip(ClipLength),
}

/// What a run of the loop did.
struct Run {
    requests: Vec<String>,
    waits: Vec<ClipLength>,
    outcomes: Vec<Outcome>,
}

fn run_loop(lines: &[&str], service: fn(&str) -> Reply) -> Run {
    let config = settings();
    let mut run = Run { requests: Vec::new(), waits: Vec::new(), outcomes: Vec::new() };
    let mut input = lines.iter();
    loop {
        let utterance = match interpret_line(input.next().copied()) {
            LineAction::Quit => break,
            LineAction::Speak { utterance } => utterance,
        };
        let (mut processor, outbound) = match Processor::start(&config, &utterance) {
            Ok(started) => started,
            Err(error) => {
                run.outcomes.push(Outcome::Failed { error });
                continue;
            }
        };
        assert_eq!(outbound.method(), hyper::Method::POST);
        run.requests.push(processor.request().body.clone());
        let reply = service(&processor.request().body);
        let mut event = match reply {
            Reply::Refused => Event::TransportFailed,
            Reply::Status(status) => Event::Responded { status },
            Reply::Clip(_) => Event::Responded { status: 200 },
        };
        let outcome = loop {
            event = match processor.advance(event) {
                Action::ReadBody => Event::BodyRead,
                Action::Decode => match reply {
                    Reply::Clip(length) => Event::Decoded { length },
                    _ => Event::DecodeFailed,
                },
                Action::Play => Event::PlaybackAccepted,
                Action::Wait { length, .. } => {
                    run.waits.push(length);
                    Event::Woke
                }
                Action::Finish { outcome } => break outcome,
            };
        };
        run.outcomes.push(outcome);
        match after_outcome(outcome) {
            Control::ReadNext => {}
            Control::Stop => break,
        }
    }
    run
}

#[test]
fn trims_white_space_on_both_sides() {
    assert_eq!(trim("  hello world \r\n"), "hello world");
    assert_eq!(trim("hello"), "hello");
    assert_eq!(trim("\t\u{a0}a b\u{3000}\u{2028}"), "a b");
    assert_eq!(trim(""), "");
    assert_eq!(trim(" \n\t "), "");
    assert_eq!(trim("\u{200b}x"), "\u{200b}x");
}

#[test]
fn trim_agrees_with_the_standard_library() {
    for line in ["  a  ", "\u{85}b\u{1680}", "\u{2000}c\u{200a}", "\u{202f}d\u{205f}", "\u{b}e\u{c}", "\u{1c}f", "\u{180e}g"] {
        assert_eq!(trim(line), line.trim());
    }
}

#[test]
fn goodbye_in_any_case_ends_the_session() {
    for line in ["GOODBYE", "goodbye", "GoodBye", "gOoDbYe"] {
        assert!(ends_session(line));
        assert!(matches!(interpret_line(Some(line)), LineAction::Quit));
    }
}

#[test]
fn goodbye_with_white_space_around_ends_the_session() {
    assert!(matches!(interpret_line(Some("goodbye\n")), LineAction::Quit));
    assert!(matches!(interpret_line(Some("  GoodBye \r\n")), LineAction::Quit));
}

#[test]
fn other_lines_are_spoken() {
    assert_eq!(spoken("hello world\n"), Some(String::from("hello world")));
    assert_eq!(spoken("goodbye!\n"), Some(String::from("goodbye!")));
    assert_eq!(spoken("good bye"), Some(String::from("good bye")));
    assert_eq!(spoken("goodby"), Some(String::from("goodby")));
    assert_eq!(spoken("say goodbye"), Some(String::from("say goodbye")));
    assert_eq!(spoken("GOODBY\u{c9}"), Some(String::from("GOODBY\u{c9}")));
    assert_eq!(spoken("'OODBYE"), Some(String::from("'OODBYE")));
    assert!(!ends_session("goodbye "));
}

#[test]
fn an_empty_line_is_spoken() {
    assert_eq!(spoken("\n"), Some(String::new()));
    assert_eq!(spoken(""), Some(String::new()));
}

#[test]
fn end_of_input_ends_the_session() {
    assert!(matches!(interpret_line(None), LineAction::Quit));
}

#[test]
fn the_loop_reads_on_after_every_outcome() {
    assert_eq!(after_outcome(Outcome::Spoken), Control::ReadNext);
    assert_eq!(after_outcome(Outcome::Rejected { status: 500 }), Control::ReadNext);
    for error in [
        ProcessError::InvalidRequest,
        ProcessError::Transport,
        ProcessError::BodyRead,
        ProcessError::Decode,
        ProcessError::UnknownDuration,
        ProcessError::OutOfTurn,
    ] {
        assert_eq!(after_outcome(Outcome::Failed { error }), Control::ReadNext);
    }
}

#[test]
fn hello_world_then_goodbye() {
    let run = run_loop(&["hello world\n", "goodbye\n"], |_| {
        Reply::Clip(ClipLength { secs: 1, nanos: 0 })
    });
    assert_eq!(run.requests, vec![String::from("hello world")]);
    assert_eq!(run.waits, vec![ClipLength { secs: 1, nanos: 0 }]);
    assert_eq!(run.outcomes, vec![Outcome::Spoken]);
}

#[test]
fn a_refused_connection_does_not_end_the_loop() {
    let run = run_loop(&["first\n", "second\n"], |body| {
        if body == "first" {
            Reply::Refused
        } else {
            Reply::Clip(ClipLength { secs: 0, nanos: 250_000_000 })
        }
    });
    assert_eq!(run.requests, vec![String::from("first"), String::from("second")]);
    assert_eq!(
        run.outcomes,
        vec![Outcome::Failed { error: ProcessError::Transport }, Outcome::Spoken]
    );
    assert_eq!(run.waits, vec![ClipLength { secs: 0, nanos: 250_000_000 }]);
    assert_eq!(run.outcomes[0].into_result(), Err(ProcessError::Transport));
}

#[test]
fn a_bad_status_plays_nothing_and_the_loop_reads_on() {
    let run = run_loop(&["one\n", "two\n", "GOODBYE\n", "three\n"], |_| Reply::Status(503));
    assert_eq!(run.requests, vec![String::from("one"), String::from("two")]);
    assert!(run.waits.is_empty());
    assert_eq!(
        run.outcomes,
        vec![Outcome::Rejected { status: 503 }, Outcome::Rejected { status: 503 }]
    );
}

#[test]
fn nothing_is_requested_for_the_sentinel() {
    let run = run_loop(&["GoodBye\n", "hello\n"], |_| Reply::Status(200));
    assert!(run.requests.is_empty());
    assert!(run.outcomes.is_empty());
}
