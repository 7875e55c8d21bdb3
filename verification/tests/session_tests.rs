use linefilter::filter::FilterState;
use linefilter::session::{Action, Event, Session};

#[test]
fn filter_edits_replay_to_empty() {
    let mut f = FilterState::new("");
    f.append_char('a');
    f.append_char('b');
    f.append_char('c');
    assert_eq!(f.get(), "abc");
    f.pop_last();
    f.pop_last();
    f.pop_last();
    assert_eq!(f.get(), "");
}

#[test]
fn filter_single_backspace() {
    let mut f = FilterState::new("");
    f.append_char('a');
    f.append_char('b');
    f.append_char('c');
    f.pop_last();
    assert_eq!(f.get(), "ab");
}

#[test]
fn backspace_on_empty_filter_is_a_no_op() {
    let mut f = FilterState::new("");
    f.pop_last();
    assert_eq!(f.get(), "");
}

#[test]
fn keystrokes_edit_the_term() {
    let mut s = Session::new("");
    assert!(matches!(s.step(Event::Key(b'a')), Action::RedrawStatus));
    assert!(matches!(s.step(Event::Key(b'b')), Action::RedrawStatus));
    assert!(matches!(s.step(Event::Key(b'c')), Action::RedrawStatus));
    assert_eq!(s.term(), "abc");
    assert!(matches!(s.step(Event::Key(8)), Action::RedrawStatus));
    assert!(matches!(s.step(Event::Key(127)), Action::RedrawStatus));
    assert!(matches!(s.step(Event::Key(8)), Action::RedrawStatus));
    assert_eq!(s.term(), "");
    // a backspace on an empty term asks for nothing
    assert!(matches!(s.step(Event::Key(8)), Action::Idle));
    // a non-printable byte outside the erase and quit codes is ignored
    assert!(matches!(s.step(Event::Key(1)), Action::Idle));
    assert_eq!(s.term(), "");
}

#[test]
fn piped_line_is_emitted_highlighted() {
    let mut s = Session::new("stream");
    match s.step(Event::PipedLine("this is a stream of data".to_string())) {
        Action::EmitLine(out) => {
            assert_eq!(out, format!("this is a {} of data", "\x1B[37;101mstream\x1B[0m"));
        }
        _ => panic!("a piped line must be emitted"),
    }
    assert!(!s.is_shut_down());
}

#[test]
fn piped_lines_keep_arrival_order() {
    let mut s = Session::new("stream");
    let inputs = ["line1", "line2", "stream", "q"];
    let mut outputs = Vec::new();
    for line in inputs {
        match s.step(Event::PipedLine(line.to_string())) {
            Action::EmitLine(out) => outputs.push(out),
            _ => panic!("a piped line must be emitted"),
        }
    }
    let expected = vec![
        "line1".to_string(),
        "line2".to_string(),
        "\x1B[37;101mstream\x1B[0m".to_string(),
        "q".to_string(),
    ];
    assert_eq!(outputs, expected);
}

#[test]
fn quit_key_shuts_down_once() {
    let mut s = Session::new("stream");
    assert!(matches!(s.step(Event::Key(b'q')), Action::AnnounceQuit));
    assert!(s.is_shut_down());
    // the second trigger, from the other side, is a harmless no-op
    assert!(matches!(s.step(Event::PipeEnded), Action::Idle));
    assert!(s.is_shut_down());
    // cleanup is handed out exactly once
    assert!(s.finish());
    assert!(!s.finish());
}

#[test]
fn pipe_end_shuts_down_once() {
    let mut s = Session::new("stream");
    assert!(matches!(s.step(Event::PipeEnded), Action::Idle));
    assert!(s.is_shut_down());
    assert!(matches!(s.step(Event::Key(b'q')), Action::Idle));
    assert!(s.finish());
    assert!(!s.finish());
}

#[test]
fn no_data_after_shutdown() {
    let mut s = Session::new("stream");
    assert!(matches!(s.step(Event::Key(b'q')), Action::AnnounceQuit));
    // a line still buffered upstream is not emitted once shutdown has fired
    assert!(matches!(
        s.step(Event::PipedLine("late stream data".to_string())),
        Action::Idle
    ));
    // and no further filter mutation is applied
    assert!(matches!(s.step(Event::Key(b'x')), Action::Idle));
    assert_eq!(s.term(), "stream");
}
