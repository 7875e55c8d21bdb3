use linefilter::ansi::{push_cursor_to_row, push_decimal, reset_scroll_region, set_scroll_region_on_term};
use linefilter::status::{filter_status_line, StatusArea};
use linefilter::term_mode::{ModeGuard, TermMode};

#[test]
fn decimal_rendering_is_exact() {
    let mut s = String::new();
    push_decimal(&mut s, 0);
    assert_eq!(s, "0");
    let mut s = String::new();
    push_decimal(&mut s, 7);
    assert_eq!(s, "7");
    let mut s = String::new();
    push_decimal(&mut s, 10);
    assert_eq!(s, "10");
    let mut s = String::new();
    push_decimal(&mut s, 305);
    assert_eq!(s, "305");
    let mut s = String::new();
    push_decimal(&mut s, 65535);
    assert_eq!(s, "65535");
}

#[test]
fn scroll_region_sequence_is_exact() {
    let mut s = String::new();
    set_scroll_region_on_term(&mut s, 0, 20);
    assert_eq!(s, "\x1B[1;21r");
}

#[test]
fn reset_scroll_region_sequence_is_exact() {
    let mut s = String::new();
    reset_scroll_region(&mut s);
    assert_eq!(s, "\x1B[0r");
}

#[test]
fn cursor_to_row_sequence_is_exact() {
    let mut s = String::new();
    push_cursor_to_row(&mut s, 22);
    assert_eq!(s, "\x1B[22;1H");
}

#[test]
fn filter_status_line_is_exact() {
    assert_eq!(
        filter_status_line("stream"),
        "Filter [\x1B[37;101mstream\x1B[44m]"
    );
}

#[test]
fn redraw_sequence_follows_the_protocol() {
    let mut area = StatusArea::new();
    area.update(1, "Filter [stream]");
    let seq = area.redraw_sequence(24);
    // save the cursor; move to the first status row; status background;
    // clear the three rows; back to the first status row; the three lines,
    // the middle one holding the filter; scroll region above the status
    // area; restore the cursor; reset the rendition.
    let expected = "\x1B[s\x1B[22;1H\x1B[44m\x1B[2K\x1B[1B\x1B[2K\x1B[1B\x1B[2K\x1B[1B\x1B[22;1H\nFilter [stream]\n\n\x1B[1;21r\x1B[u\x1B[0m";
    assert_eq!(seq, expected);
}

#[test]
fn update_outside_the_three_rows_changes_nothing() {
    let mut area = StatusArea::new();
    area.update(1, "kept");
    let before = area.redraw_sequence(24);
    area.update(3, "dropped");
    let after = area.redraw_sequence(24);
    assert_eq!(before, after);
}

#[test]
fn update_replaces_a_line_whole() {
    let mut area = StatusArea::new();
    area.update(0, "first");
    area.update(0, "second");
    let seq = area.redraw_sequence(24);
    assert!(seq.contains("second\n"));
    assert!(!seq.contains("first"));
}

#[test]
fn mode_is_restored_exactly_once() {
    let captured = TermMode { canonical: true, echo: true };
    let (mut guard, raw) = ModeGuard::enter_raw(captured);
    assert_eq!(raw, TermMode { canonical: false, echo: false });
    // the first exit path to release is handed back the captured fields
    assert_eq!(guard.release(), Some(captured));
    // every later attempt is handed nothing
    assert_eq!(guard.release(), None);
    assert_eq!(guard.release(), None);
}

#[test]
fn release_preserves_captured_fields() {
    let captured = TermMode { canonical: true, echo: false };
    let (mut guard, _) = ModeGuard::enter_raw(captured);
    let restored = guard.release().unwrap();
    assert_eq!(restored.canonical, captured.canonical);
    assert_eq!(restored.echo, captured.echo);
}
