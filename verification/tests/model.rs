use readline::callback::{CallbackState, InputEvent};
use readline::codec;
use readline::expand::classify_expansion;
use readline::history::History;

fn collected(h: &mut History) -> Vec<String> {
    h.history()
}

#[test]
fn end_of_input_is_none() {
    assert_eq!(codec::c_str_to_string(None), None);
}

#[test]
fn returned_buffer_is_decoded() {
    let buf = b"hello\0".to_vec();
    assert_eq!(codec::c_str_to_string(Some(buf)), Some("hello".to_string()));
}

#[test]
fn decode_stops_at_first_nul() {
    let buf = b"hi\0trailing".to_vec();
    assert_eq!(codec::decode_line(&buf), "hi".to_string());
}

#[test]
fn decode_without_terminator_takes_all() {
    let buf = b"hi".to_vec();
    assert_eq!(codec::decode_line(&buf), "hi".to_string());
}

#[test]
fn decode_is_lossy_on_invalid_utf8() {
    let buf = vec![0xffu8, b'h', 0];
    assert_eq!(codec::decode_line(&buf), "\u{fffd}h".to_string());
}

#[test]
fn frame_appends_one_terminator() {
    assert_eq!(codec::frame("hello"), Some(b"hello\0".to_vec()));
    assert_eq!(codec::frame(""), Some(b"\0".to_vec()));
}

#[test]
fn frame_rejects_embedded_nul() {
    assert_eq!(codec::frame("a\0b"), None);
}

#[test]
fn round_trip_ascii() {
    let text = "ls -l /tmp";
    let wire = codec::frame(text).unwrap();
    let back = codec::decode_line(&wire);
    assert_eq!(back, text);
    assert_eq!(codec::frame(&back).unwrap(), wire);
}

#[test]
fn round_trip_multibyte_utf8() {
    let text = "héllo wörld ☕";
    let wire = codec::frame(text).unwrap();
    let back = codec::decode_line(&wire);
    assert_eq!(back, text);
    assert_eq!(codec::frame(&back).unwrap(), wire);
}

#[test]
fn added_line_is_last() {
    let mut h = History::new();
    h.add_history("ls");
    h.add_history("pwd");
    let lines = collected(&mut h);
    assert_eq!(lines, vec!["ls".to_string(), "pwd".to_string()]);
    assert_eq!(lines.last().unwrap(), "pwd");
}

#[test]
fn stifle_keeps_two_most_recent() {
    let mut h = History::new();
    h.stifle_history(2);
    h.add_history("a");
    h.add_history("b");
    h.add_history("c");
    assert_eq!(collected(&mut h), vec!["b".to_string(), "c".to_string()]);
}

#[test]
fn stifle_zero_keeps_nothing() {
    let mut h = History::new();
    h.add_history("a");
    h.stifle_history(0);
    assert_eq!(collected(&mut h), Vec::<String>::new());
    h.add_history("b");
    assert_eq!(collected(&mut h), Vec::<String>::new());
}

#[test]
fn stifle_truncates_existing_lines() {
    let mut h = History::new();
    h.add_history("a");
    h.add_history("b");
    h.add_history("c");
    h.stifle_history(1);
    assert_eq!(collected(&mut h), vec!["c".to_string()]);
}

#[test]
fn stifled_flag_lifecycle() {
    let mut h = History::new();
    assert!(!h.history_is_stifled());
    h.stifle_history(7);
    assert!(h.history_is_stifled());
    assert_eq!(h.unstifle_history(), Some(7));
    assert!(!h.history_is_stifled());
    assert_eq!(h.unstifle_history(), None);
}

#[test]
fn expand_bang_bang_yields_most_recent() {
    let mut h = History::new();
    h.add_history("ls");
    h.add_history("pwd");
    assert_eq!(h.history_expand("!!"), Ok(Some("pwd".to_string())));
}

#[test]
fn expand_plain_input_is_untouched() {
    let mut h = History::new();
    h.add_history("ls");
    assert_eq!(h.history_expand("echo hi"), Ok(None));
}

#[test]
fn expand_on_empty_store_fails() {
    let h = History::new();
    assert_eq!(h.history_expand("!!"), Err("!!".to_string()));
}

#[test]
fn classify_status_zero_keeps_input() {
    assert_eq!(classify_expansion(0, "x".to_string()), Ok(None));
}

#[test]
fn classify_positive_status_is_expansion() {
    assert_eq!(classify_expansion(1, "x".to_string()), Ok(Some("x".to_string())));
    assert_eq!(classify_expansion(3, "y".to_string()), Ok(Some("y".to_string())));
}

#[test]
fn classify_failure_statuses_surface_text() {
    assert_eq!(classify_expansion(-1, "bad".to_string()), Err("bad".to_string()));
    assert_eq!(classify_expansion(2, "shown".to_string()), Err("shown".to_string()));
}

#[test]
fn cursor_walk_backward_then_forward() {
    let mut h = History::new();
    h.add_history("one");
    h.add_history("two");
    assert_eq!(h.previous_history(), Some("two".to_string()));
    assert_eq!(h.previous_history(), Some("one".to_string()));
    assert_eq!(h.previous_history(), None);
    assert_eq!(h.next_history(), Some("one".to_string()));
    assert_eq!(h.next_history(), Some("two".to_string()));
    assert_eq!(h.next_history(), None);
}

#[test]
fn history_leaves_store_unchanged() {
    let mut h = History::new();
    h.add_history("keep");
    assert_eq!(collected(&mut h), vec!["keep".to_string()]);
    assert_eq!(collected(&mut h), vec!["keep".to_string()]);
}

#[test]
fn one_line_delivers_handler_once() {
    let mut cb = CallbackState::new();
    assert!(!cb.is_installed());
    cb.install_handler();
    assert!(cb.is_installed());
    let mut invocations: Vec<Option<String>> = Vec::new();
    for event in [
        InputEvent::Byte(b'h'),
        InputEvent::Byte(b'i'),
        InputEvent::Byte(b'\n'),
    ] {
        if let Some(delivery) = cb.read_char(event) {
            invocations.push(delivery);
        }
    }
    assert_eq!(invocations, vec![Some("hi".to_string())]);
}

#[test]
fn end_of_input_delivers_none() {
    let mut cb = CallbackState::new();
    cb.install_handler();
    assert_eq!(cb.read_char(InputEvent::EndOfInput), Some(None));
}

#[test]
fn next_line_starts_fresh_after_delivery() {
    let mut cb = CallbackState::new();
    cb.install_handler();
    assert_eq!(cb.read_char(InputEvent::Byte(b'a')), None);
    assert_eq!(cb.read_char(InputEvent::Byte(b'\n')), Some(Some("a".to_string())));
    assert_eq!(cb.read_char(InputEvent::Byte(b'b')), None);
    assert_eq!(cb.read_char(InputEvent::Byte(b'\n')), Some(Some("b".to_string())));
}

#[test]
fn remove_handler_disengages() {
    let mut cb = CallbackState::new();
    cb.install_handler();
    cb.remove_handler();
    assert!(!cb.is_installed());
}

#[test]
fn reinstall_replaces_and_clears_pending() {
    let mut cb = CallbackState::new();
    cb.install_handler();
    assert_eq!(cb.read_char(InputEvent::Byte(b'x')), None);
    cb.install_handler();
    assert_eq!(cb.read_char(InputEvent::Byte(b'\n')), Some(Some("".to_string())));
}
