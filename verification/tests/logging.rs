use companion::logging::{render_line, render_text, CapturingWriter, LogSnapshot, LogStore, MAX_LOG_BYTES, MAX_LOG_LINES};

#[test]
fn snapshots_start_empty_and_revision_changes_only_for_visible_content() {
    let mut store = LogStore::new();
    assert_eq!(store.snapshot(), LogSnapshot::default());
    store.push_line("first");
    let first = store.snapshot();
    assert_eq!(first.text, "first\n");
    assert_eq!(first.revision, 1);
    assert_eq!(store.snapshot().revision, first.revision);
}

#[test]
fn revision_does_not_change_when_eviction_leaves_visible_text_unchanged() {
    let mut store = LogStore::new();
    for _ in 0..=MAX_LOG_LINES {
        store.push_line("same");
    }
    let revision = store.revision();
    store.push_line("same");
    assert_eq!(store.revision(), revision);
    assert_eq!(store.snapshot().text.lines().count(), MAX_LOG_LINES);
}

#[test]
fn complete_lines_are_ordered_and_oldest_lines_are_evicted() {
    let mut store = LogStore::new();
    for index in 0..=MAX_LOG_LINES {
        store.push_line(&format!("line-{index}"));
    }
    let snapshot = store.snapshot();
    assert!(!snapshot.text.contains("line-0\n"));
    assert!(snapshot.text.starts_with("line-1\n"));
    assert!(snapshot.text.ends_with(&format!("line-{MAX_LOG_LINES}\n")));
    assert_eq!(snapshot.text.lines().count(), MAX_LOG_LINES);
}

#[test]
fn byte_bound_evicts_oldest_complete_lines() {
    let mut store = LogStore::new();
    let line = "x".repeat(1023);
    let count = MAX_LOG_BYTES / (line.len() + 1) + 2;
    for index in 0..count {
        store.push_line(&format!("{line}{index}"));
    }
    let snapshot = store.snapshot();
    assert!(snapshot.text.len() <= MAX_LOG_BYTES);
    assert!(snapshot.text.lines().count() < count);
    assert!(snapshot.text.contains(&format!("{line}{}", count - 1)));
}

#[test]
fn oversized_multibyte_line_is_valid_utf8_and_marked() {
    let mut store = LogStore::new();
    store.push_line(&"界".repeat(MAX_LOG_BYTES));
    let snapshot = store.snapshot();
    assert!(snapshot.text.len() <= MAX_LOG_BYTES);
    assert!(snapshot.text.contains("[truncated]"));
    assert!(std::str::from_utf8(snapshot.text.as_bytes()).is_ok());
}

#[test]
fn writer_assembles_fragments_and_multiple_crlf_records() {
    let mut store = LogStore::new();
    let mut writer = CapturingWriter::new();
    writer.write(&mut store, b"one\r\ntw");
    assert_eq!(store.snapshot().text, "one\n");
    writer.write(&mut store, b"o\r\nthree\nfour");
    assert_eq!(store.snapshot().text, "one\ntwo\nthree\n");
    writer.write(&mut store, b"\n");
    assert_eq!(store.snapshot().text, "one\ntwo\nthree\nfour\n");
}

#[test]
fn writer_bounds_incomplete_fragment_and_waits_for_newline() {
    let mut store = LogStore::new();
    let mut writer = CapturingWriter::new();
    writer.write(&mut store, &vec![b'a'; MAX_LOG_BYTES + 32]);
    assert!(store.snapshot().text.is_empty());
    writer.write(&mut store, b"\n");
    let snapshot = store.snapshot();
    assert!(snapshot.text.contains("[truncated]"));
}

#[test]
fn writer_capture_survives_failing_tee() {
    let mut store = LogStore::new();
    let mut writer = CapturingWriter::new();
    assert_eq!(writer.write(&mut store, b"captured\n"), 9);
    assert_eq!(store.snapshot().text, "captured\n");
}

#[test]
fn rendering_adds_the_line_end() {
    assert_eq!(render_text("plain", false), "plain\n");
    assert_eq!(render_line(b"bytes", false), "bytes\n");
}

#[test]
fn forced_truncation_marks_short_lines() {
    assert_eq!(render_text("short", true), "short …[truncated]\n");
}

#[test]
fn invalid_utf8_is_replaced_in_rendered_lines() {
    assert_eq!(render_line(&[b'a', 0xff, b'b'], false), "a\u{fffd}b\n");
}

#[test]
fn only_one_carriage_return_is_dropped() {
    let mut store = LogStore::new();
    let mut writer = CapturingWriter::new();
    assert_eq!(writer.write(&mut store, b"x\r\r\n"), 4);
    assert_eq!(store.snapshot().text, "x\r\n");
}

#[test]
fn appending_keeps_the_newest_line_within_bounds() {
    let mut store = LogStore::new();
    for index in 0..(MAX_LOG_LINES + 5) {
        store.push_line(&format!("entry {index}"));
        let text = store.snapshot().text;
        assert!(text.ends_with(&format!("entry {index}\n")));
        assert!(text.len() <= MAX_LOG_BYTES);
    }
}

#[test]
fn revision_wraps_only_on_visible_change() {
    let mut store = LogStore::new();
    store.push_line("a");
    store.push_line("b");
    assert_eq!(store.revision(), 2);
    assert_eq!(store.snapshot().text, "a\nb\n");
}
