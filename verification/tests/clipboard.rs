use clip_pop::clipboard::{
    classify, normalize_text, strip_nul, ClipboardEvent, ClipboardPayload, ClipboardWatcher,
};
use clip_pop::error::AppError;

fn text(s: &str) -> Option<String> {
    Some(s.to_string())
}

fn feed(watcher: &mut ClipboardWatcher, raw: &str) -> ClipboardPayload {
    watcher.poll(Ok(text(raw))).expect("the clipboard was opened")
}

#[test]
fn clipboard_sequence_of_events() {
    let mut watcher = ClipboardWatcher::new();
    assert_eq!(watcher.previous(), &None);
    let mut events = Vec::new();
    for raw in ["", "hello", "hello", "", "world"] {
        events.push(feed(&mut watcher, raw).kind);
    }
    assert_eq!(
        events,
        vec![
            ClipboardEvent::Unchanged,
            ClipboardEvent::Copy,
            ClipboardEvent::Unchanged,
            ClipboardEvent::Clear,
            ClipboardEvent::Copy,
        ]
    );
    assert_eq!(watcher.previous(), &text("world"));
}

#[test]
fn payload_carries_the_current_text() {
    let mut watcher = ClipboardWatcher::new();
    assert_eq!(
        feed(&mut watcher, "hello"),
        ClipboardPayload { kind: ClipboardEvent::Copy, text: text("hello") }
    );
    assert_eq!(
        feed(&mut watcher, "hello"),
        ClipboardPayload { kind: ClipboardEvent::Unchanged, text: text("hello") }
    );
    assert_eq!(
        feed(&mut watcher, "other"),
        ClipboardPayload { kind: ClipboardEvent::Copy, text: text("other") }
    );
    assert_eq!(
        feed(&mut watcher, ""),
        ClipboardPayload { kind: ClipboardEvent::Clear, text: None }
    );
    assert_eq!(
        feed(&mut watcher, ""),
        ClipboardPayload { kind: ClipboardEvent::Unchanged, text: None }
    );
}

#[test]
fn clipboard_without_text_counts_as_empty() {
    let mut watcher = ClipboardWatcher::new();
    assert_eq!(
        watcher.poll(Ok(None)),
        Ok(ClipboardPayload { kind: ClipboardEvent::Unchanged, text: None })
    );
    feed(&mut watcher, "hello");
    assert_eq!(
        watcher.poll(Ok(None)),
        Ok(ClipboardPayload { kind: ClipboardEvent::Clear, text: None })
    );
    assert_eq!(watcher.previous(), &None);
}

#[test]
fn failed_access_leaves_the_baseline() {
    let mut watcher = ClipboardWatcher::new();
    feed(&mut watcher, "hello");

    let failed = watcher.poll(Err("clipboard is occupied".to_string()));
    assert_eq!(failed, Err(AppError::ClipboardAccess("clipboard is occupied".to_string())));
    assert_eq!(watcher.previous(), &text("hello"));

    let mut untouched = ClipboardWatcher::new();
    feed(&mut untouched, "hello");
    assert_eq!(feed(&mut watcher, "hello"), feed(&mut untouched, "hello"));
    assert_eq!(feed(&mut watcher, "hello").kind, ClipboardEvent::Unchanged);
}

#[test]
fn failed_access_on_a_fresh_watcher() {
    let mut watcher = ClipboardWatcher::new();
    assert!(watcher.poll(Err("no display".to_string())).is_err());
    assert_eq!(watcher.previous(), &None);
    assert_eq!(feed(&mut watcher, "hello").kind, ClipboardEvent::Copy);
}

#[test]
fn nul_characters_are_stripped() {
    assert_eq!(strip_nul("he\0llo\0"), "hello");
    assert_eq!(strip_nul("\0\0"), "");
    assert_eq!(strip_nul(""), "");
    assert_eq!(strip_nul("plain"), "plain");
    assert_eq!(strip_nul("\0a\0\0b"), "ab");
    assert_eq!(strip_nul("gr\u{fc}\u{df}e\0 \u{4e16}\u{754c}"), "gr\u{fc}\u{df}e \u{4e16}\u{754c}");
}

#[test]
fn text_of_nothing_but_nul_counts_as_empty() {
    assert_eq!(normalize_text(text("\0\0\0")), None);
    assert_eq!(normalize_text(text("")), None);
    assert_eq!(normalize_text(None), None);
    assert_eq!(normalize_text(text("a\0")), text("a"));
    assert_eq!(normalize_text(text(" ")), text(" "));

    let mut watcher = ClipboardWatcher::new();
    feed(&mut watcher, "hello");
    assert_eq!(
        feed(&mut watcher, "\0"),
        ClipboardPayload { kind: ClipboardEvent::Clear, text: None }
    );
}

#[test]
fn text_that_differs_only_by_nul_is_the_same_text() {
    let mut watcher = ClipboardWatcher::new();
    feed(&mut watcher, "hello");
    assert_eq!(
        feed(&mut watcher, "hel\0lo"),
        ClipboardPayload { kind: ClipboardEvent::Unchanged, text: text("hello") }
    );
}

#[test]
fn classify_covers_the_four_cases() {
    assert_eq!(classify(&text("a"), &text("a")), ClipboardEvent::Unchanged);
    assert_eq!(classify(&text("a"), &text("b")), ClipboardEvent::Copy);
    assert_eq!(classify(&None, &text("b")), ClipboardEvent::Copy);
    assert_eq!(classify(&text("a"), &None), ClipboardEvent::Clear);
    assert_eq!(classify(&None, &None), ClipboardEvent::Unchanged);
}

#[test]
fn watcher_never_remembers_empty_text() {
    let mut watcher = ClipboardWatcher::new();
    for raw in ["", "\0", "a", "\0\0", "b\0", ""] {
        feed(&mut watcher, raw);
        match watcher.previous() {
            Some(remembered) => {
                assert!(!remembered.is_empty());
                assert!(!remembered.contains('\0'));
            }
            None => {}
        }
    }
}
