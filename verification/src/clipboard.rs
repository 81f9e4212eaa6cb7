//! Clipboard change detection.

use crate::error::{AppError, AppErrorView};
use vstd::prelude::*;

verus! {

/// What a poll found to have happened to the clipboard.
#[derive(Debug, Clone, Copy, PartialEq, Eq, Structural)]
pub enum ClipboardEvent {
    /// The clipboard holds text that differs from the text seen last.
    Copy,
    /// The clipboard held text when it was last seen and holds none now.
    Clear,
    /// Nothing to show: the same text as before, or still no text.
    Unchanged,
}

/// What a poll reports to the host.
#[derive(Debug, PartialEq, Eq)]
pub struct ClipboardPayload {
    pub kind: ClipboardEvent,
    /// The text that the clipboard holds now, if it holds any.
    pub text: Option<String>,
}

/// What a `ClipboardPayload` holds, as text.
pub ghost struct ClipboardPayloadView {
    pub kind: ClipboardEvent,
    pub text: Option<Seq<char>>,
}

impl View for ClipboardPayload {
    type V = ClipboardPayloadView;

    open spec fn view(&self) -> ClipboardPayloadView {
        ClipboardPayloadView { kind: self.kind, text: self.text.deep_view() }
    }
}

/// `text` without its NUL characters.
pub open spec fn without_nul(text: Seq<char>) -> Seq<char> {
    text.filter(|c: char| c != '\0')
}

/// What the last character of a text adds to the text without NULs.
proof fn lemma_without_nul_last(text: Seq<char>)
    requires
        text.len() > 0,
    ensures
        without_nul(text) == if text.last() == '\0' {
            without_nul(text.drop_last())
        } else {
            without_nul(text.drop_last()).push(text.last())
        },
{
    reveal(Seq::filter);
}

/// A stretch that holds no NUL is kept as it is.
proof fn lemma_without_nul_stretch(text: Seq<char>, start: int, end: int)
    requires
        0 <= start <= end <= text.len(),
        forall|k: int| start <= k < end ==> text[k] != '\0',
    ensures
        without_nul(text.take(end)) == without_nul(text.take(start)) + text.subrange(start, end),
    decreases end - start,
{
    if start < end {
        lemma_without_nul_stretch(text, start, end - 1);
        lemma_without_nul_last(text.take(end));
        assert(text.take(end).drop_last() =~= text.take(end - 1));
    }
}

/// Removes every NUL character from `text`.
pub fn strip_nul(text: &str) -> (clean: String)
    ensures
        clean@ == without_nul(text@),
{
    let total: usize = text.unicode_len();
    let mut clean = String::new();
    let mut start: usize = 0;
    let mut at: usize = 0;
    proof {
        reveal(Seq::filter);
    }
    for c in it: text.chars()
        invariant
            it.seq() == text@,
            total == text@.len(),
            at == it.index(),
            start <= at,
            clean@ == without_nul(text@.take(start as int)),
            forall|k: int| start <= k < at ==> text@[k] != '\0',
    {
        if c == '\0' {
            proof {
                lemma_without_nul_stretch(text@, start as int, at as int);
                lemma_without_nul_last(text@.take(at + 1));
                assert(text@.take(at + 1).drop_last() =~= text@.take(at as int));
            }
            clean.append(text.substring_char(start, at));
            start = at + 1;
        }
        at = at + 1;
    }
    proof {
        lemma_without_nul_stretch(text@, start as int, at as int);
        assert(text@.take(at as int) =~= text@);
    }
    clean.append(text.substring_char(start, at));
    clean
}

/// The text that counts as the clipboard's content: the raw text without its
/// NUL characters, and no text at all where nothing is left of it.
pub open spec fn normalized(raw: Option<Seq<char>>) -> Option<Seq<char>> {
    match raw {
        Some(text) => if without_nul(text).len() == 0 {
            None
        } else {
            Some(without_nul(text))
        },
        None => None,
    }
}

/// The event that lies between the text seen last and the text seen now.
pub open spec fn event_between(
    previous: Option<Seq<char>>,
    current: Option<Seq<char>>,
) -> ClipboardEvent {
    match (previous, current) {
        (Some(before), Some(now)) => if before == now {
            ClipboardEvent::Unchanged
        } else {
            ClipboardEvent::Copy
        },
        (None, Some(_)) => ClipboardEvent::Copy,
        (Some(_), None) => ClipboardEvent::Clear,
        (None, None) => ClipboardEvent::Unchanged,
    }
}

/// Text as the watcher remembers and reports it: where there is text, it is
/// not empty and holds no NUL.
pub open spec fn is_content(text: Option<Seq<char>>) -> bool {
    text matches Some(t) ==> t.len() > 0 && !t.contains('\0')
}

/// Nothing is left of the NUL characters, and text without any is kept whole.
pub proof fn lemma_without_nul(text: Seq<char>)
    ensures
        !without_nul(text).contains('\0'),
        !text.contains('\0') ==> without_nul(text) == text,
{
    let clean = without_nul(text);
    if clean.contains('\0') {
        let i = choose|i: int| 0 <= i < clean.len() && clean[i] == '\0';
        text.lemma_filter_pred(|c: char| c != '\0', i);
    }
    if !text.contains('\0') {
        reveal(Seq::filter);
        lemma_without_nul_stretch(text, 0, text.len() as int);
        assert(without_nul(text.take(0)) + text.subrange(0, text.len() as int) =~= text);
    }
}

/// Normalized text is content, and content is its own normalized form.
pub proof fn lemma_normalized_is_content(raw: Option<Seq<char>>)
    ensures
        is_content(normalized(raw)),
        is_content(raw) ==> normalized(raw) == raw,
        normalized(normalized(raw)) == normalized(raw),
{
    if raw is Some {
        lemma_without_nul(raw->0);
        lemma_without_nul(without_nul(raw->0));
    }
}

/// Strips the NUL characters from the raw clipboard text. Text of which
/// nothing is left counts as no text.
pub fn normalize_text(raw: Option<String>) -> (current: Option<String>)
    ensures
        current.deep_view() == normalized(raw.deep_view()),
        is_content(current.deep_view()),
{
    proof {
        lemma_normalized_is_content(raw.deep_view());
    }
    match raw {
        Some(text) => {
            let clean = strip_nul(text.as_str());
            if clean.as_str().is_empty() {
                None
            } else {
                Some(clean)
            }
        },
        None => None,
    }
}

/// Compares the text seen last with the text seen now.
pub fn classify(previous: &Option<String>, current: &Option<String>) -> (event: ClipboardEvent)
    ensures
        event == event_between(previous.deep_view(), current.deep_view()),
{
    match (previous, current) {
        (Some(before), Some(now)) => {
            if *before == *now {
                ClipboardEvent::Unchanged
            } else {
                ClipboardEvent::Copy
            }
        },
        (None, Some(_)) => ClipboardEvent::Copy,
        (Some(_), None) => ClipboardEvent::Clear,
        (None, None) => ClipboardEvent::Unchanged,
    }
}

/// What the host learned when it turned to the clipboard, as text: the raw
/// text or none, or the message with which opening the clipboard failed.
pub open spec fn access_text(access: Result<Option<String>, String>) -> Result<
    Option<Seq<char>>,
    Seq<char>,
> {
    match access {
        Ok(raw) => Ok(raw.deep_view()),
        Err(detail) => Err(detail@),
    }
}

/// What a poll returns, as text.
pub open spec fn report_text(report: Result<ClipboardPayload, AppError>) -> Result<
    ClipboardPayloadView,
    AppErrorView,
> {
    match report {
        Ok(payload) => Ok(payload@),
        Err(error) => Err(error@),
    }
}

/// One poll: the text remembered after it, and what it reports.
///
/// A clipboard that could be opened gives the event between the remembered
/// text and the normalized current text, and the current text is remembered
/// from then on, whatever the event. A clipboard that could not be opened
/// gives an error and leaves the remembered text alone.
pub open spec fn poll_outcome(
    previous: Option<Seq<char>>,
    access: Result<Option<Seq<char>>, Seq<char>>,
) -> (Option<Seq<char>>, Result<ClipboardPayloadView, AppErrorView>) {
    match access {
        Ok(raw) => {
            let current = normalized(raw);
            (
                current,
                Ok(ClipboardPayloadView { kind: event_between(previous, current), text: current }),
            )
        },
        Err(detail) => (previous, Err(AppErrorView::ClipboardAccess(detail))),
    }
}

/// Remembers the clipboard text that was seen last, which is never empty
/// text. The host keeps one watcher for the whole process and lets one poll
/// at a time reach it.
pub struct ClipboardWatcher {
    previous: Option<String>,
}

impl View for ClipboardWatcher {
    type V = Option<Seq<char>>;

    /// The text seen last, if any.
    closed spec fn view(&self) -> Option<Seq<char>> {
        self.previous.deep_view()
    }
}

impl Default for ClipboardWatcher {
    fn default() -> (watcher: Self)
        ensures
            watcher@ is None,
    {
        ClipboardWatcher::new()
    }
}

impl ClipboardWatcher {
    #[verifier::type_invariant]
    spec fn remembers_content(self) -> bool {
        is_content(self@)
    }

    /// A watcher that has seen no text yet.
    pub fn new() -> (watcher: Self)
        ensures
            watcher@ is None,
    {
        ClipboardWatcher { previous: None }
    }

    /// The text seen last, if any.
    pub fn previous(&self) -> (text: &Option<String>)
        ensures
            text.deep_view() == self@,
            is_content(self@),
    {
        proof {
            use_type_invariant(self);
        }
        &self.previous
    }

    /// Takes what the host learned from the clipboard: `Ok` with the raw text,
    /// or with none where the clipboard holds no text, and `Err` with the
    /// message where the clipboard could not be opened.
    pub fn poll(&mut self, access: Result<Option<String>, String>) -> (report: Result<
        ClipboardPayload,
        AppError,
    >)
        ensures
            (final(self)@, report_text(report)) == poll_outcome(old(self)@, access_text(access)),
            access is Err ==> *final(self) == *old(self),
            is_content(final(self)@),
    {
        proof {
            use_type_invariant(&*self);
        }
        match access {
            Ok(raw) => {
                let current = normalize_text(raw);
                let kind = classify(&self.previous, &current);
                self.previous = current.clone();
                Ok(ClipboardPayload { kind, text: current })
            },
            Err(detail) => Err(AppError::ClipboardAccess(detail)),
        }
    }
}

/// A poll that could not open the clipboard goes unnoticed: the poll after it
/// reports, and remembers, what it would have had the failed poll never been
/// made.
pub proof fn lemma_failed_poll_leaves_no_trace(
    previous: Option<Seq<char>>,
    detail: Seq<char>,
    next: Result<Option<Seq<char>>, Seq<char>>,
)
    ensures
        poll_outcome(previous, Err(detail)).0 == previous,
        poll_outcome(poll_outcome(previous, Err(detail)).0, next) == poll_outcome(previous, next),
{
}

/// After a poll that could not open the clipboard, a poll that reads the text
/// that was remembered before it reports no change.
pub proof fn lemma_same_text_after_failed_poll(previous: Option<Seq<char>>, detail: Seq<char>)
    requires
        is_content(previous),
    ensures
        poll_outcome(poll_outcome(previous, Err(detail)).0, Ok(previous)) == (
            previous,
            Ok::<ClipboardPayloadView, AppErrorView>(
                ClipboardPayloadView { kind: ClipboardEvent::Unchanged, text: previous },
            ),
        ),
{
    lemma_normalized_is_content(previous);
}

/// Whatever a poll learns, the text remembered after it is content, provided
/// that the text remembered before it was.
pub proof fn lemma_poll_remembers_content(
    previous: Option<Seq<char>>,
    access: Result<Option<Seq<char>>, Seq<char>>,
)
    requires
        is_content(previous),
    ensures
        is_content(poll_outcome(previous, access).0),
{
    if access is Ok {
        lemma_normalized_is_content(access->Ok_0);
    }
}

/// Reading the same raw text twice in a row reports no change the second
/// time, whatever was remembered before.
pub proof fn lemma_same_text_again_is_unchanged(
    previous: Option<Seq<char>>,
    raw: Option<Seq<char>>,
)
    ensures
        poll_outcome(poll_outcome(previous, Ok(raw)).0, Ok(raw)).1 == Ok::<
            ClipboardPayloadView,
            AppErrorView,
        >(ClipboardPayloadView { kind: ClipboardEvent::Unchanged, text: normalized(raw) }),
{
}

/// A poll reports `Copy` exactly when the clipboard holds text that differs
/// from the remembered text, and `Clear` exactly when text was remembered and
/// the clipboard holds none.
pub proof fn lemma_event_meaning(previous: Option<Seq<char>>, current: Option<Seq<char>>)
    ensures
        event_between(previous, current) == ClipboardEvent::Copy <==> current is Some && current
            != previous,
        event_between(previous, current) == ClipboardEvent::Clear <==> previous is Some
            && current is None,
        event_between(previous, current) == ClipboardEvent::Unchanged <==> current == previous,
{
}

} // verus!
