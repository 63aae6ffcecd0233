//! The clipboard watcher's decisions. The watcher polls the system clipboard;
//! this state machine decides, at each poll, what to do and whether a text read
//! from the clipboard is recorded.
use vstd::prelude::*;

verus! {

/// Milliseconds between two polls of the clipboard.
pub const POLL_INTERVAL_MS: u64 = 650;

/// The event announced to the user interface after a capture was recorded.
pub const HISTORY_CHANGED_EVENT: &'static str = "clipboard-history-changed";

/// What the watcher does at a poll.
#[derive(Clone, Copy, Debug, PartialEq, Eq, Structural)]
pub enum MonitorStep {
    /// Monitoring is paused: do nothing until the next poll.
    Wait,
    /// The clipboard is not open: try to open it, and read nothing at this poll.
    OpenClipboard,
    /// Read the clipboard's text and hand it to `observe`.
    ReadText,
}

/// The step at a poll, given whether monitoring is paused and whether the
/// clipboard is open.
pub open spec fn spec_next_step(paused: bool, clipboard_ready: bool) -> MonitorStep {
    if paused {
        MonitorStep::Wait
    } else if !clipboard_ready {
        MonitorStep::OpenClipboard
    } else {
        MonitorStep::ReadText
    }
}

/// A text read from the clipboard is recorded when it is not empty and differs
/// from the text recorded last.
pub open spec fn spec_accepts(previous: Seq<char>, text: Seq<char>) -> bool {
    text.len() > 0 && text != previous
}

/// The text recorded last, after `text` was read.
pub open spec fn spec_after(previous: Seq<char>, text: Seq<char>) -> Seq<char> {
    if spec_accepts(previous, text) {
        text
    } else {
        previous
    }
}

/// The watcher's memory between polls: the text it recorded last.
pub struct ClipboardMonitor {
    previous: String,
}

impl ClipboardMonitor {
    /// The text recorded last (empty before the first capture).
    pub closed spec fn last_captured(&self) -> Seq<char> {
        self.previous@
    }

    /// A watcher that has recorded nothing yet.
    pub fn new() -> (monitor: Self)
        ensures
            monitor.last_captured() == Seq::<char>::empty(),
    {
        ClipboardMonitor { previous: String::new() }
    }

    /// What to do at a poll.
    pub fn next_step(&self, paused: bool, clipboard_ready: bool) -> (step: MonitorStep)
        ensures
            step == spec_next_step(paused, clipboard_ready),
    {
        if paused {
            MonitorStep::Wait
        } else if !clipboard_ready {
            MonitorStep::OpenClipboard
        } else {
            MonitorStep::ReadText
        }
    }

    /// Takes a text read from the clipboard; answers whether it is to be recorded.
    pub fn observe(&mut self, text: &str) -> (record: bool)
        ensures
            record == spec_accepts(old(self).last_captured(), text@),
            final(self).last_captured() == spec_after(old(self).last_captured(), text@),
    {
        if text.is_empty() || crate::text::str_eq(text, self.previous.as_str()) {
            return false;
        }
        self.previous = String::from_str(text);
        true
    }
}

/// A text is not recorded twice in a row: right after it was recorded, reading it
/// again records nothing.
pub proof fn lemma_repeat_not_recorded(previous: Seq<char>, text: Seq<char>)
    ensures
        !spec_accepts(spec_after(previous, text), text),
{
}

/// An empty clipboard text is never recorded, and leaves the memory unchanged.
pub proof fn lemma_empty_not_recorded(previous: Seq<char>)
    ensures
        !spec_accepts(previous, Seq::empty()),
        spec_after(previous, Seq::empty()) == previous,
{
}

/// While monitoring is paused, the clipboard is never opened nor read.
pub proof fn lemma_paused_reads_nothing(clipboard_ready: bool)
    ensures
        spec_next_step(true, clipboard_ready) == MonitorStep::Wait,
{
}

} // verus!
