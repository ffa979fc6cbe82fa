//! Notification events for the presentation layer's toast sink, and the
//! exact messages the exchange operations emit.

use vstd::prelude::*;
use vstd::string::StringExecFns;

verus! {

/// What a notification reports.  The exchange engine itself only ever emits
/// `Success`; decode failures are reported per file and codec defects are
/// propagated as errors, never as notifications.
#[derive(Clone, Copy, PartialEq, Eq, Structural, Debug)]
pub enum NotifyKind {
    Success,
    Error,
}

/// One notification event: kind, text, display duration and whether the
/// toast shows a progress bar.
#[derive(Debug)]
pub struct Notification {
    pub kind: NotifyKind,
    pub text: String,
    pub duration_millis: u64,
    pub show_progress: bool,
}

/// The message emitted when a record's metadata chunk was copied.
pub open spec fn spec_copied_message(name: Seq<char>) -> Seq<char> {
    "Copied metadata for "@ + name
}

/// The message emitted once a paste's bytes were handed over and saved.
pub open spec fn spec_downloaded_message(name: Seq<char>) -> Seq<char> {
    "Downloaded "@ + name
}

pub fn copied_message(name: &str) -> (r: String)
    ensures
        r@ == spec_copied_message(name@),
{
    String::from_str("Copied metadata for ").concat(name)
}

pub fn downloaded_message(name: &str) -> (r: String)
    ensures
        r@ == spec_downloaded_message(name@),
{
    String::from_str("Downloaded ").concat(name)
}

impl Notification {
    /// A success notification with the given text and duration; every toast
    /// the exchange engine emits shows a progress bar.
    pub fn success(text: String, duration_millis: u64) -> (n: Self)
        ensures
            n.kind is Success,
            n.text == text,
            n.duration_millis == duration_millis,
            n.show_progress,
    {
        Notification { kind: NotifyKind::Success, text, duration_millis, show_progress: true }
    }
}

} // verus!
