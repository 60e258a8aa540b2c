//! What the process says: the line for a change of a book, the warning for a
//! diagnostic, and the exit status for the end of the watch.

use vstd::prelude::*;
use vstd::string::StringExecFns;
use crate::event::ChangeEvent;
use crate::event::EventKind;
use crate::informer::Diagnostic;
use crate::informer::StopReason;
use crate::resource::Book;

verus! {

/// The line that announces a change of a book: its name and title when it
/// was added, its name when it was deleted, and no more than that there was
/// an event for every other kind.
pub open spec fn announcement(event: ChangeEvent<Book>) -> Seq<char> {
    match event.kind {
        EventKind::Added => "Added a book "@ + event.payload.metadata.name@ + " with title '"@
            + event.payload.spec.title@ + "'"@,
        EventKind::Deleted => "Deleted a book "@ + event.payload.metadata.name@,
        _ => "another event"@,
    }
}

/// The warning that a diagnostic is reported with. For a gap it names the
/// kind and the namespace of the collection.
pub open spec fn warning_text(diagnostic: Diagnostic) -> Seq<char> {
    match diagnostic {
        Diagnostic::Gap { kind, namespace } => "watch of "@ + kind@ + " in namespace "@
            + namespace@ + " resumes from the current state: changes may have been missed"@,
        Diagnostic::HandlerFailed(error) => "handler failed: "@ + error.message@,
    }
}

/// The exit status of the process: 0 after cancellation, and a status of
/// its own for each way to fail.
pub open spec fn status_of(reason: StopReason) -> u8 {
    match reason {
        StopReason::Cancelled => 0,
        StopReason::Fatal => 1,
        StopReason::RetriesExhausted => 2,
    }
}

/// The description that the process ends with.
pub open spec fn description_of(reason: StopReason) -> Seq<char> {
    match reason {
        StopReason::Cancelled => "the watch was cancelled"@,
        StopReason::Fatal => "the watch failed and cannot be recovered"@,
        StopReason::RetriesExhausted => "the watch could not be opened again: no attempts left"@,
    }
}

/// Says what happened to a book. The caller prints the line.
pub fn handle(event: &ChangeEvent<Book>) -> (line: String)
    ensures
        line@ == announcement(*event),
{
    match event.kind {
        EventKind::Added => {
            let mut line = String::from_str("Added a book ");
            line.append(event.payload.metadata.name.as_str());
            line.append(" with title '");
            line.append(event.payload.spec.title.as_str());
            line.append("'");
            line
        },
        EventKind::Deleted => {
            let mut line = String::from_str("Deleted a book ");
            line.append(event.payload.metadata.name.as_str());
            line
        },
        _ => String::from_str("another event"),
    }
}

/// The warning that `diagnostic` is reported with.
pub fn warning(diagnostic: &Diagnostic) -> (line: String)
    ensures
        line@ == warning_text(*diagnostic),
{
    match diagnostic {
        Diagnostic::Gap { kind, namespace } => {
            let mut line = String::from_str("watch of ");
            line.append(kind.as_str());
            line.append(" in namespace ");
            line.append(namespace.as_str());
            line.append(" resumes from the current state: changes may have been missed");
            line
        },
        Diagnostic::HandlerFailed(error) => {
            let mut line = String::from_str("handler failed: ");
            line.append(error.message.as_str());
            line
        },
    }
}

impl StopReason {
    /// The exit status of the process that stopped for this reason.
    pub fn exit_status(&self) -> (status: u8)
        ensures
            status == status_of(*self),
            status == 0 <==> *self == StopReason::Cancelled,
    {
        match self {
            StopReason::Cancelled => 0,
            StopReason::Fatal => 1,
            StopReason::RetriesExhausted => 2,
        }
    }

    /// The description that the process ends with.
    pub fn description(&self) -> (text: String)
        ensures
            text@ == description_of(*self),
    {
        match self {
            StopReason::Cancelled => String::from_str("the watch was cancelled"),
            StopReason::Fatal => String::from_str("the watch failed and cannot be recovered"),
            StopReason::RetriesExhausted => String::from_str(
                "the watch could not be opened again: no attempts left",
            ),
        }
    }
}

} // verus!
