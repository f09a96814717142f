//! The failures that the pool reports, each with the text shown to a client.

use vstd::prelude::*;

verus! {

/// Why a reservation, a start-up or a query failed.
#[derive(Debug, PartialEq, Eq)]
pub enum PoolError {
    /// Every slot is occupied. The caller may retry later.
    NoSlotAvailable,
    /// A lock of the pool was poisoned by a panic elsewhere.
    LockPoisoned,
    /// The ready handshake was asked for a worker that had completed it.
    AlreadyStarted,
    /// The process had exited when its ready line was awaited. Holds the
    /// exit status as text.
    ProcessExited(String),
    /// The first line of a process was not the ready token. Holds that line,
    /// without its line ending.
    UnexpectedStartupOutput(Vec<u8>),
    /// The replacement for a dead process could not be launched.
    RestartFailed(String),
    /// Reading from or writing to the process failed.
    Io(String),
    /// The reply line was not UTF-8.
    InvalidUtf8,
    /// The reply line was not a JSON object with a text `reply` and a
    /// boolean `ok`.
    MalformedJson,
    /// The worker answered with `ok` false. Holds its `reply`.
    WorkerReportedError(String),
    /// An event was handed in that the current stage does not wait for.
    UnexpectedEvent,
}

/// The mathematical value of a [`PoolError`].
pub enum PoolErrorView {
    NoSlotAvailable,
    LockPoisoned,
    AlreadyStarted,
    ProcessExited(Seq<char>),
    UnexpectedStartupOutput(Seq<u8>),
    RestartFailed(Seq<char>),
    Io(Seq<char>),
    InvalidUtf8,
    MalformedJson,
    WorkerReportedError(Seq<char>),
    UnexpectedEvent,
}

impl View for PoolError {
    type V = PoolErrorView;

    open spec fn view(&self) -> PoolErrorView {
        match self {
            PoolError::NoSlotAvailable => PoolErrorView::NoSlotAvailable,
            PoolError::LockPoisoned => PoolErrorView::LockPoisoned,
            PoolError::AlreadyStarted => PoolErrorView::AlreadyStarted,
            PoolError::ProcessExited(status) => PoolErrorView::ProcessExited(status@),
            PoolError::UnexpectedStartupOutput(line) => PoolErrorView::UnexpectedStartupOutput(
                line@,
            ),
            PoolError::RestartFailed(reason) => PoolErrorView::RestartFailed(reason@),
            PoolError::Io(reason) => PoolErrorView::Io(reason@),
            PoolError::InvalidUtf8 => PoolErrorView::InvalidUtf8,
            PoolError::MalformedJson => PoolErrorView::MalformedJson,
            PoolError::WorkerReportedError(reply) => PoolErrorView::WorkerReportedError(reply@),
            PoolError::UnexpectedEvent => PoolErrorView::UnexpectedEvent,
        }
    }
}

/// The decimal digit `d`.
pub open spec fn digit_text(d: int) -> Seq<char> {
    if d == 0 {
        "0"@
    } else if d == 1 {
        "1"@
    } else if d == 2 {
        "2"@
    } else if d == 3 {
        "3"@
    } else if d == 4 {
        "4"@
    } else if d == 5 {
        "5"@
    } else if d == 6 {
        "6"@
    } else if d == 7 {
        "7"@
    } else if d == 8 {
        "8"@
    } else {
        "9"@
    }
}

/// A byte in decimal, without leading zeros.
pub open spec fn byte_text(byte: u8) -> Seq<char> {
    if byte < 10 {
        digit_text(byte as int)
    } else if byte < 100 {
        digit_text(byte as int / 10) + digit_text(byte as int % 10)
    } else {
        digit_text(byte as int / 100) + digit_text((byte as int / 10) % 10) + digit_text(
            byte as int % 10,
        )
    }
}

/// The bytes of `line` in decimal, with a comma and a space between them.
pub open spec fn bytes_text(line: Seq<u8>) -> Seq<char>
    decreases line.len(),
{
    if line.len() == 0 {
        Seq::empty()
    } else if line.len() == 1 {
        byte_text(line[0])
    } else {
        bytes_text(line.drop_last()) + ", "@ + byte_text(line.last())
    }
}

/// The bytes of `line` as a list in square brackets.
pub open spec fn byte_list_text(line: Seq<u8>) -> Seq<char> {
    "["@ + bytes_text(line) + "]"@
}

/// The text of each failure. What the worker itself reported, and what the
/// operating system said of a failed read or write, is passed on verbatim. A
/// first line that was not the ready token is shown byte by byte.
pub open spec fn message_text(error: PoolErrorView) -> Seq<char> {
    match error {
        PoolErrorView::NoSlotAvailable => "No available worker found. Wait for a moment and retry."@,
        PoolErrorView::LockPoisoned => "poisoned lock: another task failed inside"@,
        PoolErrorView::AlreadyStarted => "Already started"@,
        PoolErrorView::ProcessExited(status) => "Worker failed to start: "@ + status,
        PoolErrorView::UnexpectedStartupOutput(line) => "Worker failed to start with: "@
            + byte_list_text(line),
        PoolErrorView::RestartFailed(reason) => "Failed to restart: "@ + reason,
        PoolErrorView::Io(reason) => reason,
        PoolErrorView::InvalidUtf8 => "Invalid utf8 chars encountered"@,
        PoolErrorView::MalformedJson => "Malformed json encountered"@,
        PoolErrorView::WorkerReportedError(reply) => reply,
        PoolErrorView::UnexpectedEvent => "Unexpected event for the current stage"@,
    }
}

/// The failure is one that a later attempt may not meet again: the pool was
/// merely busy.
pub open spec fn is_transient(error: PoolErrorView) -> bool {
    error is NoSlotAvailable
}

/// The decimal digit `d`.
fn digit_str(d: u8) -> (text: &'static str)
    requires
        d < 10,
    ensures
        text@ == digit_text(d as int),
{
    if d == 0 {
        "0"
    } else if d == 1 {
        "1"
    } else if d == 2 {
        "2"
    } else if d == 3 {
        "3"
    } else if d == 4 {
        "4"
    } else if d == 5 {
        "5"
    } else if d == 6 {
        "6"
    } else if d == 7 {
        "7"
    } else if d == 8 {
        "8"
    } else {
        "9"
    }
}

/// Writes `byte` in decimal at the end of `text`.
fn append_byte(text: String, byte: u8) -> (longer: String)
    ensures
        longer@ == text@ + byte_text(byte),
{
    if byte < 10 {
        text.concat(digit_str(byte))
    } else if byte < 100 {
        let longer = text.concat(digit_str(byte / 10)).concat(digit_str(byte % 10));
        assert(longer@ =~= text@ + byte_text(byte));
        longer
    } else {
        let longer = text.concat(digit_str(byte / 100)).concat(digit_str((byte / 10) % 10)).concat(
            digit_str(byte % 10),
        );
        assert(longer@ =~= text@ + byte_text(byte));
        longer
    }
}

/// The bytes of `line` as a list in square brackets: each byte in decimal,
/// with a comma and a space between them.
pub fn byte_list(line: &Vec<u8>) -> (text: String)
    ensures
        text@ == byte_list_text(line@),
{
    let mut text = String::from_str("[");
    let mut i: usize = 0;
    while i < line.len()
        invariant
            i <= line.len(),
            text@ == "["@ + bytes_text(line@.take(i as int)),
        decreases line.len() - i,
    {
        assert(line@.take(i + 1).drop_last() =~= line@.take(i as int));
        if i > 0 {
            text = text.concat(", ");
        }
        text = append_byte(text, line[i]);
        i = i + 1;
        assert(text@ =~= "["@ + bytes_text(line@.take(i as int)));
    }
    assert(line@.take(line.len() as int) =~= line@);
    text.concat("]")
}

impl PoolError {
    /// The human-readable text of the failure.
    pub fn message(&self) -> (text: String)
        ensures
            text@ == message_text(self@),
    {
        match self {
            PoolError::NoSlotAvailable => String::from_str(
                "No available worker found. Wait for a moment and retry.",
            ),
            PoolError::LockPoisoned => String::from_str("poisoned lock: another task failed inside"),
            PoolError::AlreadyStarted => String::from_str("Already started"),
            PoolError::ProcessExited(status) => String::from_str("Worker failed to start: ").concat(
                status.as_str(),
            ),
            PoolError::UnexpectedStartupOutput(line) => String::from_str(
                "Worker failed to start with: ",
            ).concat(byte_list(line).as_str()),
            PoolError::RestartFailed(reason) => String::from_str("Failed to restart: ").concat(
                reason.as_str(),
            ),
            PoolError::Io(reason) => reason.clone(),
            PoolError::InvalidUtf8 => String::from_str("Invalid utf8 chars encountered"),
            PoolError::MalformedJson => String::from_str("Malformed json encountered"),
            PoolError::WorkerReportedError(reply) => reply.clone(),
            PoolError::UnexpectedEvent => String::from_str("Unexpected event for the current stage"),
        }
    }

    /// Whether the caller should simply try again later.
    pub fn is_retryable(&self) -> (retry: bool)
        ensures
            retry == is_transient(self@),
    {
        match self {
            PoolError::NoSlotAvailable => true,
            _ => false,
        }
    }
}

} // verus!
