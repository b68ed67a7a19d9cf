use vstd::prelude::*;
use vstd::string::StringSliceAdditionalSpecFns;

verus! {

/// The line the child prints on standard output once it accepts connections.
pub const READY_MARKER: &'static str = "OPENPROFIA_SERVER_READY";

/// One lifecycle event read from the child's output channel.
pub enum OutputEvent {
    /// A line the child wrote to standard output, as raw bytes.
    Stdout(Vec<u8>),
    /// A line the child wrote to standard error, as raw bytes.
    Stderr(Vec<u8>),
    /// An error the channel reported while running the child.
    Error(String),
    /// The child ended, with its exit code and/or the signal that ended it.
    Terminated { code: Option<i32>, signal: Option<i32> },
    /// Any other event the channel may deliver.
    Other,
}

/// What the background listener reports for one event. None of these
/// touches the supervisor's slot.
#[derive(Debug, Clone, Copy, PartialEq, Eq, Structural)]
pub enum Diagnostic {
    /// Log the line as output; `ready` when it holds the readiness marker.
    Output { ready: bool },
    /// Log the line as error output.
    ErrorOutput,
    /// Log the channel error.
    ChannelError,
    /// Log the termination with its code and signal.
    Terminated { code: Option<i32>, signal: Option<i32> },
    /// Nothing to log.
    Silent,
}

/// `needle` occurs in `hay` as a contiguous run.
pub open spec fn has_infix(hay: Seq<u8>, needle: Seq<u8>) -> bool {
    exists|i: int|
        0 <= i && i + needle.len() <= hay.len() && #[trigger] hay.subrange(i, i + needle.len())
            == needle
}

/// The readiness marker as bytes.
pub open spec fn ready_marker_bytes() -> Seq<u8> {
    READY_MARKER.spec_bytes()
}

/// Whether `needle` occurs in `hay` starting at `start`.
fn infix_at(hay: &[u8], needle: &[u8], start: usize) -> (r: bool)
    requires
        start + needle@.len() <= hay@.len(),
    ensures
        r == (hay@.subrange(start as int, start + needle@.len()) == needle@),
{
    let hay_len = hay.len();
    let mut k: usize = 0;
    while k < needle.len()
        invariant
            hay_len == hay@.len(),
            k <= needle@.len(),
            start + needle@.len() <= hay@.len(),
            hay@.subrange(start as int, start + k) =~= needle@.subrange(0, k as int),
        decreases needle@.len() - k,
    {
        if hay[start + k] != needle[k] {
            assert(hay@.subrange(start as int, start + needle@.len())[k as int] != needle@[k as int]);
            return false;
        }
        k = k + 1;
        assert(hay@.subrange(start as int, start + k) =~= needle@.subrange(0, k as int));
    }
    assert(needle@.subrange(0, needle@.len() as int) =~= needle@);
    true
}

/// Whether `needle` occurs anywhere in `hay`.
pub fn contains_bytes(hay: &[u8], needle: &[u8]) -> (r: bool)
    ensures
        r == has_infix(hay@, needle@),
{
    if needle.len() > hay.len() {
        return false;
    }
    if needle.len() == 0 {
        assert(hay@.subrange(0, 0 + needle@.len() as int) =~= needle@);
        return true;
    }
    let last: usize = hay.len() - needle.len();
    let mut i: usize = 0;
    while i <= last
        invariant
            last + needle@.len() == hay@.len(),
            last < hay@.len(),
            hay@.len() <= usize::MAX,
            i <= last + 1,
            forall|j: int|
                0 <= j < i ==> #[trigger] hay@.subrange(j, j + needle@.len()) != needle@,
        decreases last + 1 - i,
    {
        if infix_at(hay, needle, i) {
            return true;
        }
        i = i + 1;
    }
    false
}

/// Whether a standard-output line holds the readiness marker.
pub fn signals_ready(line: &[u8]) -> (r: bool)
    ensures
        r == has_infix(line@, ready_marker_bytes()),
{
    contains_bytes(line, READY_MARKER.as_bytes())
}

/// What the listener reports for `event`.
pub open spec fn diagnose_spec(event: OutputEvent) -> Diagnostic {
    match event {
        OutputEvent::Stdout(line) => Diagnostic::Output {
            ready: has_infix(line@, ready_marker_bytes()),
        },
        OutputEvent::Stderr(_) => Diagnostic::ErrorOutput,
        OutputEvent::Error(_) => Diagnostic::ChannelError,
        OutputEvent::Terminated { code, signal } => Diagnostic::Terminated { code, signal },
        OutputEvent::Other => Diagnostic::Silent,
    }
}

/// Classifies one event from the child's output channel.
pub fn diagnose(event: &OutputEvent) -> (r: Diagnostic)
    ensures
        r == diagnose_spec(*event),
{
    match event {
        OutputEvent::Stdout(line) => Diagnostic::Output { ready: signals_ready(line.as_slice()) },
        OutputEvent::Stderr(_) => Diagnostic::ErrorOutput,
        OutputEvent::Error(_) => Diagnostic::ChannelError,
        OutputEvent::Terminated { code, signal } => Diagnostic::Terminated {
            code: *code,
            signal: *signal,
        },
        OutputEvent::Other => Diagnostic::Silent,
    }
}

} // verus!
