use vstd::prelude::*;
use vstd::string::StrSliceExecFns;
use vstd::string::StringExecFns;

verus! {

/// `s` with every embedded newline replaced by a space; every other
/// character is kept verbatim.
pub open spec fn newlines_to_spaces(s: Seq<char>) -> Seq<char> {
    s.map_values(|c: char| if c == '\n' { ' ' } else { c })
}

/// Prepares a failure diagnostic for display: the text verbatim, with
/// embedded newlines normalized to spaces.
pub fn display_message(s: &str) -> (r: String)
    ensures
        r@ == newlines_to_spaces(s@),
{
    let n = s.unicode_len();
    let mut out = String::new();
    let mut i: usize = 0;
    while i < n
        invariant
            n == s@.len(),
            i <= n,
            out@ =~= newlines_to_spaces(s@.subrange(0, i as int)),
        decreases n - i,
    {
        let c = s.get_char(i);
        if c == '\n' {
            out.append(" ");
        } else {
            let piece = s.substring_char(i, i + 1);
            out.append(piece);
        }
        proof {
            reveal_strlit(" ");
            assert(newlines_to_spaces(s@.subrange(0, i + 1)) =~= newlines_to_spaces(
                s@.subrange(0, i as int),
            ).push(if s@[i as int] == '\n' { ' ' } else { s@[i as int] }));
        }
        i = i + 1;
    }
    proof {
        assert(s@.subrange(0, n as int) =~= s@);
    }
    out
}

/// A message emitted by a transfer task reporting a state change for the
/// entry addressed by `id`. For a fixed `id`, events are applied in the
/// exact order emitted.
pub enum TransferEvent {
    /// A response is established. Must be the first event for the `id`.
    /// `total_size` is the server-declared content length, if present.
    Started { id: usize, total_size: Option<u64> },
    /// One chunk of `chunk_bytes` bytes was written to the destination
    /// file. The write happens before this event is observable.
    Progress { id: usize, chunk_bytes: u64 },
    /// The body stream ended with no error. Must be the last event.
    Finished { id: usize },
    /// The transfer failed; `message` is a human-readable diagnostic.
    /// No further events follow for this `id`.
    Failed { id: usize, message: String },
}

impl TransferEvent {
    /// The identity of the entry this event addresses.
    pub open spec fn spec_id(self) -> usize {
        match self {
            TransferEvent::Started { id, .. } => id,
            TransferEvent::Progress { id, .. } => id,
            TransferEvent::Finished { id } => id,
            TransferEvent::Failed { id, .. } => id,
        }
    }

    /// Returns the identity of the entry this event addresses.
    pub fn id(&self) -> (r: usize)
        ensures
            r == self.spec_id(),
    {
        match self {
            TransferEvent::Started { id, .. } => *id,
            TransferEvent::Progress { id, .. } => *id,
            TransferEvent::Finished { id } => *id,
            TransferEvent::Failed { id, .. } => *id,
        }
    }
}

/// A terminal failure of one transfer, classified by where it arose.
pub enum TransferError {
    /// Connection refused, timeout, protocol error, or mid-stream
    /// truncation; `message` carries the underlying diagnostic.
    NetworkError { message: String },
    /// The destination path already existed at the moment of the create
    /// attempt; nothing is overwritten.
    DestinationConflict { path: String },
    /// Open, create, or write failure for a reason other than conflict;
    /// `message` carries the underlying diagnostic.
    FilesystemError { message: String },
}

impl TransferError {
    /// The human-readable diagnostic that the failed entry displays.
    pub open spec fn spec_message(self) -> Seq<char> {
        match self {
            TransferError::NetworkError { message } => message@,
            TransferError::DestinationConflict { path } => "File already exists: "@ + path@,
            TransferError::FilesystemError { message } => message@,
        }
    }

    /// Renders the diagnostic text carried into a `Failed` event.
    pub fn message(self) -> (r: String)
        ensures
            r@ == self.spec_message(),
    {
        match self {
            TransferError::NetworkError { message } => message,
            TransferError::DestinationConflict { path } => {
                let prefix = "File already exists: ".to_owned();
                prefix.concat(path.as_str())
            },
            TransferError::FilesystemError { message } => message,
        }
    }
}

} // verus!
