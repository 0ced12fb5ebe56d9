use vstd::prelude::*;

verus! {

/// The lifecycle state of one download.
///
/// Exactly one variant holds at any time. `Done` and `Error` are terminal:
/// once an entry reaches one of them, no further event may be applied to it.
pub enum DownloadState {
    /// The transfer task has been spawned; no network response yet.
    Starting,
    /// A response is established and the body is being streamed.
    /// `total_size` is the server-declared content length, if the server
    /// declared one.
    Downloading { downloaded_bytes: u64, total_size: Option<u64> },
    /// The transfer finished; `completed_size` is the byte count actually
    /// written to disk.
    Done { completed_size: u64 },
    /// The transfer failed; `message` is a human-readable diagnostic.
    Error { message: String },
}

impl DownloadState {
    /// `Done` and `Error` accept no further events.
    pub open spec fn is_terminal(self) -> bool {
        self is Done || self is Error
    }
}

/// The persistent record of one requested transfer: identity, source
/// address, and current state.
pub struct Entry {
    /// Stable numeric identity, equal to the entry's index of insertion
    /// into the registry; never reused or reassigned.
    pub id: usize,
    /// The source address, immutable after creation.
    pub url: String,
    /// The current transfer state.
    pub state: DownloadState,
}

} // verus!
