use vstd::prelude::*;
use vstd::string::StrSliceExecFns;

use crate::event::TransferError;
use crate::event::TransferEvent;
use crate::reducer::can_step;
use crate::reducer::step_state;
use crate::state::DownloadState;

verus! {

/// The final `/`-delimited segment of `s`: everything after the last `/`,
/// or all of `s` if it holds no `/`. Empty when `s` ends in `/`.
pub open spec fn after_last_slash(s: Seq<char>) -> Seq<char>
    decreases s.len(),
{
    if s.len() == 0 {
        s
    } else if s[s.len() - 1] == '/' {
        Seq::<char>::empty()
    } else {
        after_last_slash(s.drop_last()).push(s[s.len() - 1])
    }
}

/// Derives the destination path for a download: the final path segment of
/// the source address, taken literally, as a relative filename.
pub fn dest_path_of(url: &str) -> (r: String)
    ensures
        r@ == after_last_slash(url@),
{
    let n = url.unicode_len();
    let mut start: usize = 0;
    let mut i: usize = 0;
    while i < n
        invariant
            n == url@.len(),
            start <= i <= n,
            after_last_slash(url@.subrange(0, i as int)) =~= url@.subrange(
                start as int,
                i as int,
            ),
        decreases n - i,
    {
        let c = url.get_char(i);
        proof {
            let pre = url@.subrange(0, i + 1);
            assert(pre.drop_last() =~= url@.subrange(0, i as int));
            if c == '/' {
                assert(after_last_slash(pre) =~= url@.subrange(i + 1, i + 1));
            } else {
                assert(after_last_slash(pre) =~= url@.subrange(start as int, i + 1));
            }
        }
        if c == '/' {
            start = i + 1;
        }
        i = i + 1;
    }
    proof {
        assert(url@.subrange(0, n as int) =~= url@);
    }
    let seg = url.substring_char(start, n);
    seg.to_owned()
}

/// Where a transfer task stands between two pieces of outside work. The
/// phases follow the protocol in order: request, destination check,
/// exclusive create, then alternating chunk reads and chunk writes.
pub enum TaskPhase {
    /// The GET request is issued; the response is awaited.
    AwaitingResponse,
    /// The response arrived and declared `total_size`; the destination
    /// path is about to be tested for existence.
    CheckingDestination { total_size: Option<u64> },
    /// The destination does not exist; it is about to be created for
    /// exclusive writing.
    CreatingFile { total_size: Option<u64> },
    /// `Started` has been emitted; the next body chunk is awaited.
    Streaming,
    /// A chunk of `chunk_bytes` bytes was read; it is being written to the
    /// destination before any progress is reported.
    WritingChunk { chunk_bytes: u64 },
    /// The task emitted `Finished` or `Failed` and does no further work.
    /// `failure` records how it failed, or `None` on success.
    Terminated { failure: Option<FailureKind> },
}

/// How a terminated task failed, mirroring the error taxonomy of
/// [`TransferError`] without its diagnostic text.
pub enum FailureKind {
    /// Connection, protocol, or mid-stream read failure.
    Network,
    /// The destination path existed at the moment of the create attempt.
    DestinationConflict,
    /// Create or write failure other than a conflict.
    Filesystem,
}

/// The outcome of one piece of outside work, handed back to the task. An
/// `Err` carries the human-readable diagnostic of the failure.
#[allow(inconsistent_fields)]
pub enum TaskInput {
    /// Outcome of the GET request: the server-declared content length, if
    /// any, or the connection failure.
    Response { outcome: Result<Option<u64>, String> },
    /// Whether the destination path exists.
    DestinationExists { exists: bool },
    /// Outcome of creating the destination for exclusive writing.
    FileCreated { outcome: Result<(), String> },
    /// Outcome of awaiting the next body chunk: a chunk of the given
    /// length, a clean end of the stream, or a read failure.
    ChunkRead { outcome: Result<Option<u64>, String> },
    /// Outcome of writing the pending chunk to the destination.
    ChunkWritten { outcome: Result<(), String> },
}

/// The piece of outside work the task asks for next.
pub enum TaskAction {
    /// Issue an HTTP GET for the task's source address; answer with
    /// `Response`.
    IssueRequest,
    /// Test whether the task's destination path exists; answer with
    /// `DestinationExists`.
    CheckDestination,
    /// Create the destination path for exclusive writing; answer with
    /// `FileCreated`. Known race: a concurrent transfer whose address maps
    /// to the same filename may create the path between the existence
    /// check and this create; an exclusive create then fails and the
    /// transfer errors instead of overwriting.
    CreateFile,
    /// Await the next body chunk; answer with `ChunkRead`.
    ReadChunk,
    /// Write the pending chunk to the destination; answer with
    /// `ChunkWritten`.
    WriteChunk,
    /// The task is over; no further events are emitted for its `id`.
    Stop,
}

/// The simulation relation between a task's phase and the state of the
/// entry it drives, with the task's events applied as they are emitted:
/// until `Started` is emitted the entry is still `Starting`; while the
/// body streams it is `Downloading`; a terminated task leaves a terminal
/// entry.
pub open spec fn task_entry_compatible(p: TaskPhase, s: DownloadState) -> bool {
    match p {
        TaskPhase::AwaitingResponse => s is Starting,
        TaskPhase::CheckingDestination { .. } => s is Starting,
        TaskPhase::CreatingFile { .. } => s is Starting,
        TaskPhase::Streaming => s is Downloading,
        TaskPhase::WritingChunk { .. } => s is Downloading,
        TaskPhase::Terminated { .. } => s.is_terminal(),
    }
}

/// Whether a task in phase `p` is awaiting an outcome of `input`'s kind.
/// A terminated task accepts nothing.
pub open spec fn phase_accepts(p: TaskPhase, input: TaskInput) -> bool {
    match input {
        TaskInput::Response { .. } => p is AwaitingResponse,
        TaskInput::DestinationExists { .. } => p is CheckingDestination,
        TaskInput::FileCreated { .. } => p is CreatingFile,
        TaskInput::ChunkRead { .. } => p is Streaming,
        TaskInput::ChunkWritten { .. } => p is WritingChunk,
    }
}

/// The phase a task in phase `p` moves to on `input`.
pub open spec fn step_phase(p: TaskPhase, input: TaskInput) -> TaskPhase
    recommends
        phase_accepts(p, input),
{
    match input {
        TaskInput::Response { outcome } => match outcome {
            Ok(total_size) => TaskPhase::CheckingDestination { total_size },
            Err(_) => TaskPhase::Terminated { failure: Some(FailureKind::Network) },
        },
        TaskInput::DestinationExists { exists } => if exists {
            TaskPhase::Terminated { failure: Some(FailureKind::DestinationConflict) }
        } else {
            TaskPhase::CreatingFile { total_size: p->CheckingDestination_total_size }
        },
        TaskInput::FileCreated { outcome } => match outcome {
            Ok(_) => TaskPhase::Streaming,
            Err(_) => TaskPhase::Terminated { failure: Some(FailureKind::Filesystem) },
        },
        TaskInput::ChunkRead { outcome } => match outcome {
            Ok(Some(chunk_bytes)) => TaskPhase::WritingChunk { chunk_bytes },
            Ok(None) => TaskPhase::Terminated { failure: None },
            Err(_) => TaskPhase::Terminated { failure: Some(FailureKind::Network) },
        },
        TaskInput::ChunkWritten { outcome } => match outcome {
            Ok(_) => TaskPhase::Streaming,
            Err(_) => TaskPhase::Terminated { failure: Some(FailureKind::Filesystem) },
        },
    }
}

/// One asynchronous unit of work per download: drives a single transfer
/// to completion or failure, emitting events in strict causal order. The
/// task shares no mutable state with the registry or with other tasks; it
/// only produces events.
pub struct Task {
    /// The identity of the entry whose transfer the task drives.
    pub id: usize,
    /// The source address.
    pub url: String,
    /// The destination path, derived from `url` at creation.
    pub dest_path: String,
    /// Where the task stands in the protocol.
    pub phase: TaskPhase,
}

impl Task {
    /// Creates the task for entry `id`, deriving the destination path
    /// from `url`. The task starts by awaiting the response to its GET
    /// request.
    pub fn new(id: usize, url: String) -> (t: Task)
        ensures
            t.id == id,
            t.url == url,
            t.dest_path@ == after_last_slash(url@),
            t.phase is AwaitingResponse,
    {
        let dest_path = dest_path_of(url.as_str());
        Task { id, url, dest_path, phase: TaskPhase::AwaitingResponse }
    }

    /// The piece of outside work to perform next, given where the task
    /// stands.
    pub fn next_action(&self) -> (a: TaskAction)
        ensures
            a is IssueRequest <==> self.phase is AwaitingResponse,
            a is CheckDestination <==> self.phase is CheckingDestination,
            a is CreateFile <==> self.phase is CreatingFile,
            a is ReadChunk <==> self.phase is Streaming,
            a is WriteChunk <==> self.phase is WritingChunk,
            a is Stop <==> self.phase is Terminated,
    {
        match &self.phase {
            TaskPhase::AwaitingResponse => TaskAction::IssueRequest,
            TaskPhase::CheckingDestination { .. } => TaskAction::CheckDestination,
            TaskPhase::CreatingFile { .. } => TaskAction::CreateFile,
            TaskPhase::Streaming => TaskAction::ReadChunk,
            TaskPhase::WritingChunk { .. } => TaskAction::WriteChunk,
            TaskPhase::Terminated { .. } => TaskAction::Stop,
        }
    }

    /// Returns whether [`Task::step`] accepts `input` now.
    pub fn accepts(&self, input: &TaskInput) -> (r: bool)
        ensures
            r == phase_accepts(self.phase, *input),
    {
        match (input, &self.phase) {
            (TaskInput::Response { .. }, TaskPhase::AwaitingResponse) => true,
            (TaskInput::DestinationExists { .. }, TaskPhase::CheckingDestination { .. }) => true,
            (TaskInput::FileCreated { .. }, TaskPhase::CreatingFile { .. }) => true,
            (TaskInput::ChunkRead { .. }, TaskPhase::Streaming) => true,
            (TaskInput::ChunkWritten { .. }, TaskPhase::WritingChunk { .. }) => true,
            _ => false,
        }
    }

    /// Advances the task on the outcome of the work it asked for, and
    /// returns the event to emit now, if any.
    ///
    /// The protocol this pins down: a connection failure, a destination
    /// conflict, or a create failure ends the task with `Failed` before
    /// any `Started`; a successful create emits `Started` with the
    /// declared length; each chunk is written before the matching
    /// `Progress` is returned; a clean end of the stream emits `Finished`;
    /// a read or write failure emits `Failed`. A `Failed` for a
    /// destination conflict is produced exactly when the destination
    /// existed at the moment of the check, and carries the message
    /// `"File already exists: <path>"`.
    pub fn step(&mut self, input: TaskInput) -> (r: Option<TransferEvent>)
        requires
            phase_accepts(old(self).phase, input),
        ensures
            final(self).id == old(self).id,
            final(self).url == old(self).url,
            final(self).dest_path == old(self).dest_path,
            final(self).phase == step_phase(old(self).phase, input),
            match input {
                TaskInput::Response { outcome } => match outcome {
                    Ok(_) => r is None,
                    Err(m) => (r matches Some(TransferEvent::Failed { id, message })
                        && id == old(self).id && message@ == m@),
                },
                TaskInput::DestinationExists { exists } => if exists {
                    r matches Some(TransferEvent::Failed { id, message })
                        && id == old(self).id
                        && message@ == "File already exists: "@ + old(self).dest_path@
                } else {
                    r is None
                },
                TaskInput::FileCreated { outcome } => match outcome {
                    Ok(_) => (r matches Some(TransferEvent::Started { id, total_size })
                        && id == old(self).id
                        && total_size == old(self).phase->CreatingFile_total_size),
                    Err(m) => (r matches Some(TransferEvent::Failed { id, message })
                        && id == old(self).id && message@ == m@),
                },
                TaskInput::ChunkRead { outcome } => match outcome {
                    Ok(Some(_)) => r is None,
                    Ok(None) => r == Some(TransferEvent::Finished { id: old(self).id }),
                    Err(m) => (r matches Some(TransferEvent::Failed { id, message })
                        && id == old(self).id && message@ == m@),
                },
                TaskInput::ChunkWritten { outcome } => match outcome {
                    Ok(_) => (r matches Some(TransferEvent::Progress { id, chunk_bytes })
                        && id == old(self).id
                        && chunk_bytes == old(self).phase->WritingChunk_chunk_bytes),
                    Err(m) => (r matches Some(TransferEvent::Failed { id, message })
                        && id == old(self).id && message@ == m@),
                },
            },
            // The task stays compatible with the reducer: an emitted event
            // is accepted by any entry state the phase allows (a `Progress`
            // additionally needs the byte counter not to overflow), and
            // stepping the entry by it preserves the simulation relation.
            forall|s: DownloadState|
                #[trigger] task_entry_compatible(old(self).phase, s) ==> match r {
                    Some(e) => ((e matches TransferEvent::Progress { chunk_bytes, .. } ==> (
                    s matches DownloadState::Downloading { downloaded_bytes, .. }
                        && downloaded_bytes + chunk_bytes <= u64::MAX)) ==> can_step(s, e)
                        && task_entry_compatible(final(self).phase, step_state(s, e))),
                    None => task_entry_compatible(final(self).phase, s),
                },
    {
        let id = self.id;
        match input {
            TaskInput::Response { outcome } => match outcome {
                Ok(total_size) => {
                    self.phase = TaskPhase::CheckingDestination { total_size };
                    None
                },
                Err(message) => {
                    self.phase = TaskPhase::Terminated { failure: Some(FailureKind::Network) };
                    Some(TransferEvent::Failed {
                        id,
                        message: TransferError::NetworkError { message }.message(),
                    })
                },
            },
            TaskInput::DestinationExists { exists } => {
                if exists {
                    self.phase = TaskPhase::Terminated {
                        failure: Some(FailureKind::DestinationConflict),
                    };
                    let path = self.dest_path.clone();
                    Some(TransferEvent::Failed {
                        id,
                        message: TransferError::DestinationConflict { path }.message(),
                    })
                } else {
                    let total_size = match &self.phase {
                        TaskPhase::CheckingDestination { total_size } => *total_size,
                        _ => unreached(),
                    };
                    self.phase = TaskPhase::CreatingFile { total_size };
                    None
                }
            },
            TaskInput::FileCreated { outcome } => match outcome {
                Ok(_) => {
                    let total_size = match &self.phase {
                        TaskPhase::CreatingFile { total_size } => *total_size,
                        _ => unreached(),
                    };
                    self.phase = TaskPhase::Streaming;
                    Some(TransferEvent::Started { id, total_size })
                },
                Err(message) => {
                    self.phase = TaskPhase::Terminated { failure: Some(FailureKind::Filesystem) };
                    Some(TransferEvent::Failed {
                        id,
                        message: TransferError::FilesystemError { message }.message(),
                    })
                },
            },
            TaskInput::ChunkRead { outcome } => match outcome {
                Ok(Some(chunk_bytes)) => {
                    self.phase = TaskPhase::WritingChunk { chunk_bytes };
                    None
                },
                Ok(None) => {
                    self.phase = TaskPhase::Terminated { failure: None };
                    Some(TransferEvent::Finished { id })
                },
                Err(message) => {
                    self.phase = TaskPhase::Terminated { failure: Some(FailureKind::Network) };
                    Some(TransferEvent::Failed {
                        id,
                        message: TransferError::NetworkError { message }.message(),
                    })
                },
            },
            TaskInput::ChunkWritten { outcome } => match outcome {
                Ok(_) => {
                    let chunk_bytes = match &self.phase {
                        TaskPhase::WritingChunk { chunk_bytes } => *chunk_bytes,
                        _ => unreached(),
                    };
                    self.phase = TaskPhase::Streaming;
                    Some(TransferEvent::Progress { id, chunk_bytes })
                },
                Err(message) => {
                    self.phase = TaskPhase::Terminated { failure: Some(FailureKind::Filesystem) };
                    Some(TransferEvent::Failed {
                        id,
                        message: TransferError::FilesystemError { message }.message(),
                    })
                },
            },
        }
    }
}

} // verus!
