use vstd::prelude::*;

use crate::event::TransferEvent;
use crate::state::DownloadState;
use crate::state::Entry;

verus! {

/// The transition table of the per-entry state machine, as a guard:
/// whether `e` may be applied to an entry currently in state `s`.
///
/// `Started` is accepted only in `Starting`; `Progress` and `Finished`
/// only in `Downloading`; `Failed` in `Starting` or `Downloading`. A
/// terminal state accepts nothing. `Progress` additionally demands that
/// the running byte count still fits in the counter, since the reducer
/// adds the chunk length to it.
pub open spec fn can_step(s: DownloadState, e: TransferEvent) -> bool {
    match e {
        TransferEvent::Started { .. } => s is Starting,
        TransferEvent::Progress { chunk_bytes, .. } => {
            &&& s matches DownloadState::Downloading { downloaded_bytes, .. }
            &&& downloaded_bytes + chunk_bytes <= u64::MAX
        },
        TransferEvent::Finished { .. } => s is Downloading,
        TransferEvent::Failed { .. } => s is Starting || s is Downloading,
    }
}

/// The transition table of the per-entry state machine: the state an
/// entry in state `s` moves to when `e` is applied.
pub open spec fn step_state(s: DownloadState, e: TransferEvent) -> DownloadState
    recommends
        can_step(s, e),
{
    match e {
        TransferEvent::Started { total_size, .. } => DownloadState::Downloading {
            downloaded_bytes: 0,
            total_size,
        },
        TransferEvent::Progress { chunk_bytes, .. } => DownloadState::Downloading {
            downloaded_bytes: (s->downloaded_bytes + chunk_bytes) as u64,
            total_size: s->total_size,
        },
        TransferEvent::Finished { .. } => DownloadState::Done {
            completed_size: s->downloaded_bytes,
        },
        TransferEvent::Failed { message, .. } => DownloadState::Error { message },
    }
}

/// An append-only ordered collection of download entries, addressed by
/// stable numeric identity. Entries are never removed or reordered, so an
/// entry's `id` stays a valid index for the lifetime of the registry.
///
/// The registry is the only shared mutable resource of the download
/// manager; all mutation goes through [`Registry::start`] and
/// [`Registry::apply`], and callers must serialize those calls.
pub struct Registry {
    entries: Vec<Entry>,
}

impl View for Registry {
    type V = Seq<Entry>;

    closed spec fn view(&self) -> Seq<Entry> {
        self.entries@
    }
}

impl Registry {
    /// Every entry's `id` equals its index of insertion.
    pub open spec fn wf(self) -> bool {
        forall|i: int| 0 <= i < self@.len() ==> (#[trigger] self@[i]).id == i
    }

    /// Whether `e` may be applied: it must address an existing entry whose
    /// current state accepts it. A false answer is a protocol violation —
    /// a defect in the task or reducer, to be treated as fatal by the
    /// caller, not a recoverable runtime condition.
    pub open spec fn can_apply(self, e: TransferEvent) -> bool {
        &&& e.spec_id() < self@.len()
        &&& can_step(self@[e.spec_id() as int].state, e)
    }

    /// Creates an empty registry.
    pub fn new() -> (r: Registry)
        ensures
            r@ =~= Seq::<Entry>::empty(),
            r.wf(),
    {
        Registry { entries: Vec::new() }
    }

    /// The number of entries ever started.
    pub fn len(&self) -> (n: usize)
        ensures
            n == self@.len(),
    {
        self.entries.len()
    }

    /// Appends a new entry for `url` in state `Starting` and returns its
    /// identity. Never fails; `url` is not validated here. The caller is
    /// expected to spawn a transfer task bound to the returned identity.
    pub fn start(&mut self, url: String) -> (id: usize)
        requires
            old(self).wf(),
            old(self)@.len() < usize::MAX,
        ensures
            final(self).wf(),
            id == old(self)@.len(),
            final(self)@ =~= old(self)@.push(
                Entry { id, url, state: DownloadState::Starting },
            ),
    {
        let id = self.entries.len();
        self.entries.push(Entry { id, url, state: DownloadState::Starting });
        id
    }

    /// Read-only view of the entries, in creation order, for presentation.
    pub fn snapshot(&self) -> (r: &Vec<Entry>)
        ensures
            r@ == self@,
    {
        &self.entries
    }

    /// Returns whether [`Registry::apply`] accepts `e` now. A caller that
    /// gets `false` has witnessed a protocol violation and must stop the
    /// affected control path loudly rather than drop the event.
    pub fn check_apply(&self, e: &TransferEvent) -> (r: bool)
        ensures
            r == self.can_apply(*e),
    {
        let id = e.id();
        if id >= self.entries.len() {
            return false;
        }
        match (&self.entries[id].state, e) {
            (DownloadState::Starting, TransferEvent::Started { .. }) => true,
            (
                DownloadState::Downloading { downloaded_bytes, .. },
                TransferEvent::Progress { chunk_bytes, .. },
            ) => *downloaded_bytes <= u64::MAX - *chunk_bytes,
            (DownloadState::Downloading { .. }, TransferEvent::Finished { .. }) => true,
            (DownloadState::Starting, TransferEvent::Failed { .. }) => true,
            (DownloadState::Downloading { .. }, TransferEvent::Failed { .. }) => true,
            _ => false,
        }
    }

    /// Applies `e` to the entry it addresses, following the transition
    /// table. Identity and source address of every entry are unchanged;
    /// no other entry is touched.
    pub fn apply(&mut self, e: TransferEvent)
        requires
            old(self).can_apply(e),
        ensures
            final(self)@ =~= old(self)@.update(
                e.spec_id() as int,
                Entry {
                    id: old(self)@[e.spec_id() as int].id,
                    url: old(self)@[e.spec_id() as int].url,
                    state: step_state(old(self)@[e.spec_id() as int].state, e),
                },
            ),
            old(self).wf() ==> final(self).wf(),
    {
        let id = e.id();
        let entry = &mut self.entries[id];
        match e {
            TransferEvent::Started { total_size, .. } => {
                entry.state = DownloadState::Downloading { downloaded_bytes: 0, total_size };
            },
            TransferEvent::Progress { chunk_bytes, .. } => {
                match &mut entry.state {
                    DownloadState::Downloading { downloaded_bytes, .. } => {
                        *downloaded_bytes = *downloaded_bytes + chunk_bytes;
                    },
                    _ => { unreached::<()>(); },
                }
            },
            TransferEvent::Finished { .. } => {
                match &entry.state {
                    DownloadState::Downloading { downloaded_bytes, .. } => {
                        entry.state = DownloadState::Done { completed_size: *downloaded_bytes };
                    },
                    _ => { unreached::<()>(); },
                }
            },
            TransferEvent::Failed { message, .. } => {
                entry.state = DownloadState::Error { message };
            },
        }
    }
}

} // verus!
