use vstd::prelude::*;

use crate::event::TransferEvent;
use crate::reducer::can_step;
use crate::reducer::step_state;
use crate::state::DownloadState;
use crate::state::Entry;
use crate::reducer::Registry;
use crate::task::FailureKind;
use crate::task::TaskInput;
use crate::task::TaskPhase;
use crate::task::phase_accepts;
use crate::task::step_phase;

verus! {

/// Applies a sequence of events to one entry's state, in order, following
/// the transition table; `None` if some event reaches a state that cannot
/// accept it.
pub open spec fn run_state(s: DownloadState, evs: Seq<TransferEvent>) -> Option<DownloadState>
    decreases evs.len(),
{
    if evs.len() == 0 {
        Some(s)
    } else if can_step(s, evs[0]) {
        run_state(step_state(s, evs[0]), evs.drop_first())
    } else {
        None
    }
}

/// The sum of the chunk lengths of all `Progress` events in `evs`.
pub open spec fn sum_progress(evs: Seq<TransferEvent>) -> int
    decreases evs.len(),
{
    if evs.len() == 0 {
        0
    } else {
        (match evs[0] {
            TransferEvent::Progress { chunk_bytes, .. } => chunk_bytes as int,
            _ => 0,
        }) + sum_progress(evs.drop_first())
    }
}

/// No event may be applied to an entry already in a terminal state.
pub proof fn lemma_terminal_accepts_no_event(s: DownloadState, e: TransferEvent)
    ensures
        s.is_terminal() ==> !can_step(s, e),
{
}

/// A terminal state ends every valid run at once: events can follow it
/// only by violating the transition table.
pub proof fn lemma_run_from_terminal(s: DownloadState, evs: Seq<TransferEvent>)
    requires
        s.is_terminal(),
        run_state(s, evs) is Some,
    ensures
        evs.len() == 0,
        run_state(s, evs) == Some(s),
{
}

/// Every state along a valid run of events is reached through the
/// transition table, and no event of the run is applied to a terminal
/// state: before each event, the run so far has succeeded and stands in a
/// state that accepts that event.
pub proof fn lemma_valid_run_steps_table(s: DownloadState, evs: Seq<TransferEvent>, i: int)
    requires
        run_state(s, evs) is Some,
        0 <= i < evs.len(),
    ensures
        run_state(s, evs.take(i)) matches Some(si) && {
            &&& !si.is_terminal()
            &&& can_step(si, evs[i])
            &&& run_state(s, evs.take(i + 1)) == Some(step_state(si, evs[i]))
        },
    decreases evs.len(),
{
    assert(can_step(s, evs[0]));
    if i == 0 {
        assert(evs.take(0) =~= Seq::<TransferEvent>::empty());
        assert(evs.take(1)[0] == evs[0]);
        assert(evs.take(1).drop_first() =~= Seq::<TransferEvent>::empty());
        let next = step_state(s, evs[0]);
        assert(run_state(next, Seq::<TransferEvent>::empty()) == Some(next));
        assert(run_state(s, evs.take(1)) == Some(next));
    } else {
        let rest = evs.drop_first();
        lemma_valid_run_steps_table(step_state(s, evs[0]), rest, i - 1);
        assert(evs.take(i)[0] == evs[0]);
        assert(evs.take(i + 1)[0] == evs[0]);
        assert(evs[i] == rest[i - 1]);
        assert(evs.take(i).drop_first() =~= rest.take(i - 1));
        assert(evs.take(i + 1).drop_first() =~= rest.take(i));
    }
}

/// For an entry that reaches `Done` from a `Downloading` state, the
/// completed size equals the bytes already downloaded plus the sum of all
/// chunk lengths of the events applied on the way.
proof fn lemma_done_size_from_downloading(s: DownloadState, evs: Seq<TransferEvent>, n: u64)
    requires
        s is Downloading,
        run_state(s, evs) == Some(DownloadState::Done { completed_size: n }),
    ensures
        n == s->downloaded_bytes + sum_progress(evs),
    decreases evs.len(),
{
    let rest = evs.drop_first();
    let next = step_state(s, evs[0]);
    match evs[0] {
        TransferEvent::Progress { .. } => {
            lemma_done_size_from_downloading(next, rest, n);
        },
        TransferEvent::Finished { .. } => {
            lemma_run_from_terminal(next, rest);
            lemma_sum_progress_empty_tail(evs);
        },
        TransferEvent::Failed { .. } => {
            lemma_run_from_terminal(next, rest);
        },
        TransferEvent::Started { .. } => {},
    }
}

/// A run whose only event carries no progress sums to the head's
/// contribution alone.
proof fn lemma_sum_progress_empty_tail(evs: Seq<TransferEvent>)
    requires
        evs.len() == 1,
        !(evs[0] is Progress),
    ensures
        sum_progress(evs) == 0,
{
    assert(evs.drop_first().len() == 0);
    assert(sum_progress(evs.drop_first()) == 0);
}

/// For an entry reaching `Done`, the completed size equals the sum of all
/// chunk lengths of the `Progress` events applied to it, in order, from
/// its creation in `Starting`.
pub proof fn lemma_done_size_is_progress_sum(evs: Seq<TransferEvent>, n: u64)
    requires
        run_state(DownloadState::Starting, evs) == Some(DownloadState::Done { completed_size: n }),
    ensures
        n == sum_progress(evs),
{
    let rest = evs.drop_first();
    let next = step_state(DownloadState::Starting, evs[0]);
    match evs[0] {
        TransferEvent::Started { .. } => {
            lemma_done_size_from_downloading(next, rest, n);
        },
        TransferEvent::Failed { .. } => {
            lemma_run_from_terminal(next, rest);
        },
        _ => {},
    }
}

/// A declared total size does not bound the byte count: a `Progress` that
/// takes the running count past the server-declared length is still
/// accepted, and the count simply exceeds the declared total.
pub proof fn lemma_progress_may_exceed_declared_total(
    id: usize,
    downloaded: u64,
    declared: u64,
    chunk: u64,
)
    requires
        downloaded + chunk <= u64::MAX,
        downloaded + chunk > declared,
    ensures
        can_step(
            DownloadState::Downloading {
                downloaded_bytes: downloaded,
                total_size: Some(declared),
            },
            TransferEvent::Progress { id, chunk_bytes: chunk },
        ),
        step_state(
            DownloadState::Downloading {
                downloaded_bytes: downloaded,
                total_size: Some(declared),
            },
            TransferEvent::Progress { id, chunk_bytes: chunk },
        ) == (DownloadState::Downloading {
            downloaded_bytes: (downloaded + chunk) as u64,
            total_size: Some(declared),
        }),
{
}

/// A task fails with a destination conflict exactly when the destination
/// path existed at the moment of the existence check, before the create
/// attempt; no other outcome of any phase produces that failure.
pub proof fn lemma_conflict_iff_destination_exists(p: TaskPhase, input: TaskInput)
    requires
        phase_accepts(p, input),
    ensures
        (step_phase(p, input) matches TaskPhase::Terminated { failure }
            && failure == Some(FailureKind::DestinationConflict)) <==> (input
            matches TaskInput::DestinationExists { exists: true }),
{
}

/// A terminated task does no further work: no outcome of any kind is
/// accepted once the task has emitted `Finished` or `Failed`, so no
/// further events can arise for its entry.
pub proof fn lemma_terminated_task_accepts_nothing(p: TaskPhase, input: TaskInput)
    ensures
        p is Terminated ==> !phase_accepts(p, input),
{
}

/// Observing the registry is idempotent: two snapshots taken with no
/// event applied between them see the same sequence of entries.
pub proof fn lemma_snapshot_idempotent(r: Registry, v1: Seq<Entry>, v2: Seq<Entry>)
    requires
        v1 == r@,
        v2 == r@,
    ensures
        v1 == v2,
{
}

} // verus!
