//! What holds of every request, whatever the outside world answers.

use crate::error::IngestErrorView;
use crate::model::{
    ingest_options, initial, phase_at_file, reconciled, reconciled_file, success_events,
    ActionView, CoordinatorView, EventView, FileOnDisk, PhaseView, ReconcileStep,
    UNASSIGNED_SEQNO,
};
use vstd::prelude::*;

verus! {

/// A run can be cut anywhere: the events after the cut continue from the state
/// that the events before it led to.
pub proof fn lemma_run_split(c: CoordinatorView, events: Seq<EventView>, k: int)
    requires
        0 <= k <= events.len(),
    ensures
        c.run(events) == c.run(events.take(k)).run(events.skip(k)),
    decreases events.len(),
{
    if k == events.len() {
        assert(events.take(k) =~= events);
    } else {
        let front = events.drop_last();
        lemma_run_split(c, front, k);
        assert(front.take(k) =~= events.take(k));
        assert(events.skip(k).drop_last() =~= front.skip(k));
    }
}

/// What holds of a state and is kept by every event holds after any run.
proof fn lemma_stable_along_run(
    c: CoordinatorView,
    events: Seq<EventView>,
    stable: spec_fn(CoordinatorView) -> bool,
)
    requires
        stable(c),
        forall|s: CoordinatorView, e: EventView| stable(s) ==> #[trigger] stable(s.step(e)),
    ensures
        stable(c.run(events)),
    decreases events.len(),
{
    if events.len() > 0 {
        lemma_stable_along_run(c, events.drop_last(), stable);
    }
}

/// A run changes the phase only: the column family, the files and the options
/// stay what they were. And a request that starts well formed stays so.
pub proof fn lemma_run_keeps_request(c: CoordinatorView, events: Seq<EventView>)
    ensures
        c.run(events).column_family == c.column_family,
        c.run(events).files == c.files,
        c.run(events).options == c.options,
        c.wf() ==> c.run(events).wf(),
    decreases events.len(),
{
    if events.len() > 0 {
        lemma_run_keeps_request(c, events.drop_last());
    }
}

/// A request that has ended stays as it is, whatever is reported to it, and
/// asks for nothing more.
pub proof fn lemma_terminal_is_final(c: CoordinatorView, events: Seq<EventView>)
    requires
        c.phase.is_terminal(),
    ensures
        c.run(events) == c,
        c.action() is Finish,
    decreases events.len(),
{
    if events.len() > 0 {
        lemma_terminal_is_final(c, events.drop_last());
    }
}

/// The engine is asked with the request's own column family and files, all of
/// them at once and in the order given, to take the files over and to leave
/// their embedded sequence numbers alone.
pub proof fn lemma_ingest_hands_over_the_request(
    column_family: Seq<char>,
    files: Seq<Seq<char>>,
    events: Seq<EventView>,
)
    ensures
        initial(column_family, files).run(events).action() is Ingest ==> initial(
            column_family,
            files,
        ).run(events).action() == (ActionView::Ingest {
            column_family,
            options: ingest_options(),
            files,
        }),
{
    lemma_run_keeps_request(initial(column_family, files), events);
}

/// A file whose footer has been rewritten and which has not been synced since.
spec fn unsynced_file() -> FileOnDisk {
    FileOnDisk { global_seqno: UNASSIGNED_SEQNO, durable: false }
}

/// What the disk holds at each phase of a request that began on `before`.
spec fn disk_matches(
    c: CoordinatorView,
    before: Map<Seq<char>, FileOnDisk>,
    now: Map<Seq<char>, FileOnDisk>,
) -> bool {
    match c.phase {
        PhaseView::Resolving => now == before,
        PhaseView::Reconciling { index, step: ReconcileStep::Sync } => now == reconciled(
            before,
            c.files.take(index as int),
        ).insert(c.files[index as int], unsynced_file()),
        PhaseView::Reconciling { index, .. } => now == reconciled(
            before,
            c.files.take(index as int),
        ),
        PhaseView::Failed { error } => error.before_engine() || now == reconciled(before, c.files),
        _ => now == reconciled(before, c.files),
    }
}

proof fn lemma_reconciled_none(disk: Map<Seq<char>, FileOnDisk>, files: Seq<Seq<char>>)
    ensures
        reconciled(disk, files.take(0)) == disk,
        reconciled(disk, files.take(files.len() as int)) == reconciled(disk, files),
{
    assert(files.take(files.len() as int) =~= files);
    assert(reconciled(disk, files.take(0)) =~= disk);
}

proof fn lemma_reconciled_one_more(
    disk: Map<Seq<char>, FileOnDisk>,
    files: Seq<Seq<char>>,
    i: int,
    unsynced: FileOnDisk,
)
    requires
        0 <= i < files.len(),
    ensures
        reconciled(disk, files.take(i)).insert(files[i], unsynced).insert(
            files[i],
            reconciled_file(),
        ) == reconciled(disk, files.take(i + 1)),
{
    let shorter = files.take(i);
    let longer = files.take(i + 1);
    assert(longer =~= shorter.push(files[i]));
    assert forall|path: Seq<char>| longer.contains(path) <==> (shorter.contains(path) || path
        == files[i]) by {
        if shorter.contains(path) {
            let j = choose|j: int| 0 <= j < shorter.len() && shorter[j] == path;
            assert(longer[j] == path);
        }
        if path == files[i] {
            assert(longer[i] == path);
        }
    }
    assert(reconciled(disk, shorter).insert(files[i], unsynced).insert(
        files[i],
        reconciled_file(),
    ) =~= reconciled(disk, longer));
}

proof fn lemma_disk_follows_the_run(
    c: CoordinatorView,
    events: Seq<EventView>,
    disk: Map<Seq<char>, FileOnDisk>,
)
    requires
        c.phase is Resolving,
    ensures
        disk_matches(c.run(events), disk, c.disk_after(events, disk)),
    decreases events.len(),
{
    if events.len() > 0 {
        let front = events.drop_last();
        lemma_disk_follows_the_run(c, front, disk);
        lemma_run_keeps_request(c, front);
        let s = c.run(front);
        lemma_reconciled_none(disk, s.files);
        match s.phase {
            PhaseView::Reconciling { index, step: ReconcileStep::Sync } => {
                lemma_reconciled_one_more(disk, s.files, index as int, unsynced_file());
            },
            _ => {},
        }
    }
}

/// Whatever sequence numbers the files carried, and whatever was reported on
/// the way: once the engine is asked to admit the files, and from then on, the
/// files on disk are those from before the request with each of the request's
/// files reset and synced. So each file of the request carries the unassigned
/// sequence number, durably.
pub proof fn lemma_files_reconciled_when_engine_is_reached(
    column_family: Seq<char>,
    files: Seq<Seq<char>>,
    events: Seq<EventView>,
    disk: Map<Seq<char>, FileOnDisk>,
)
    requires
        initial(column_family, files).run(events).phase.engine_reached(),
    ensures
        initial(column_family, files).disk_after(events, disk) == reconciled(disk, files),
        forall|i: int|
            0 <= i < files.len() ==> {
                &&& initial(column_family, files).disk_after(events, disk).contains_key(
                    #[trigger] files[i],
                )
                &&& initial(column_family, files).disk_after(events, disk)[files[i]]
                    == (FileOnDisk { global_seqno: UNASSIGNED_SEQNO, durable: true })
            },
{
    let c = initial(column_family, files);
    lemma_disk_follows_the_run(c, events, disk);
    lemma_run_keeps_request(c, events);
}

/// Preparing is idempotent: on files that were prepared before, it changes
/// nothing.
pub proof fn lemma_reconciled_is_idempotent(
    disk: Map<Seq<char>, FileOnDisk>,
    files: Seq<Seq<char>>,
)
    ensures
        reconciled(reconciled(disk, files), files) == reconciled(disk, files),
{
    assert(reconciled(reconciled(disk, files), files) =~= reconciled(disk, files));
}

/// A request that is made again on the files as an earlier one left them
/// prepares them to the same end: where both came as far as the engine, the
/// files on disk after the second are as they were after the first. The two
/// need not have met the same events on the way.
pub proof fn lemma_retry_reconciles_alike(
    column_family: Seq<char>,
    files: Seq<Seq<char>>,
    first: Seq<EventView>,
    second: Seq<EventView>,
    disk: Map<Seq<char>, FileOnDisk>,
)
    requires
        initial(column_family, files).run(first).phase.engine_reached(),
        initial(column_family, files).run(second).phase.engine_reached(),
    ensures
        initial(column_family, files).disk_after(
            second,
            initial(column_family, files).disk_after(first, disk),
        ) == initial(column_family, files).disk_after(first, disk),
{
    let c = initial(column_family, files);
    let between = c.disk_after(first, disk);
    lemma_files_reconciled_when_engine_is_reached(column_family, files, first, disk);
    lemma_files_reconciled_when_engine_is_reached(column_family, files, second, between);
    lemma_reconciled_is_idempotent(disk, files);
}

proof fn lemma_success_prepares_files(c: CoordinatorView, count: nat)
    requires
        c.phase is Resolving,
        count <= c.files.len(),
    ensures
        c.run(success_events(count)).phase == phase_at_file(c.files, count),
    decreases count,
{
    if count == 0 {
        let events = success_events(0);
        assert(events.last() == EventView::ColumnFamilyFound);
        assert(c.run(events.drop_last()) == c);
    } else {
        let before = success_events((count - 1) as nat);
        let one = before.push(EventView::FileOpened);
        let two = one.push(EventView::SeqnoReset);
        let three = two.push(EventView::FileSynced);
        lemma_success_prepares_files(c, (count - 1) as nat);
        lemma_run_keeps_request(c, before);
        assert(success_events(count) =~= three);
        assert(one.drop_last() =~= before);
        assert(two.drop_last() =~= one);
        assert(three.drop_last() =~= two);
        assert(c.run(one) == c.run(before).step(EventView::FileOpened));
        assert(c.run(two) == c.run(one).step(EventView::SeqnoReset));
        assert(c.run(three) == c.run(two).step(EventView::FileSynced));
    }
}

/// Preparing the files never stops for what a file's embedded sequence number
/// was, nor for an earlier request on the same files: the request reads no
/// file. Where the column family is found and every file is opened, rewritten
/// and synced, the request comes to ask the engine.
pub proof fn lemma_success_reaches_the_engine(column_family: Seq<char>, files: Seq<Seq<char>>)
    ensures
        initial(column_family, files).run(success_events(files.len())).phase is Ingesting,
{
    lemma_success_prepares_files(initial(column_family, files), files.len());
}

/// Where a request failed before the engine was asked (the column family was
/// unknown, or a file could not be opened, rewritten or synced), the engine was
/// never asked to admit anything: not the file that failed, and none of those
/// before it.
pub proof fn lemma_failed_preparation_hands_nothing_over(
    column_family: Seq<char>,
    files: Seq<Seq<char>>,
    events: Seq<EventView>,
    k: int,
)
    requires
        0 <= k <= events.len(),
        initial(column_family, files).run(events).phase matches PhaseView::Failed { error }
            && error.before_engine(),
    ensures
        !(initial(column_family, files).run(events.take(k)).action() is Ingest),
{
    let c = initial(column_family, files);
    let at_k = c.run(events.take(k));
    if at_k.action() is Ingest {
        // Once the engine has been reached, the request never goes back.
        lemma_stable_along_run(
            at_k,
            events.skip(k),
            |s: CoordinatorView| s.phase.engine_reached(),
        );
        lemma_run_split(c, events, k);
    }
}

/// After the engine has admitted the files, the request asks for nothing more:
/// no file is opened, changed or handed over again, whatever is reported.
pub proof fn lemma_nothing_is_touched_after_success(
    column_family: Seq<char>,
    files: Seq<Seq<char>>,
    events: Seq<EventView>,
    k: int,
)
    requires
        0 <= k <= events.len(),
        initial(column_family, files).run(events.take(k)).phase is Done,
    ensures
        initial(column_family, files).run(events) == initial(column_family, files).run(
            events.take(k),
        ),
        initial(column_family, files).run(events).action() is Finish,
        !initial(column_family, files).run(events).action().touches_files(),
{
    let c = initial(column_family, files);
    lemma_run_split(c, events, k);
    lemma_terminal_is_final(c.run(events.take(k)), events.skip(k));
}

/// What the engine returns on success is what the request ends with, be it
/// true or false; and what it gives as its reason on refusal is the error's
/// cause.
pub proof fn lemma_engine_answer_is_passed_through(c: CoordinatorView, event: EventView)
    requires
        c.phase is Ingesting,
    ensures
        event matches EventView::Ingested { fallback_flush } ==> c.step(event).phase == (
        PhaseView::Done { fallback_flush }),
        event matches EventView::IngestRejected { cause } ==> c.step(event).phase == (
        PhaseView::Failed { error: IngestErrorView::IngestionRejected { cause } }),
{
}

/// The column family was found: the request has gone on to the files.
spec fn resolved(c: CoordinatorView) -> bool {
    !(c.phase is Resolving) && c.phase != (PhaseView::Failed {
        error: IngestErrorView::ColumnFamilyNotFound,
    })
}

/// A column family that the engine does not know ends a fresh request with
/// `ColumnFamilyNotFound`.
pub proof fn lemma_unknown_column_family_fails(column_family: Seq<char>, files: Seq<Seq<char>>)
    ensures
        initial(column_family, files).action() == (ActionView::ResolveColumnFamily {
            name: column_family,
        }),
        initial(column_family, files).step(EventView::ColumnFamilyMissing).phase == (
        PhaseView::Failed { error: IngestErrorView::ColumnFamilyNotFound }),
{
}

/// A request that ended with `ColumnFamilyNotFound` never asked for a file to
/// be opened, changed or handed over: all it asked for was the column family.
pub proof fn lemma_unknown_column_family_touches_no_file(
    column_family: Seq<char>,
    files: Seq<Seq<char>>,
    events: Seq<EventView>,
    k: int,
)
    requires
        0 <= k <= events.len(),
        initial(column_family, files).run(events).phase == (PhaseView::Failed {
            error: IngestErrorView::ColumnFamilyNotFound,
        }),
    ensures
        !initial(column_family, files).run(events.take(k)).action().touches_files(),
{
    let c = initial(column_family, files);
    let at_k = c.run(events.take(k));
    if resolved(at_k) {
        lemma_stable_along_run(at_k, events.skip(k), |s: CoordinatorView| resolved(s));
        lemma_run_split(c, events, k);
    }
}

} // verus!
