//! The request as a state machine over plain values.
//!
//! A request is linear: the column family is resolved, each file is prepared in
//! turn (opened, its embedded sequence number rewritten, made durable), and
//! only then are all files handed to the engine in one call. Any failure ends
//! the request where it stands.

use crate::error::IngestErrorView;
use crate::options::IngestOptionsView;
use vstd::prelude::*;

verus! {

/// The sequence number that every file carries when the engine receives it:
/// the one the engine reads as "not yet assigned".
pub const UNASSIGNED_SEQNO: u64 = 0;

/// The three things done to a file, in this order.
#[derive(Clone, Copy, Debug, PartialEq, Eq, Structural)]
pub enum ReconcileStep {
    Open,
    ResetSeqno,
    Sync,
}

/// Where a request stands.
pub enum PhaseView {
    Resolving,
    Reconciling { index: nat, step: ReconcileStep },
    Ingesting,
    Done { fallback_flush: bool },
    Failed { error: IngestErrorView },
}

/// What the outside world reports back after an action.
pub enum EventView {
    ColumnFamilyFound,
    ColumnFamilyMissing,
    FileOpened,
    FileOpenFailed,
    SeqnoReset,
    SeqnoResetFailed { cause: Seq<char> },
    FileSynced,
    FileSyncFailed { cause: Seq<char> },
    Ingested { fallback_flush: bool },
    IngestRejected { cause: Seq<char> },
}

/// What the request asks the outside world to do next.
pub enum ActionView {
    ResolveColumnFamily { name: Seq<char> },
    OpenFile { path: Seq<char> },
    ResetSeqno { column_family: Seq<char>, path: Seq<char>, seqno: u64 },
    SyncFile { path: Seq<char> },
    Ingest { column_family: Seq<char>, options: IngestOptionsView, files: Seq<Seq<char>> },
    Finish,
}

/// A request and how far it has come.
pub struct CoordinatorView {
    pub column_family: Seq<char>,
    pub files: Seq<Seq<char>>,
    pub options: IngestOptionsView,
    pub phase: PhaseView,
}

/// The options of every request: the engine takes the files over, and leaves
/// their embedded sequence numbers as it finds them.
pub open spec fn ingest_options() -> IngestOptionsView {
    IngestOptionsView { move_files: true, write_global_seqno: false }
}

/// A fresh request.
pub open spec fn initial(column_family: Seq<char>, files: Seq<Seq<char>>) -> CoordinatorView {
    CoordinatorView { column_family, files, options: ingest_options(), phase: PhaseView::Resolving }
}

/// The phase in which the file at `index` is taken up, or the engine's turn
/// when no file is left.
pub open spec fn phase_at_file(files: Seq<Seq<char>>, index: nat) -> PhaseView {
    if index < files.len() {
        PhaseView::Reconciling { index, step: ReconcileStep::Open }
    } else {
        PhaseView::Ingesting
    }
}

impl PhaseView {
    /// Nothing more will be asked of the outside world.
    pub open spec fn is_terminal(self) -> bool {
        self is Done || self is Failed
    }

    /// Every file has been prepared: the engine is being asked to admit the
    /// files, or has answered.
    pub open spec fn engine_reached(self) -> bool {
        match self {
            PhaseView::Ingesting => true,
            PhaseView::Done { .. } => true,
            PhaseView::Failed { error } => !error.before_engine(),
            _ => false,
        }
    }
}

impl ActionView {
    /// The action opens, changes or hands over a file.
    pub open spec fn touches_files(self) -> bool {
        self is OpenFile || self is ResetSeqno || self is SyncFile || self is Ingest
    }
}

/// What is known of a file on disk: the global sequence number embedded in
/// its footer, and whether its present contents would survive a crash.
pub struct FileOnDisk {
    pub global_seqno: u64,
    pub durable: bool,
}

/// A file as the engine is to receive it.
pub open spec fn reconciled_file() -> FileOnDisk {
    FileOnDisk { global_seqno: UNASSIGNED_SEQNO, durable: true }
}

/// What has become of the files on disk, given by path, after an action that
/// ended as `event`. A rewrite that succeeded leaves its value in the file's
/// footer, not yet durably; a sync that succeeded makes the file durable.
/// Nothing else changes any file.
pub open spec fn disk_after_event(
    action: ActionView,
    event: EventView,
    disk: Map<Seq<char>, FileOnDisk>,
) -> Map<Seq<char>, FileOnDisk> {
    match (action, event) {
        (ActionView::ResetSeqno { path, seqno, .. }, EventView::SeqnoReset) => disk.insert(
            path,
            FileOnDisk { global_seqno: seqno, durable: false },
        ),
        (ActionView::SyncFile { path }, EventView::FileSynced) => if disk.contains_key(path) {
            disk.insert(path, FileOnDisk { durable: true, ..disk[path] })
        } else {
            disk
        },
        _ => disk,
    }
}

/// The files on disk once each of `files` has been reset and synced.
pub open spec fn reconciled(disk: Map<Seq<char>, FileOnDisk>, files: Seq<Seq<char>>) -> Map<
    Seq<char>,
    FileOnDisk,
> {
    Map::new(
        |path: Seq<char>| disk.contains_key(path) || files.contains(path),
        |path: Seq<char>|
            if files.contains(path) {
                reconciled_file()
            } else {
                disk[path]
            },
    )
}

/// What is reported where nothing fails before the engine is asked: the
/// column family is found, and each of `count` files is opened, rewritten and
/// synced.
pub open spec fn success_events(count: nat) -> Seq<EventView>
    decreases count,
{
    if count == 0 {
        seq![EventView::ColumnFamilyFound]
    } else {
        success_events((count - 1) as nat) + seq![
            EventView::FileOpened,
            EventView::SeqnoReset,
            EventView::FileSynced,
        ]
    }
}

impl CoordinatorView {
    /// A file that is being prepared is one of the request's files.
    pub open spec fn wf(self) -> bool {
        self.phase matches PhaseView::Reconciling { index, .. } ==> index < self.files.len()
    }

    /// The event answers the action that is pending.
    pub open spec fn accepts(self, event: EventView) -> bool {
        match self.phase {
            PhaseView::Resolving => event is ColumnFamilyFound || event is ColumnFamilyMissing,
            PhaseView::Reconciling { step: ReconcileStep::Open, .. } => event is FileOpened
                || event is FileOpenFailed,
            PhaseView::Reconciling { step: ReconcileStep::ResetSeqno, .. } => event is SeqnoReset
                || event is SeqnoResetFailed,
            PhaseView::Reconciling { step: ReconcileStep::Sync, .. } => event is FileSynced
                || event is FileSyncFailed,
            PhaseView::Ingesting => event is Ingested || event is IngestRejected,
            PhaseView::Done { .. } => false,
            PhaseView::Failed { .. } => false,
        }
    }

    /// The phase that follows an event which answers the pending action.
    pub open spec fn next_phase(self, event: EventView) -> PhaseView {
        match (self.phase, event) {
            (PhaseView::Resolving, EventView::ColumnFamilyFound) => phase_at_file(self.files, 0),
            (PhaseView::Resolving, EventView::ColumnFamilyMissing) => PhaseView::Failed {
                error: IngestErrorView::ColumnFamilyNotFound,
            },
            (
                PhaseView::Reconciling { index, step: ReconcileStep::Open },
                EventView::FileOpened,
            ) => PhaseView::Reconciling { index, step: ReconcileStep::ResetSeqno },
            (
                PhaseView::Reconciling { index, step: ReconcileStep::Open },
                EventView::FileOpenFailed,
            ) => PhaseView::Failed {
                error: IngestErrorView::FileOpenError { path: self.files[index as int] },
            },
            (
                PhaseView::Reconciling { index, step: ReconcileStep::ResetSeqno },
                EventView::SeqnoReset,
            ) => PhaseView::Reconciling { index, step: ReconcileStep::Sync },
            (
                PhaseView::Reconciling { index, step: ReconcileStep::ResetSeqno },
                EventView::SeqnoResetFailed { cause },
            ) => PhaseView::Failed {
                error: IngestErrorView::SeqnoResetError { path: self.files[index as int], cause },
            },
            (
                PhaseView::Reconciling { index, step: ReconcileStep::Sync },
                EventView::FileSynced,
            ) => phase_at_file(self.files, index + 1),
            (
                PhaseView::Reconciling { index, step: ReconcileStep::Sync },
                EventView::FileSyncFailed { cause },
            ) => PhaseView::Failed {
                error: IngestErrorView::SyncError { path: self.files[index as int], cause },
            },
            (PhaseView::Ingesting, EventView::Ingested { fallback_flush }) => PhaseView::Done {
                fallback_flush,
            },
            (PhaseView::Ingesting, EventView::IngestRejected { cause }) => PhaseView::Failed {
                error: IngestErrorView::IngestionRejected { cause },
            },
            (phase, _) => phase,
        }
    }

    /// The request after an event: it moves on where the event answers the
    /// pending action, and stays as it is where it does not.
    pub open spec fn step(self, event: EventView) -> CoordinatorView {
        if self.accepts(event) {
            CoordinatorView { phase: self.next_phase(event), ..self }
        } else {
            self
        }
    }

    /// What the request asks for in its present phase.
    pub open spec fn action(self) -> ActionView {
        match self.phase {
            PhaseView::Resolving => ActionView::ResolveColumnFamily { name: self.column_family },
            PhaseView::Reconciling { index, step: ReconcileStep::Open } => ActionView::OpenFile {
                path: self.files[index as int],
            },
            PhaseView::Reconciling {
                index,
                step: ReconcileStep::ResetSeqno,
            } => ActionView::ResetSeqno {
                column_family: self.column_family,
                path: self.files[index as int],
                seqno: UNASSIGNED_SEQNO,
            },
            PhaseView::Reconciling { index, step: ReconcileStep::Sync } => ActionView::SyncFile {
                path: self.files[index as int],
            },
            PhaseView::Ingesting => ActionView::Ingest {
                column_family: self.column_family,
                options: self.options,
                files: self.files,
            },
            PhaseView::Done { .. } => ActionView::Finish,
            PhaseView::Failed { .. } => ActionView::Finish,
        }
    }

    /// The request after a run of events, taken in order.
    pub open spec fn run(self, events: Seq<EventView>) -> CoordinatorView
        decreases events.len(),
    {
        if events.len() == 0 {
            self
        } else {
            self.run(events.drop_last()).step(events.last())
        }
    }

    /// The files on disk after a run of events, where they were `disk` before
    /// it and each event is what came of the action pending at its time.
    pub open spec fn disk_after(
        self,
        events: Seq<EventView>,
        disk: Map<Seq<char>, FileOnDisk>,
    ) -> Map<Seq<char>, FileOnDisk>
        decreases events.len(),
    {
        if events.len() == 0 {
            disk
        } else {
            disk_after_event(
                self.run(events.drop_last()).action(),
                events.last(),
                self.disk_after(events.drop_last(), disk),
            )
        }
    }
}

} // verus!
