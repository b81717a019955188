//! The request as a value that a caller drives: it names the next action, and
//! takes in what came of it.

use crate::error::IngestError;
use crate::model::{
    initial, ActionView, CoordinatorView, EventView, PhaseView, ReconcileStep, UNASSIGNED_SEQNO,
};
use crate::options::RocksIngestExternalFileOptions;
use vstd::prelude::*;

verus! {

/// The paths of a list of files, each as a sequence of characters.
pub open spec fn paths_of(files: Seq<String>) -> Seq<Seq<char>> {
    Seq::new(files.len(), |i: int| files[i]@)
}

/// What a request that succeeded reports.
#[derive(Clone, Copy, Debug, PartialEq, Eq, Structural)]
pub struct IngestionOutcome {
    /// The engine had to fall back to flushing its in-memory data itself.
    /// A signal for metrics: the files were admitted either way.
    pub nonblocking_flush_taken: bool,
}

/// What came of the action that was pending.
#[derive(Debug, PartialEq, Eq)]
pub enum Event {
    /// The column family's name resolves.
    ColumnFamilyFound,
    /// The engine has no column family of that name.
    ColumnFamilyMissing,
    /// The file is open.
    FileOpened,
    /// The file could not be opened.
    FileOpenFailed,
    /// The file's embedded sequence number now has the value asked for.
    SeqnoReset,
    /// The embedded sequence number could not be rewritten.
    SeqnoResetFailed { cause: String },
    /// The file's contents and metadata are durable.
    FileSynced,
    /// The file could not be made durable.
    FileSyncFailed { cause: String },
    /// The engine admitted the files; `fallback_flush` is what it returned.
    Ingested { fallback_flush: bool },
    /// The engine refused the files.
    IngestRejected { cause: String },
}

impl View for Event {
    type V = EventView;

    open spec fn view(&self) -> EventView {
        match *self {
            Event::ColumnFamilyFound => EventView::ColumnFamilyFound,
            Event::ColumnFamilyMissing => EventView::ColumnFamilyMissing,
            Event::FileOpened => EventView::FileOpened,
            Event::FileOpenFailed => EventView::FileOpenFailed,
            Event::SeqnoReset => EventView::SeqnoReset,
            Event::SeqnoResetFailed { cause } => EventView::SeqnoResetFailed { cause: cause@ },
            Event::FileSynced => EventView::FileSynced,
            Event::FileSyncFailed { cause } => EventView::FileSyncFailed { cause: cause@ },
            Event::Ingested { fallback_flush } => EventView::Ingested { fallback_flush },
            Event::IngestRejected { cause } => EventView::IngestRejected { cause: cause@ },
        }
    }
}

/// What the caller is to do next. Each action names all that the outside call
/// takes.
#[derive(Clone, Copy, Debug, PartialEq, Eq)]
pub enum Action<'a> {
    /// Look the column family up in the engine.
    ResolveColumnFamily { name: &'a str },
    /// Open the file, and keep it open until it is synced or the request ends.
    OpenFile { path: &'a str },
    /// Rewrite the file's embedded global sequence number to `seqno`.
    ResetSeqno { column_family: &'a str, path: &'a str, seqno: u64 },
    /// Make the open file's contents and metadata durable, then close it.
    SyncFile { path: &'a str },
    /// Hand all files to the engine's flush-avoiding ingestion, in one call.
    Ingest { column_family: &'a str, options: RocksIngestExternalFileOptions, files: &'a [String] },
    /// Nothing is left to do: take the result.
    Finish,
}

impl<'a> View for Action<'a> {
    type V = ActionView;

    open spec fn view(&self) -> ActionView {
        match *self {
            Action::ResolveColumnFamily { name } => ActionView::ResolveColumnFamily { name: name@ },
            Action::OpenFile { path } => ActionView::OpenFile { path: path@ },
            Action::ResetSeqno { column_family, path, seqno } => ActionView::ResetSeqno {
                column_family: column_family@,
                path: path@,
                seqno,
            },
            Action::SyncFile { path } => ActionView::SyncFile { path: path@ },
            Action::Ingest { column_family, options, files } => ActionView::Ingest {
                column_family: column_family@,
                options: options@,
                files: paths_of(files@),
            },
            Action::Finish => ActionView::Finish,
        }
    }
}

enum Phase {
    Resolving,
    Reconciling { index: usize, step: ReconcileStep },
    Ingesting,
    Done { outcome: IngestionOutcome },
    Failed { error: IngestError },
}

impl View for Phase {
    type V = PhaseView;

    closed spec fn view(&self) -> PhaseView {
        match *self {
            Phase::Resolving => PhaseView::Resolving,
            Phase::Reconciling { index, step } => PhaseView::Reconciling {
                index: index as nat,
                step,
            },
            Phase::Ingesting => PhaseView::Ingesting,
            Phase::Done { outcome } => PhaseView::Done {
                fallback_flush: outcome.nonblocking_flush_taken,
            },
            Phase::Failed { error } => PhaseView::Failed { error: error@ },
        }
    }
}

/// One ingestion request: a column family, the files to admit into it, and how
/// far the work has come.
pub struct IngestionCoordinator {
    column_family: String,
    files: Vec<String>,
    options: RocksIngestExternalFileOptions,
    phase: Phase,
}

impl View for IngestionCoordinator {
    type V = CoordinatorView;

    closed spec fn view(&self) -> CoordinatorView {
        CoordinatorView {
            column_family: self.column_family@,
            files: paths_of(self.files@),
            options: self.options@,
            phase: self.phase@,
        }
    }
}

impl IngestionCoordinator {
    #[verifier::type_invariant]
    spec fn inv(&self) -> bool {
        self@.wf()
    }

    /// A request to admit `files`, in this order, into `column_family`.
    /// Nothing has been done yet.
    pub fn new(column_family: String, files: Vec<String>) -> (request: IngestionCoordinator)
        ensures
            request@ == initial(column_family@, paths_of(files@)),
    {
        let mut options = RocksIngestExternalFileOptions::new();
        options.move_files(true);
        options.set_write_global_seqno(false);
        IngestionCoordinator { column_family, files, options, phase: Phase::Resolving }
    }

    /// The column family that the files go into.
    pub fn column_family(&self) -> (name: &str)
        ensures
            name@ == self@.column_family,
    {
        self.column_family.as_str()
    }

    /// The files of the request, in the order given.
    pub fn files(&self) -> (files: &[String])
        ensures
            paths_of(files@) == self@.files,
    {
        self.files.as_slice()
    }

    /// Whether the request has ended, well or not.
    pub fn is_finished(&self) -> (finished: bool)
        ensures
            finished == self@.phase.is_terminal(),
    {
        match self.phase {
            Phase::Done { .. } => true,
            Phase::Failed { .. } => true,
            _ => false,
        }
    }

    /// What is to be done next. A file that is asked for is always one of the
    /// request's own.
    pub fn next_action(&self) -> (action: Action<'_>)
        ensures
            self@.wf(),
            action@ == self@.action(),
    {
        proof {
            use_type_invariant(self);
        }
        match self.phase {
            Phase::Resolving => Action::ResolveColumnFamily { name: self.column_family.as_str() },
            Phase::Reconciling { index, step } => {
                let path = self.files[index].as_str();
                match step {
                    ReconcileStep::Open => Action::OpenFile { path },
                    ReconcileStep::ResetSeqno => Action::ResetSeqno {
                        column_family: self.column_family.as_str(),
                        path,
                        seqno: UNASSIGNED_SEQNO,
                    },
                    ReconcileStep::Sync => Action::SyncFile { path },
                }
            },
            Phase::Ingesting => Action::Ingest {
                column_family: self.column_family.as_str(),
                options: self.options,
                files: self.files.as_slice(),
            },
            Phase::Done { .. } => Action::Finish,
            Phase::Failed { .. } => Action::Finish,
        }
    }

    fn phase_at_file(&self, index: usize) -> (phase: Phase)
        requires
            index <= self.files.len(),
        ensures
            phase@ == crate::model::phase_at_file(self@.files, index as nat),
    {
        if index < self.files.len() {
            Phase::Reconciling { index, step: ReconcileStep::Open }
        } else {
            Phase::Ingesting
        }
    }

    /// Takes in what came of the pending action. An event that does not answer
    /// it is turned away, and the request stays as it is.
    pub fn advance(&mut self, event: Event) -> (accepted: bool)
        ensures
            accepted == old(self)@.accepts(event@),
            final(self)@ == old(self)@.step(event@),
            final(self)@.wf(),
    {
        proof {
            use_type_invariant(&*self);
        }
        let next: Option<Phase> = match self.phase {
            Phase::Resolving => match event {
                Event::ColumnFamilyFound => Some(self.phase_at_file(0)),
                Event::ColumnFamilyMissing => Some(
                    Phase::Failed { error: IngestError::ColumnFamilyNotFound },
                ),
                _ => None,
            },
            Phase::Reconciling { index, step: ReconcileStep::Open } => match event {
                Event::FileOpened => Some(
                    Phase::Reconciling { index, step: ReconcileStep::ResetSeqno },
                ),
                Event::FileOpenFailed => Some(
                    Phase::Failed {
                        error: IngestError::FileOpenError { path: self.files[index].clone() },
                    },
                ),
                _ => None,
            },
            Phase::Reconciling { index, step: ReconcileStep::ResetSeqno } => match event {
                Event::SeqnoReset => Some(Phase::Reconciling { index, step: ReconcileStep::Sync }),
                Event::SeqnoResetFailed { cause } => Some(
                    Phase::Failed {
                        error: IngestError::SeqnoResetError {
                            path: self.files[index].clone(),
                            cause,
                        },
                    },
                ),
                _ => None,
            },
            Phase::Reconciling { index, step: ReconcileStep::Sync } => match event {
                Event::FileSynced => {
                    assert(index < self.files.len());
                    Some(self.phase_at_file(index + 1))
                },
                Event::FileSyncFailed { cause } => Some(
                    Phase::Failed {
                        error: IngestError::SyncError { path: self.files[index].clone(), cause },
                    },
                ),
                _ => None,
            },
            Phase::Ingesting => match event {
                Event::Ingested { fallback_flush } => Some(
                    Phase::Done {
                        outcome: IngestionOutcome { nonblocking_flush_taken: fallback_flush },
                    },
                ),
                Event::IngestRejected { cause } => Some(
                    Phase::Failed { error: IngestError::IngestionRejected { cause } },
                ),
                _ => None,
            },
            Phase::Done { .. } => None,
            Phase::Failed { .. } => None,
        };
        match next {
            Some(phase) => {
                self.phase = phase;
                true
            },
            None => false,
        }
    }

    /// The result of a request that has ended, and `None` of one that has not.
    pub fn result(self) -> (result: Option<Result<IngestionOutcome, IngestError>>)
        ensures
            match self@.phase {
                PhaseView::Done { fallback_flush } => result == Some(
                    Ok::<IngestionOutcome, IngestError>(
                        IngestionOutcome { nonblocking_flush_taken: fallback_flush },
                    ),
                ),
                PhaseView::Failed { error } => result matches Some(Err(e)) && e@ == error,
                _ => result is None,
            },
    {
        match self.phase {
            Phase::Done { outcome } => Some(Ok(outcome)),
            Phase::Failed { error } => Some(Err(error)),
            _ => None,
        }
    }
}

} // verus!
