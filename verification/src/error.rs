use vstd::prelude::*;

verus! {

/// What an [`IngestError`] says, with its texts as sequences of characters.
pub enum IngestErrorView {
    ColumnFamilyNotFound,
    FileOpenError { path: Seq<char> },
    SeqnoResetError { path: Seq<char>, cause: Seq<char> },
    SyncError { path: Seq<char>, cause: Seq<char> },
    IngestionRejected { cause: Seq<char> },
}

/// Why an ingestion request ended without the files being admitted.
///
/// Every variant ends the request; nothing is retried.
#[derive(Debug, PartialEq, Eq)]
pub enum IngestError {
    /// The column family's name does not resolve against the engine.
    ColumnFamilyNotFound,
    /// The file at `path` could not be opened.
    FileOpenError { path: String },
    /// The embedded sequence number of the file at `path` could not be rewritten.
    SeqnoResetError { path: String, cause: String },
    /// The file at `path` could not be made durable.
    SyncError { path: String, cause: String },
    /// The engine refused the files.
    IngestionRejected { cause: String },
}

impl View for IngestError {
    type V = IngestErrorView;

    open spec fn view(&self) -> IngestErrorView {
        match *self {
            IngestError::ColumnFamilyNotFound => IngestErrorView::ColumnFamilyNotFound,
            IngestError::FileOpenError { path } => IngestErrorView::FileOpenError { path: path@ },
            IngestError::SeqnoResetError { path, cause } => IngestErrorView::SeqnoResetError {
                path: path@,
                cause: cause@,
            },
            IngestError::SyncError { path, cause } => IngestErrorView::SyncError {
                path: path@,
                cause: cause@,
            },
            IngestError::IngestionRejected { cause } => IngestErrorView::IngestionRejected {
                cause: cause@,
            },
        }
    }
}

impl IngestErrorView {
    /// The request stopped while a file was being prepared, or before that:
    /// the engine was never asked to admit anything.
    pub open spec fn before_engine(self) -> bool {
        !(self is IngestionRejected)
    }
}

impl IngestError {
    /// The path of the file that the error is about, where it is about one.
    pub fn path(&self) -> (p: Option<&str>)
        ensures
            match self@ {
                IngestErrorView::FileOpenError { path } => p is Some && p->0@ == path,
                IngestErrorView::SeqnoResetError { path, .. } => p is Some && p->0@ == path,
                IngestErrorView::SyncError { path, .. } => p is Some && p->0@ == path,
                _ => p is None,
            },
    {
        match self {
            IngestError::FileOpenError { path } => Some(path.as_str()),
            IngestError::SeqnoResetError { path, .. } => Some(path.as_str()),
            IngestError::SyncError { path, .. } => Some(path.as_str()),
            _ => None,
        }
    }
}

} // verus!
