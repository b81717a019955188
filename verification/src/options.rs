use vstd::prelude::*;

verus! {

/// What a set of ingestion options says, as plain values.
pub struct IngestOptionsView {
    /// The engine takes ownership of each file instead of copying it.
    pub move_files: bool,
    /// The engine rewrites each file's embedded global sequence number itself.
    pub write_global_seqno: bool,
}

/// Settings that the engine reads when it admits external table files.
///
/// The value is plain configuration: changing it has no effect on any file
/// until it is handed to the engine together with the files.
#[derive(Clone, Copy, Debug, PartialEq, Eq, Structural)]
pub struct RocksIngestExternalFileOptions {
    move_files: bool,
    write_global_seqno: bool,
}

impl View for RocksIngestExternalFileOptions {
    type V = IngestOptionsView;

    closed spec fn view(&self) -> IngestOptionsView {
        IngestOptionsView {
            move_files: self.move_files,
            write_global_seqno: self.write_global_seqno,
        }
    }
}

impl RocksIngestExternalFileOptions {
    /// The engine's defaults: files are copied, and the engine rewrites the
    /// embedded sequence number.
    pub fn new() -> (opts: RocksIngestExternalFileOptions)
        ensures
            opts@ == (IngestOptionsView { move_files: false, write_global_seqno: true }),
    {
        RocksIngestExternalFileOptions { move_files: false, write_global_seqno: true }
    }

    /// Chooses between moving (`true`) and copying (`false`) the files.
    pub fn move_files(&mut self, f: bool)
        ensures
            final(self)@ == (IngestOptionsView { move_files: f, ..old(self)@ }),
    {
        self.move_files = f;
    }

    /// Whether the files are moved into the engine's storage.
    pub fn get_move_files(&self) -> (f: bool)
        ensures
            f == self@.move_files,
    {
        self.move_files
    }

    /// Whether the engine rewrites the embedded sequence number itself.
    pub fn get_write_global_seqno(&self) -> (f: bool)
        ensures
            f == self@.write_global_seqno,
    {
        self.write_global_seqno
    }

    /// Chooses whether the engine rewrites the embedded sequence number itself.
    pub fn set_write_global_seqno(&mut self, f: bool)
        ensures
            final(self)@ == (IngestOptionsView { write_global_seqno: f, ..old(self)@ }),
    {
        self.write_global_seqno = f;
    }
}

} // verus!
