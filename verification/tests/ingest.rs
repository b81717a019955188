use engine_rocks::coordinator::{Action, Event, IngestionCoordinator, IngestionOutcome};
use engine_rocks::error::IngestError;
use engine_rocks::model::UNASSIGNED_SEQNO;
use engine_rocks::options::RocksIngestExternalFileOptions;
use std::collections::HashMap;

/// One call that reached the stand-in engine or its file system.
#[derive(Debug, Clone, PartialEq, Eq)]
enum Call {
    Resolve(String),
    Open(String),
    Reset(String, String, u64),
    Sync(String),
    Ingest {
        column_family: String,
        move_files: bool,
        write_global_seqno: bool,
        files: Vec<String>,
    },
}

/// An engine and a file system that live in memory.
struct Stub {
    column_families: Vec<String>,
    footers: HashMap<String, u64>,
    reset_failures: Vec<String>,
    sync_failures: Vec<String>,
    engine_answer: Result<bool, String>,
    takes_files_away: bool,
    calls: Vec<Call>,
    footers_at_ingest: Option<Vec<u64>>,
}

impl Stub {
    fn with_files(files: &[(&str, u64)]) -> Stub {
        Stub {
            column_families: vec!["default".to_string(), "write".to_string()],
            footers: files.iter().map(|(p, s)| (p.to_string(), *s)).collect(),
            reset_failures: Vec::new(),
            sync_failures: Vec::new(),
            engine_answer: Ok(false),
            takes_files_away: false,
            calls: Vec::new(),
            footers_at_ingest: None,
        }
    }

    fn perform(&mut self, action: Action<'_>) -> Option<Event> {
        match action {
            Action::ResolveColumnFamily { name } => {
                self.calls.push(Call::Resolve(name.to_string()));
                if self.column_families.iter().any(|cf| cf == name) {
                    Some(Event::ColumnFamilyFound)
                } else {
                    Some(Event::ColumnFamilyMissing)
                }
            }
            Action::OpenFile { path } => {
                self.calls.push(Call::Open(path.to_string()));
                if self.footers.contains_key(path) {
                    Some(Event::FileOpened)
                } else {
                    Some(Event::FileOpenFailed)
                }
            }
            Action::ResetSeqno { column_family, path, seqno } => {
                self.calls.push(Call::Reset(column_family.to_string(), path.to_string(), seqno));
                if self.reset_failures.iter().any(|p| p == path) {
                    Some(Event::SeqnoResetFailed { cause: format!("cannot rewrite {}", path) })
                } else {
                    self.footers.insert(path.to_string(), seqno);
                    Some(Event::SeqnoReset)
                }
            }
            Action::SyncFile { path } => {
                self.calls.push(Call::Sync(path.to_string()));
                if self.sync_failures.iter().any(|p| p == path) {
                    Some(Event::FileSyncFailed { cause: format!("sync {}: disk gone", path) })
                } else {
                    Some(Event::FileSynced)
                }
            }
            Action::Ingest { column_family, options, files } => {
                self.calls.push(Call::Ingest {
                    column_family: column_family.to_string(),
                    move_files: options.get_move_files(),
                    write_global_seqno: options.get_write_global_seqno(),
                    files: files.to_vec(),
                });
                self.footers_at_ingest = Some(files.iter().map(|f| self.footers[f]).collect());
                match self.engine_answer.clone() {
                    Ok(fallback_flush) => {
                        if self.takes_files_away && options.get_move_files() {
                            for f in files {
                                self.footers.remove(f);
                            }
                        }
                        Some(Event::Ingested { fallback_flush })
                    }
                    Err(cause) => Some(Event::IngestRejected { cause }),
                }
            }
            Action::Finish => None,
        }
    }

    fn ingest_calls(&self) -> Vec<&Call> {
        self.calls.iter().filter(|c| matches!(c, Call::Ingest { .. })).collect()
    }

    fn file_calls(&self) -> usize {
        self.calls.iter().filter(|c| !matches!(c, Call::Resolve(_))).count()
    }
}

fn names(files: &[&str]) -> Vec<String> {
    files.iter().map(|f| f.to_string()).collect()
}

/// Runs one request against the stub to its end.
fn ingest(stub: &mut Stub, cf: &str, files: &[&str]) -> Result<IngestionOutcome, IngestError> {
    let mut request = IngestionCoordinator::new(cf.to_string(), names(files));
    loop {
        let event = stub.perform(request.next_action());
        match event {
            Some(event) => assert!(request.advance(event)),
            None => break,
        }
    }
    assert!(request.is_finished());
    request.result().unwrap()
}

#[test]
fn options_start_with_the_engine_defaults() {
    let opts = RocksIngestExternalFileOptions::new();
    assert!(!opts.get_move_files());
    assert!(opts.get_write_global_seqno());
}

#[test]
fn options_keep_what_was_set() {
    let mut opts = RocksIngestExternalFileOptions::new();
    opts.move_files(true);
    assert!(opts.get_move_files());
    assert!(opts.get_write_global_seqno());
    opts.set_write_global_seqno(false);
    assert!(opts.get_move_files());
    assert!(!opts.get_write_global_seqno());
    opts.move_files(false);
    opts.set_write_global_seqno(true);
    assert_eq!(opts, RocksIngestExternalFileOptions::new());
}

#[test]
fn two_stale_files_are_reset_synced_and_ingested_in_one_call() {
    for fallback in [false, true] {
        let mut stub = Stub::with_files(&[("a.sst", 17), ("b.sst", 17)]);
        stub.engine_answer = Ok(fallback);
        let outcome = ingest(&mut stub, "default", &["a.sst", "b.sst"]).unwrap();
        assert_eq!(outcome, IngestionOutcome { nonblocking_flush_taken: fallback });
        assert_eq!(
            stub.calls,
            vec![
                Call::Resolve("default".to_string()),
                Call::Open("a.sst".to_string()),
                Call::Reset("default".to_string(), "a.sst".to_string(), 0),
                Call::Sync("a.sst".to_string()),
                Call::Open("b.sst".to_string()),
                Call::Reset("default".to_string(), "b.sst".to_string(), 0),
                Call::Sync("b.sst".to_string()),
                Call::Ingest {
                    column_family: "default".to_string(),
                    move_files: true,
                    write_global_seqno: false,
                    files: names(&["a.sst", "b.sst"]),
                },
            ]
        );
        assert_eq!(stub.footers["a.sst"], 0);
        assert_eq!(stub.footers["b.sst"], 0);
    }
}

#[test]
fn every_seqno_is_zero_when_the_engine_is_called() {
    let mut stub =
        Stub::with_files(&[("fresh.sst", 0), ("stale.sst", 42), ("old.sst", u64::MAX)]);
    stub.footers.insert("bystander.sst".to_string(), 9);
    ingest(&mut stub, "write", &["fresh.sst", "stale.sst", "old.sst"]).unwrap();
    assert_eq!(UNASSIGNED_SEQNO, 0);
    assert_eq!(stub.footers_at_ingest, Some(vec![0, 0, 0]));
    assert_eq!(stub.footers["bystander.sst"], 9);
}

#[test]
fn a_retried_request_reconciles_to_the_same_end() {
    let mut stub = Stub::with_files(&[("a.sst", 5), ("b.sst", 0)]);
    stub.engine_answer = Err("key range overlaps".to_string());
    let first = ingest(&mut stub, "default", &["a.sst", "b.sst"]);
    assert_eq!(
        first,
        Err(IngestError::IngestionRejected { cause: "key range overlaps".to_string() })
    );
    let after_first = stub.footers.clone();
    let seen_first = stub.footers_at_ingest.clone();

    stub.engine_answer = Ok(false);
    let second = ingest(&mut stub, "default", &["a.sst", "b.sst"]);
    assert_eq!(second, Ok(IngestionOutcome { nonblocking_flush_taken: false }));
    assert_eq!(stub.footers, after_first);
    assert_eq!(stub.footers_at_ingest, seen_first);
    assert_eq!(stub.footers_at_ingest, Some(vec![0, 0]));
    assert_eq!(stub.ingest_calls().len(), 2);
}

#[test]
fn an_unreadable_file_keeps_every_file_from_the_engine() {
    let all = ["f0.sst", "f1.sst", "f2.sst"];
    for k in 0..all.len() {
        let present: Vec<(&str, u64)> =
            all.iter().enumerate().filter(|(i, _)| *i != k).map(|(_, f)| (*f, 3)).collect();
        let mut stub = Stub::with_files(&present);
        let result = ingest(&mut stub, "default", &all);
        assert_eq!(result, Err(IngestError::FileOpenError { path: all[k].to_string() }));
        assert!(stub.ingest_calls().is_empty());
        assert_eq!(stub.calls.last(), Some(&Call::Open(all[k].to_string())));
        assert_eq!(stub.calls.len(), 1 + 3 * k + 1);
    }
}

#[test]
fn a_failed_rewrite_ends_the_request_before_the_engine() {
    let mut stub = Stub::with_files(&[("a.sst", 1), ("b.sst", 2), ("c.sst", 3)]);
    stub.reset_failures.push("b.sst".to_string());
    let result = ingest(&mut stub, "default", &["a.sst", "b.sst", "c.sst"]);
    assert_eq!(
        result,
        Err(IngestError::SeqnoResetError {
            path: "b.sst".to_string(),
            cause: "cannot rewrite b.sst".to_string(),
        })
    );
    assert!(stub.ingest_calls().is_empty());
    assert_eq!(stub.footers["a.sst"], 0);
    assert_eq!(stub.footers["b.sst"], 2);
    assert_eq!(stub.footers["c.sst"], 3);
    assert!(!stub.calls.contains(&Call::Sync("b.sst".to_string())));
    assert!(!stub.calls.contains(&Call::Open("c.sst".to_string())));
}

#[test]
fn a_failed_sync_ends_the_request_before_the_engine() {
    let mut stub = Stub::with_files(&[("a.sst", 1), ("b.sst", 2)]);
    stub.sync_failures.push("a.sst".to_string());
    let result = ingest(&mut stub, "default", &["a.sst", "b.sst"]);
    assert_eq!(
        result,
        Err(IngestError::SyncError {
            path: "a.sst".to_string(),
            cause: "sync a.sst: disk gone".to_string(),
        })
    );
    assert!(stub.ingest_calls().is_empty());
    assert_eq!(
        stub.calls,
        vec![
            Call::Resolve("default".to_string()),
            Call::Open("a.sst".to_string()),
            Call::Reset("default".to_string(), "a.sst".to_string(), 0),
            Call::Sync("a.sst".to_string()),
        ]
    );
}

#[test]
fn the_rewrite_comes_before_the_sync_of_each_file() {
    let mut stub = Stub::with_files(&[("a.sst", 8), ("b.sst", 8)]);
    ingest(&mut stub, "default", &["a.sst", "b.sst"]).unwrap();
    for f in ["a.sst", "b.sst"] {
        let at =
            |wanted: &dyn Fn(&Call) -> bool| stub.calls.iter().position(|c| wanted(c)).unwrap();
        let open = at(&|c| matches!(c, Call::Open(p) if p == f));
        let reset = at(&|c| matches!(c, Call::Reset(_, p, _) if p == f));
        let sync = at(&|c| matches!(c, Call::Sync(p) if p == f));
        let engine = at(&|c| matches!(c, Call::Ingest { .. }));
        assert!(open < reset && reset < sync && sync < engine);
    }
}

#[test]
fn moved_files_are_not_touched_after_success() {
    let mut stub = Stub::with_files(&[("a.sst", 17), ("b.sst", 17)]);
    stub.takes_files_away = true;
    let mut request =
        IngestionCoordinator::new("default".to_string(), names(&["a.sst", "b.sst"]));
    while let Some(event) = stub.perform(request.next_action()) {
        assert!(request.advance(event));
    }
    assert!(stub.footers.is_empty());
    let calls_at_end = stub.calls.len();
    assert!(matches!(stub.calls.last(), Some(Call::Ingest { move_files: true, .. })));

    assert_eq!(request.next_action(), Action::Finish);
    for event in [
        Event::ColumnFamilyFound,
        Event::FileOpened,
        Event::SeqnoReset,
        Event::FileSynced,
        Event::Ingested { fallback_flush: true },
        Event::IngestRejected { cause: "late".to_string() },
    ] {
        assert!(!request.advance(event));
        assert_eq!(request.next_action(), Action::Finish);
        assert!(stub.perform(request.next_action()).is_none());
    }
    assert_eq!(stub.calls.len(), calls_at_end);
    assert_eq!(request.result(), Some(Ok(IngestionOutcome { nonblocking_flush_taken: false })));
}

#[test]
fn the_fallback_flag_is_passed_through_when_true() {
    let mut stub = Stub::with_files(&[("a.sst", 0)]);
    stub.engine_answer = Ok(true);
    let outcome = ingest(&mut stub, "default", &["a.sst"]);
    assert_eq!(outcome, Ok(IngestionOutcome { nonblocking_flush_taken: true }));
}

#[test]
fn the_fallback_flag_is_passed_through_when_false() {
    let mut stub = Stub::with_files(&[("a.sst", 0)]);
    stub.engine_answer = Ok(false);
    let outcome = ingest(&mut stub, "default", &["a.sst"]);
    assert_eq!(outcome, Ok(IngestionOutcome { nonblocking_flush_taken: false }));
}

#[test]
fn an_unknown_column_family_touches_no_file() {
    let mut stub = Stub::with_files(&[("a.sst", 17), ("b.sst", 17)]);
    let result = ingest(&mut stub, "lock", &["a.sst", "b.sst"]);
    assert_eq!(result, Err(IngestError::ColumnFamilyNotFound));
    assert_eq!(stub.calls, vec![Call::Resolve("lock".to_string())]);
    assert_eq!(stub.file_calls(), 0);
    assert_eq!(stub.footers["a.sst"], 17);
    assert_eq!(stub.footers["b.sst"], 17);
}

#[test]
fn the_engine_s_refusal_is_reported_with_its_cause() {
    let mut stub = Stub::with_files(&[("a.sst", 17)]);
    stub.engine_answer = Err("Corruption: bad block".to_string());
    let result = ingest(&mut stub, "default", &["a.sst"]);
    assert_eq!(
        result,
        Err(IngestError::IngestionRejected { cause: "Corruption: bad block".to_string() })
    );
    assert_eq!(stub.footers["a.sst"], 0);
    assert_eq!(stub.ingest_calls().len(), 1);
}

#[test]
fn an_event_that_answers_nothing_is_turned_away() {
    let mut request = IngestionCoordinator::new("default".to_string(), names(&["a.sst"]));
    assert!(!request.advance(Event::FileOpened));
    assert!(!request.advance(Event::Ingested { fallback_flush: true }));
    assert_eq!(request.next_action(), Action::ResolveColumnFamily { name: "default" });
    assert!(request.advance(Event::ColumnFamilyFound));

    assert!(!request.advance(Event::ColumnFamilyFound));
    assert!(!request.advance(Event::SeqnoReset));
    assert!(!request.advance(Event::FileSynced));
    assert_eq!(request.next_action(), Action::OpenFile { path: "a.sst" });
    assert!(request.advance(Event::FileOpened));

    assert!(!request.advance(Event::FileOpened));
    assert!(!request.advance(Event::FileSyncFailed { cause: "early".to_string() }));
    assert_eq!(
        request.next_action(),
        Action::ResetSeqno { column_family: "default", path: "a.sst", seqno: 0 }
    );
    assert!(request.advance(Event::SeqnoReset));

    assert!(!request.advance(Event::SeqnoReset));
    assert!(!request.advance(Event::IngestRejected { cause: "early".to_string() }));
    assert_eq!(request.next_action(), Action::SyncFile { path: "a.sst" });
    assert!(request.advance(Event::FileSynced));

    assert!(!request.advance(Event::FileSynced));
    assert!(!request.advance(Event::ColumnFamilyMissing));
    assert!(!request.is_finished());
    assert!(request.advance(Event::Ingested { fallback_flush: true }));
    assert!(request.is_finished());
}

#[test]
fn a_request_without_files_goes_straight_to_the_engine() {
    let mut request = IngestionCoordinator::new("write".to_string(), Vec::new());
    assert!(request.advance(Event::ColumnFamilyFound));
    let mut expected = RocksIngestExternalFileOptions::new();
    expected.move_files(true);
    expected.set_write_global_seqno(false);
    assert_eq!(
        request.next_action(),
        Action::Ingest { column_family: "write", options: expected, files: &[] }
    );
    assert!(request.advance(Event::Ingested { fallback_flush: false }));
    assert_eq!(request.result(), Some(Ok(IngestionOutcome { nonblocking_flush_taken: false })));
}

#[test]
fn an_unfinished_request_has_no_result() {
    let request = IngestionCoordinator::new("default".to_string(), names(&["a.sst"]));
    assert!(!request.is_finished());
    assert_eq!(request.result(), None);

    let mut request = IngestionCoordinator::new("default".to_string(), names(&["a.sst"]));
    assert!(request.advance(Event::ColumnFamilyFound));
    assert!(request.advance(Event::FileOpened));
    assert!(!request.is_finished());
    assert_eq!(request.result(), None);
}

#[test]
fn the_request_keeps_its_column_family_and_files() {
    let mut request =
        IngestionCoordinator::new("default".to_string(), names(&["x.sst", "y.sst", "x.sst"]));
    assert_eq!(request.column_family(), "default");
    assert_eq!(request.files().to_vec(), names(&["x.sst", "y.sst", "x.sst"]));
    assert!(request.advance(Event::ColumnFamilyFound));
    assert!(request.advance(Event::FileOpened));
    assert_eq!(request.column_family(), "default");
    assert_eq!(request.files().to_vec(), names(&["x.sst", "y.sst", "x.sst"]));
}

#[test]
fn a_file_named_twice_is_prepared_twice() {
    let mut stub = Stub::with_files(&[("x.sst", 4), ("y.sst", 6)]);
    ingest(&mut stub, "default", &["x.sst", "y.sst", "x.sst"]).unwrap();
    assert_eq!(stub.calls.len(), 1 + 3 * 3 + 1);
    assert_eq!(stub.footers_at_ingest, Some(vec![0, 0, 0]));
}

#[test]
fn an_error_names_its_file() {
    assert_eq!(IngestError::ColumnFamilyNotFound.path(), None);
    assert_eq!(IngestError::FileOpenError { path: "a.sst".to_string() }.path(), Some("a.sst"));
    assert_eq!(
        IngestError::SeqnoResetError { path: "b.sst".to_string(), cause: "x".to_string() }.path(),
        Some("b.sst")
    );
    assert_eq!(
        IngestError::SyncError { path: "c.sst".to_string(), cause: "y".to_string() }.path(),
        Some("c.sst")
    );
    assert_eq!(IngestError::IngestionRejected { cause: "z".to_string() }.path(), None);
}
