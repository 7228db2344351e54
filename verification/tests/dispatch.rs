use s3_file_sync::controller::{Controller, Error as ControllerError, Level, Outcome, Source};
use s3_file_sync::database::{Database, Error as DBError, MemoryStore, StorageFailure};
use s3_file_sync::file::File;
use s3_file_sync::uploader::{Action, Error as UploadError, Event, UploadResult, Uploader};
use s3_file_sync::watcher::{Error as WatcherError, FileWatcher, Probe};

fn file(key: &str) -> File {
    File::new("/data".to_string(), key.to_string())
}

fn failure(code: Option<i32>, message: &str) -> Result<(), StorageFailure> {
    Err(StorageFailure { extended_code: code, message: message.to_string() })
}

#[test]
fn second_insert_of_a_key_is_refused() {
    let mut store = MemoryStore::new();
    assert!(!store.contains(&"a/b.txt".to_string()));
    assert!(store.add_file(&file("a/b.txt")).is_ok());
    assert!(store.contains(&"a/b.txt".to_string()));
    let second = store.add_file(&file("a/b.txt"));
    assert!(matches!(second, Err(DBError::FileExists(_))));
    assert!(store.add_file(&file("a/c.txt")).is_ok());
    assert!(matches!(store.add_file(&file("a/b.txt")), Err(DBError::FileExists(_))));
    assert!(store.contains(&"a/b.txt".to_string()));
    assert!(store.contains(&"a/c.txt".to_string()));
    assert!(!store.contains(&"a".to_string()));
}

#[test]
fn constraint_violation_means_the_file_exists() {
    assert!(Database::add_file(Ok(())).is_ok());
    for code in [19, 275, 1555, 2067, 19 + 256 * 5] {
        let recorded = Database::add_file(failure(Some(code), "UNIQUE constraint failed"));
        match recorded {
            Err(error @ DBError::FileExists(_)) => {
                assert_eq!(error.message(), "File exists in database: UNIQUE constraint failed")
            }
            other => panic!("code {}: {:?}", code, other),
        }
    }
    for code in [Some(0), Some(1), Some(5), Some(14), Some(18), Some(20), Some(261), Some(-1), None]
    {
        let recorded = Database::add_file(failure(code, "database is locked"));
        match recorded {
            Err(error @ DBError::Unhandled(_)) => {
                assert_eq!(error.message(), "Got unhandled SQL Error: database is locked")
            }
            other => panic!("code {:?}: {:?}", code, other),
        }
    }
}

#[test]
fn schema_defines_the_table_and_its_indexes() {
    let sql = Database::init_db();
    assert!(sql.starts_with("BEGIN;"));
    assert!(sql.ends_with("COMMIT;"));
    assert!(sql.contains("CREATE TABLE IF NOT EXISTS File"));
    assert!(sql.contains("path            TEXT PRIMARY KEY"));
    assert!(sql.contains("first_seen_date TEXT NOT NULL DEFAULT CURRENT_TIMESTAMP"));
    assert!(sql.contains("CREATE INDEX IF NOT EXISTS file_uploaded ON File ( uploaded_date );"));
    assert!(sql.contains("WHERE deleted_date IS NULL and uploaded_date IS NOT NULL;"));
    assert_eq!(Database::insert_statement(), "INSERT INTO File (path) values (?1)");
}

#[test]
fn new_file_is_dispatched() {
    match Controller::file_detected(file("a/b.txt"), Ok(())) {
        Outcome::Dispatch(job) => {
            assert_eq!(job.file.key, "a/b.txt");
            assert_eq!(job.file.base_path, "/data");
        }
        other => panic!("unexpected outcome {:?}", other),
    }
}

#[test]
fn known_file_and_store_failure_are_dropped() {
    let known = Controller::file_detected(
        file("a/b.txt"),
        Err(DBError::FileExists("constraint".to_string())),
    );
    assert_eq!(known.level(), Level::Warn);
    assert!(
        matches!(&known, Outcome::KnownFile { file, cause } if file.key == "a/b.txt" && cause == "constraint")
    );
    let failed = Controller::file_detected(
        file("a/b.txt"),
        Err(DBError::Unhandled("disk full".to_string())),
    );
    assert_eq!(failed.level(), Level::Error);
    assert!(
        matches!(&failed, Outcome::StoreFailed { file, cause } if file.key == "a/b.txt" && cause == "disk full")
    );
}

#[test]
fn duplicate_event_is_never_dispatched_twice() {
    let mut store = MemoryStore::new();
    let mut dispatched: Vec<String> = Vec::new();
    let events = ["a.txt", "b.txt", "a.txt", "c/d.txt", "b.txt", "a.txt", "c/d.txt"];
    for key in events {
        match Controller::record_and_dispatch(&mut store, file(key)) {
            Outcome::Dispatch(job) => dispatched.push(job.file.key),
            Outcome::KnownFile { file, .. } => assert!(dispatched.contains(&file.key)),
            other => panic!("unexpected outcome {:?}", other),
        }
    }
    assert_eq!(dispatched, vec!["a.txt", "b.txt", "c/d.txt"]);
}

#[test]
fn results_are_logged_and_not_resubmitted() {
    let done = Controller::upload_finished(UploadResult { file: file("a"), outcome: Ok(()) });
    assert!(matches!(&done, Outcome::Uploaded(f) if f.key == "a"));
    assert_eq!(done.level(), Level::Info);
    let failed = Controller::upload_finished(UploadResult {
        file: file("b"),
        outcome: Err(UploadError::UploadPart { part_number: 2, error: "reset".to_string() }),
    });
    assert_eq!(failed.level(), Level::Warn);
    match failed {
        Outcome::UploadFailed { file, error } => {
            assert_eq!(file.key, "b");
            assert_eq!(error.message(), "Failed to upload part 2: reset");
        }
        other => panic!("unexpected outcome {:?}", other),
    }
    let job = Controller::file_detected(file("c"), Ok(()));
    assert_eq!(job.level(), Level::Debug);
}

#[test]
fn loop_ends_when_both_channels_are_closed() {
    let mut controller = Controller::new();
    assert!(controller.is_running());
    assert!(controller.listens_to(Source::Watcher));
    assert!(controller.listens_to(Source::Uploader));
    assert!(controller.channel_closed(Source::Watcher));
    assert!(!controller.listens_to(Source::Watcher));
    assert!(controller.listens_to(Source::Uploader));
    assert!(controller.channel_closed(Source::Watcher));
    assert!(controller.is_running());
    assert!(!controller.channel_closed(Source::Uploader));
    assert!(!controller.is_running());

    let mut controller = Controller::new();
    assert!(controller.channel_closed(Source::Uploader));
    assert!(controller.listens_to(Source::Watcher));
    assert!(!controller.channel_closed(Source::Watcher));
}

#[test]
fn startup_errors_have_their_messages() {
    let watcher = ControllerError::FileWatcher(WatcherError::not_dir("/x"));
    assert_eq!(
        watcher.message(),
        "Failed to start file watcher: The path is not accessible or not a directory: /x"
    );
    let io = ControllerError::IO("cannot spawn".to_string());
    assert_eq!(io.message(), "I/O Error: cannot spawn");
    let db = ControllerError::Database(DBError::Unhandled("cannot open".to_string()));
    assert_eq!(db.message(), "Database Error: Got unhandled SQL Error: cannot open");
}

/// Runs the whole pipeline on a list of created paths, with the file
/// contents given, and returns the keys recorded, the keys dispatched, the
/// parts uploaded per key and the outcomes logged.
fn pipeline(
    roots: &[&str],
    created: &[(&str, Vec<u8>)],
    part_size: usize,
) -> (Vec<String>, Vec<String>, Vec<(String, Vec<i64>, usize)>, Vec<Outcome>) {
    let probes: Vec<Probe> = roots
        .iter()
        .map(|r| Probe { path: r.to_string(), is_dir: true, canonical: Ok(Some(r.to_string())) })
        .collect();
    let watchers = FileWatcher::create_watchers(&probes).watchers;
    let uploader = Uploader::new("bucket", part_size);
    let mut store = MemoryStore::new();
    let mut recorded = Vec::new();
    let mut dispatched = Vec::new();
    let mut uploads = Vec::new();
    let mut logged = Vec::new();
    for (path, data) in created {
        for watcher in &watchers {
            let detected = match watcher.handle_event(path, true) {
                Some(file) => file,
                None => continue,
            };
            let key = detected.key.clone();
            match Controller::record_and_dispatch(&mut store, detected) {
                Outcome::Dispatch(job) => {
                    recorded.push(key.clone());
                    dispatched.push(key.clone());
                    let (mut upload, mut action) = uploader.upload_file(job.file);
                    let mut offset = 0;
                    let mut numbers = Vec::new();
                    let mut completions = 0;
                    loop {
                        let event = match action {
                            Action::CreateSession => {
                                Event::SessionCreated(Ok(Some("id".to_string())))
                            }
                            Action::ReadChunk { max_len } => {
                                let end = (offset + max_len).min(data.len());
                                let chunk = data[offset..end].to_vec();
                                offset = end;
                                Event::ChunkRead(Ok(chunk))
                            }
                            Action::UploadPart { part_number, .. } => {
                                numbers.push(part_number);
                                Event::PartUploaded(Ok(format!("tag{}", part_number)))
                            }
                            Action::Complete => {
                                completions += 1;
                                Event::Completed(Ok(()))
                            }
                            Action::Abort => Event::Aborted(Ok(())),
                            Action::Report => break,
                        };
                        action = upload.step(event);
                    }
                    uploads.push((key, numbers, completions));
                    logged.push(Controller::upload_finished(upload.into_result()));
                }
                other => logged.push(other),
            }
        }
    }
    (recorded, dispatched, uploads, logged)
}

#[test]
fn created_file_is_recorded_dispatched_and_uploaded_once() {
    let (recorded, dispatched, uploads, logged) = pipeline(
        &["/data"],
        &[("/data/a/b.txt", b"0123456789".to_vec())],
        100 * 1024 * 1024,
    );
    assert_eq!(recorded, vec!["a/b.txt"]);
    assert_eq!(dispatched, vec!["a/b.txt"]);
    assert_eq!(uploads, vec![("a/b.txt".to_string(), vec![1], 1)]);
    assert_eq!(logged.len(), 1);
    assert!(matches!(&logged[0], Outcome::Uploaded(f) if f.key == "a/b.txt"));
    assert_eq!(logged[0].level(), Level::Info);
}

#[test]
fn file_below_nested_roots_is_dispatched_once() {
    let probes: Vec<Probe> = ["/data", "/data/sub"]
        .iter()
        .map(|r| Probe { path: r.to_string(), is_dir: true, canonical: Ok(Some(r.to_string())) })
        .collect();
    let created = FileWatcher::create_watchers(&probes);
    let roots: Vec<&str> = created.watchers.iter().map(|w| w.base_path.as_str()).collect();
    assert_eq!(roots, vec!["/data"]);
    assert!(created.rejected.is_empty());

    let (recorded, dispatched, uploads, logged) =
        pipeline(&["/data", "/data/sub"], &[("/data/sub/x.txt", vec![1, 2, 3])], 1024);
    assert_eq!(recorded, vec!["sub/x.txt"]);
    assert_eq!(dispatched, vec!["sub/x.txt"]);
    assert_eq!(uploads, vec![("sub/x.txt".to_string(), vec![1], 1)]);
    assert_eq!(logged.len(), 1);
}

#[test]
fn repeated_notification_is_uploaded_once() {
    let (_, dispatched, uploads, logged) = pipeline(
        &["/data"],
        &[("/data/a.txt", vec![1]), ("/data/a.txt", vec![1]), ("/data/b.txt", vec![2])],
        8,
    );
    assert_eq!(dispatched, vec!["a.txt", "b.txt"]);
    assert_eq!(uploads.len(), 2);
    assert_eq!(logged.len(), 3);
    assert!(matches!(&logged[1], Outcome::KnownFile { file, .. } if file.key == "a.txt"));
}
