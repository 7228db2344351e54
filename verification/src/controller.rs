//! The dispatcher's decisions.
//!
//! The dispatcher waits on two channels: detected files from the watchers and
//! results from the upload workers. Waiting, sending and logging are the
//! caller's part; what to do with each message is decided here.

use vstd::prelude::*;
use vstd::string::*;
use crate::database::Error as DBError;
use crate::database::insert;
use crate::database::MemoryStore;
use crate::file::File;
use crate::uploader::Error as UploadError;
use crate::uploader::UploadResult;
use crate::watcher::Error as WatcherError;

verus! {

/// Why the dispatcher could not be started. Each of these ends the process.
#[derive(Debug)]
pub enum Error {
    /// The watchers could not be set up.
    FileWatcher(WatcherError),
    /// A thread could not be started.
    IO(String),
    /// The record of files could not be opened.
    Database(DBError),
}

impl Error {
    /// The failure in words, as it is logged.
    pub open spec fn spec_message(&self) -> Seq<char> {
        match *self {
            Error::FileWatcher(error) => "Failed to start file watcher: "@ + error@.message(),
            Error::IO(cause) => "I/O Error: "@ + cause@,
            Error::Database(error) => "Database Error: "@ + error.spec_message(),
        }
    }

    /// The failure in words, as it is logged.
    pub fn message(&self) -> (text: String)
        ensures
            text@ == self.spec_message(),
    {
        match self {
            Error::FileWatcher(error) => {
                let mut text = String::from_str("Failed to start file watcher: ");
                text.append(error.message().as_str());
                text
            },
            Error::IO(cause) => {
                let mut text = String::from_str("I/O Error: ");
                text.append(cause.as_str());
                text
            },
            Error::Database(error) => {
                let mut text = String::from_str("Database Error: ");
                text.append(error.message().as_str());
                text
            },
        }
    }
}

/// One of the two channels the dispatcher receives from.
#[derive(Clone, Copy, Debug, PartialEq, Eq, Structural)]
pub enum Source {
    /// Detected files, sent by the watchers.
    Watcher,
    /// Upload results, sent by the workers.
    Uploader,
}

/// How loudly an outcome is logged.
#[derive(Clone, Copy, Debug, PartialEq, Eq, Structural)]
pub enum Level {
    Debug,
    Info,
    Warn,
    Error,
}

/// A file that passed the check against the record, on its way to a worker.
#[derive(Debug)]
pub struct UploadJob {
    pub file: File,
}

/// What the dispatcher does with a message.
#[derive(Debug)]
pub enum Outcome {
    /// The file is new: send this job to the workers.
    Dispatch(UploadJob),
    /// The file's key is recorded already: drop the file.
    KnownFile { file: File, cause: String },
    /// The record could not be written: drop the file; it is not retried.
    StoreFailed { file: File, cause: String },
    /// A worker finished the file's upload.
    Uploaded(File),
    /// A worker gave the file's upload up; it is not resubmitted.
    UploadFailed { file: File, error: UploadError },
}

impl Outcome {
    /// The severity an outcome is logged with: a finished upload is
    /// information, a known file and a failed upload are warnings, a failure
    /// of the record is an error. A dispatched job is only traced.
    pub open spec fn spec_level(&self) -> Level {
        match *self {
            Outcome::Dispatch(_) => Level::Debug,
            Outcome::KnownFile { .. } => Level::Warn,
            Outcome::StoreFailed { .. } => Level::Error,
            Outcome::Uploaded(_) => Level::Info,
            Outcome::UploadFailed { .. } => Level::Warn,
        }
    }

    /// The severity to log this outcome with.
    #[verifier::when_used_as_spec(spec_level)]
    pub fn level(&self) -> (level: Level)
        ensures
            level == self.spec_level(),
    {
        match self {
            Outcome::Dispatch(_) => Level::Debug,
            Outcome::KnownFile { .. } => Level::Warn,
            Outcome::StoreFailed { .. } => Level::Error,
            Outcome::Uploaded(_) => Level::Info,
            Outcome::UploadFailed { .. } => Level::Warn,
        }
    }
}

/// The dispatcher: which of its two channels are still open.
#[derive(Clone, Copy, Debug, PartialEq, Eq, Structural)]
pub struct Controller {
    pub watcher_open: bool,
    pub uploader_open: bool,
}

impl Controller {
    /// A dispatcher with both channels open.
    pub fn new() -> (controller: Controller)
        ensures
            controller.watcher_open,
            controller.uploader_open,
    {
        Controller { watcher_open: true, uploader_open: true }
    }

    /// The dispatcher runs while at least one channel is open.
    pub open spec fn spec_is_running(&self) -> bool {
        self.watcher_open || self.uploader_open
    }

    /// Whether the dispatcher's loop goes on.
    #[verifier::when_used_as_spec(spec_is_running)]
    pub fn is_running(&self) -> (running: bool)
        ensures
            running == self.spec_is_running(),
    {
        self.watcher_open || self.uploader_open
    }

    /// Whether the dispatcher still receives from `source`.
    pub fn listens_to(&self, source: Source) -> (open: bool)
        ensures
            open == match source {
                Source::Watcher => self.watcher_open,
                Source::Uploader => self.uploader_open,
            },
    {
        match source {
            Source::Watcher => self.watcher_open,
            Source::Uploader => self.uploader_open,
        }
    }

    /// Notes that `source` is closed: all its senders are gone. That half of
    /// the loop stops; the other half is served as before. The loop ends
    /// when both channels are closed.
    pub fn channel_closed(&mut self, source: Source) -> (running: bool)
        ensures
            final(self).watcher_open == (old(self).watcher_open && source != Source::Watcher),
            final(self).uploader_open == (old(self).uploader_open && source != Source::Uploader),
            running == final(self).spec_is_running(),
    {
        match source {
            Source::Watcher => {
                self.watcher_open = false;
            },
            Source::Uploader => {
                self.uploader_open = false;
            },
        }
        self.watcher_open || self.uploader_open
    }

    /// Decides what happens to a detected file once the record has answered
    /// the insert of its key. A job is dispatched if and only if the insert
    /// succeeded; a known key and a failure of the record both drop the file.
    pub fn file_detected(file: File, recorded: Result<(), DBError>) -> (outcome: Outcome)
        ensures
            match recorded {
                Ok(_) => outcome matches Outcome::Dispatch(job) && job.file == file,
                Err(DBError::FileExists(cause)) => outcome == (Outcome::KnownFile { file, cause }),
                Err(DBError::Unhandled(cause)) => outcome == (Outcome::StoreFailed { file, cause }),
            },
    {
        match recorded {
            Ok(_) => Outcome::Dispatch(UploadJob { file }),
            Err(DBError::FileExists(cause)) => Outcome::KnownFile { file, cause },
            Err(DBError::Unhandled(cause)) => Outcome::StoreFailed { file, cause },
        }
    }

    /// Decides what happens to a worker's result: it is logged, and a failed
    /// upload is not submitted again.
    pub fn upload_finished(result: UploadResult) -> (outcome: Outcome)
        ensures
            match result.outcome {
                Ok(_) => outcome == Outcome::Uploaded(result.file),
                Err(error) => outcome == (Outcome::UploadFailed { file: result.file, error }),
            },
            !(outcome is Dispatch),
    {
        match result.outcome {
            Ok(_) => Outcome::Uploaded(result.file),
            Err(error) => Outcome::UploadFailed { file: result.file, error },
        }
    }

    /// Records a detected file in `store` and decides what happens to it. A
    /// file whose key is recorded already is never dispatched and leaves the
    /// record as it is; a file with a new key is recorded and dispatched.
    pub fn record_and_dispatch(store: &mut MemoryStore, file: File) -> (outcome: Outcome)
        ensures
            final(store).keys() == insert(old(store).keys(), file.key@).0,
            outcome is Dispatch == insert(old(store).keys(), file.key@).1,
            old(store).keys().contains(file.key@) ==> (outcome matches Outcome::KnownFile {
                file: dropped,
                ..
            } && dropped == file),
            !old(store).keys().contains(file.key@) ==> (outcome matches Outcome::Dispatch(job)
                && job.file == file),
            final(store).keys().contains(file.key@),
            old(store).wf() ==> final(store).wf(),
    {
        let recorded = store.add_file(&file);
        proof {
            if !old(store).keys().contains(file.key@) {
                assert(store.keys().last() == file.key@);
            }
        }
        Controller::file_detected(file, recorded)
    }
}

/// The keys that are dispatched, in order, when files with the keys
/// `detected` arrive one after the other at a record that holds `recorded`.
pub open spec fn dispatched(recorded: Seq<Seq<char>>, detected: Seq<Seq<char>>) -> Seq<Seq<char>>
    decreases detected.len(),
{
    if detected.len() == 0 {
        Seq::empty()
    } else {
        let first = insert(recorded, detected[0]);
        let rest = dispatched(first.0, detected.drop_first());
        if first.1 {
            seq![detected[0]] + rest
        } else {
            rest
        }
    }
}

/// A key that is recorded is not dispatched, whatever arrives.
pub proof fn recorded_key_is_not_dispatched(
    recorded: Seq<Seq<char>>,
    detected: Seq<Seq<char>>,
    key: Seq<char>,
)
    requires
        recorded.contains(key),
    ensures
        !dispatched(recorded, detected).contains(key),
    decreases detected.len(),
{
    if detected.len() > 0 {
        let first = insert(recorded, detected[0]);
        let at = choose|i: int| 0 <= i < recorded.len() && recorded[i] == key;
        assert(first.0[at] == key);
        recorded_key_is_not_dispatched(first.0, detected.drop_first(), key);
        let rest = dispatched(first.0, detected.drop_first());
        if first.1 {
            let all = seq![detected[0]] + rest;
            if all.contains(key) {
                let i = choose|i: int| 0 <= i < all.len() && all[i] == key;
                if i > 0 {
                    assert(rest[i - 1] == key);
                }
            }
        }
    }
}

/// No key is dispatched twice: whatever files arrive, in whatever order and
/// however often, the jobs that are dispatched have distinct keys, and none
/// of them has a key that was recorded before.
pub proof fn no_key_is_dispatched_twice(recorded: Seq<Seq<char>>, detected: Seq<Seq<char>>)
    ensures
        dispatched(recorded, detected).no_duplicates(),
        forall|key: Seq<char>|
            recorded.contains(key) ==> !dispatched(recorded, detected).contains(key),
    decreases detected.len(),
{
    assert forall|key: Seq<char>| recorded.contains(key) implies !dispatched(
        recorded,
        detected,
    ).contains(key) by {
        recorded_key_is_not_dispatched(recorded, detected, key);
    }
    if detected.len() > 0 {
        let first = insert(recorded, detected[0]);
        let rest = dispatched(first.0, detected.drop_first());
        no_key_is_dispatched_twice(first.0, detected.drop_first());
        if first.1 {
            let all = seq![detected[0]] + rest;
            assert(first.0.last() == detected[0]);
            recorded_key_is_not_dispatched(first.0, detected.drop_first(), detected[0]);
            assert forall|i: int, j: int| 0 <= i < all.len() && 0 <= j < all.len() && i != j implies all[i]
                != all[j] by {
                if i > 0 {
                    assert(rest[i - 1] == all[i]);
                }
                if j > 0 {
                    assert(rest[j - 1] == all[j]);
                }
            }
        }
    }
}

} // verus!
