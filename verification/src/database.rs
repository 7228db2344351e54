//! The record of files already seen, which keeps a file from being uploaded
//! twice.
//!
//! The persistent table lives in a storage engine that the caller drives. This
//! module holds the table's definition, the rule that turns the engine's answer
//! to an insert into an outcome, and an in-memory record with the same rule for
//! runs that need no persistence.

use vstd::prelude::*;
use vstd::string::*;
use crate::file::File;

verus! {

/// The storage engine's primary result code for a violated constraint.
pub const SQLITE_CONSTRAINT: i32 = 19;

/// Why a file could not be recorded.
#[derive(Debug)]
pub enum Error {
    /// The storage engine failed for a reason other than a known key.
    Unhandled(String),
    /// A record with the file's key exists already.
    FileExists(String),
}

impl Error {
    /// The failure in words, as it is logged.
    pub open spec fn spec_message(&self) -> Seq<char> {
        match *self {
            Error::Unhandled(cause) => "Got unhandled SQL Error: "@ + cause@,
            Error::FileExists(cause) => "File exists in database: "@ + cause@,
        }
    }

    /// The failure in words, as it is logged.
    pub fn message(&self) -> (text: String)
        ensures
            text@ == self.spec_message(),
    {
        match self {
            Error::Unhandled(cause) => {
                let mut text = String::from_str("Got unhandled SQL Error: ");
                text.append(cause.as_str());
                text
            },
            Error::FileExists(cause) => {
                let mut text = String::from_str("File exists in database: ");
                text.append(cause.as_str());
                text
            },
        }
    }
}

/// A failure of the storage engine, as plain values.
#[derive(Debug)]
pub struct StorageFailure {
    /// The engine's extended result code, where the failure carries one.
    pub extended_code: Option<i32>,
    /// The engine's description of the failure.
    pub message: String,
}

impl StorageFailure {
    /// The failure is a violated constraint: the low byte of its extended
    /// result code, which is the primary result code, says so. For an insert
    /// into the table of files the only constraint is the unique key.
    pub open spec fn is_constraint_violation(self) -> bool {
        self.extended_code matches Some(code) && code & 0xff == SQLITE_CONSTRAINT
    }
}

/// The persistent table of files and the reading of the engine's answers.
pub struct Database {}

impl Database {
    /// The statements that create the table of files and its two indexes
    /// where they do not exist yet: one row per key, the time the file was
    /// first seen, which the engine sets on insert, and the times of upload
    /// and deletion, both empty at first.
    pub fn init_db() -> (sql: &'static str)
        ensures
            sql@ == schema(),
    {
        "BEGIN;
                  CREATE TABLE IF NOT EXISTS File (
                          path            TEXT PRIMARY KEY,
                          first_seen_date TEXT NOT NULL DEFAULT CURRENT_TIMESTAMP,
                          uploaded_date   TEXT,
                          deleted_date    TEXT
                  );
                  CREATE INDEX IF NOT EXISTS file_uploaded ON File ( uploaded_date );
                  CREATE INDEX IF NOT EXISTS file_not_deleted ON File ( deleted_date )
                          WHERE deleted_date IS NULL and uploaded_date IS NOT NULL;
              COMMIT;"
    }

    /// The statement that records a file; its one parameter is the file's key.
    pub fn insert_statement() -> (sql: &'static str)
        ensures
            sql@ == "INSERT INTO File (path) values (?1)"@,
    {
        "INSERT INTO File (path) values (?1)"
    }

    /// Reads the engine's answer to the insert of a file. The insert itself
    /// decides whether the key is new, so that no check can go stale before
    /// it: a violated constraint means that the key exists already, any
    /// other failure is passed on with its description.
    pub fn add_file(inserted: Result<(), StorageFailure>) -> (recorded: Result<(), Error>)
        ensures
            match inserted {
                Ok(_) => recorded is Ok,
                Err(failure) => if failure.is_constraint_violation() {
                    recorded matches Err(Error::FileExists(cause)) && cause@ == failure.message@
                } else {
                    recorded matches Err(Error::Unhandled(cause)) && cause@ == failure.message@
                },
            },
    {
        match inserted {
            Ok(_) => Ok(()),
            Err(failure) => {
                let violated = match failure.extended_code {
                    Some(code) => code & 0xff == SQLITE_CONSTRAINT,
                    None => false,
                };
                if violated {
                    Err(Error::FileExists(failure.message))
                } else {
                    Err(Error::Unhandled(failure.message))
                }
            },
        }
    }
}

/// The text of the statements that [`Database::init_db`] returns.
pub open spec fn schema() -> Seq<char> {
    "BEGIN;
                  CREATE TABLE IF NOT EXISTS File (
                          path            TEXT PRIMARY KEY,
                          first_seen_date TEXT NOT NULL DEFAULT CURRENT_TIMESTAMP,
                          uploaded_date   TEXT,
                          deleted_date    TEXT
                  );
                  CREATE INDEX IF NOT EXISTS file_uploaded ON File ( uploaded_date );
                  CREATE INDEX IF NOT EXISTS file_not_deleted ON File ( deleted_date )
                          WHERE deleted_date IS NULL and uploaded_date IS NOT NULL;
              COMMIT;"@
}

/// Message of the failure that [`MemoryStore::add_file`] gives for a known key.
pub open spec fn known_key() -> Seq<char> {
    "UNIQUE constraint failed: File.path"@
}

/// The table's rule for an insert: a key that is recorded already is refused
/// and the record stays as it is; a new key is added at the end. Gives the
/// record after the insert and whether the key was accepted.
pub open spec fn insert(keys: Seq<Seq<char>>, key: Seq<char>) -> (Seq<Seq<char>>, bool) {
    if keys.contains(key) {
        (keys, false)
    } else {
        (keys.push(key), true)
    }
}

/// A record of keys held in memory, with the table's rule that a key is
/// recorded at most once.
pub struct MemoryStore {
    keys: Vec<String>,
}

impl MemoryStore {
    /// The recorded keys, in the order they were recorded.
    pub closed spec fn keys(self) -> Seq<Seq<char>> {
        self.keys@.map_values(|key: String| key@)
    }

    /// No key is recorded twice.
    pub open spec fn wf(self) -> bool {
        self.keys().no_duplicates()
    }

    /// An empty record.
    pub fn new() -> (store: MemoryStore)
        ensures
            store.keys() == Seq::<Seq<char>>::empty(),
            store.wf(),
    {
        let store = MemoryStore { keys: Vec::new() };
        assert(store.keys() =~= Seq::<Seq<char>>::empty());
        store
    }

    /// Whether `key` is recorded.
    pub fn contains(&self, key: &String) -> (found: bool)
        ensures
            found == self.keys().contains(key@),
    {
        let mut i: usize = 0;
        while i < self.keys.len()
            invariant
                i <= self.keys@.len(),
                forall|j: int| 0 <= j < i ==> self.keys()[j] != key@,
            decreases self.keys@.len() - i,
        {
            if self.keys[i] == *key {
                assert(self.keys()[i as int] == key@);
                return true;
            }
            i += 1;
        }
        false
    }

    /// Records the file's key. A key that is recorded already is refused and
    /// the record stays as it is; a new key is added at the end.
    pub fn add_file(&mut self, file: &File) -> (recorded: Result<(), Error>)
        ensures
            final(self).keys() == insert(old(self).keys(), file.key@).0,
            recorded is Ok == insert(old(self).keys(), file.key@).1,
            recorded matches Err(error) ==> error matches Error::FileExists(cause) && cause@
                == known_key(),
            old(self).wf() ==> final(self).wf(),
    {
        if self.contains(&file.key) {
            Err(Error::FileExists(String::from_str("UNIQUE constraint failed: File.path")))
        } else {
            self.keys.push(file.key.clone());
            assert(self.keys() =~= old(self).keys().push(file.key@));
            Ok(())
        }
    }
}

/// Recording the same key twice: the first insert succeeds if and only if
/// the key is new, the second is refused and leaves the record as it is,
/// and afterwards the record holds exactly one row for the key.
pub proof fn second_insert_is_refused(keys: Seq<Seq<char>>, key: Seq<char>)
    requires
        keys.no_duplicates(),
    ensures
        ({
            let first = insert(keys, key);
            let second = insert(first.0, key);
            &&& first.1 == !keys.contains(key)
            &&& !second.1
            &&& second.0 == first.0
            &&& second.0.no_duplicates()
            &&& second.0.to_multiset().count(key) == 1
        }),
{
    let first = insert(keys, key);
    if !keys.contains(key) {
        assert(first.0.last() == key);
        assert forall|i: int, j: int|
            0 <= i < first.0.len() && 0 <= j < first.0.len() && i != j implies first.0[i]
            != first.0[j] by {
            if i < keys.len() {
                assert(keys[i] == first.0[i]);
            }
            if j < keys.len() {
                assert(keys[j] == first.0[j]);
            }
        }
    }
    first.0.lemma_multiset_has_no_duplicates();
    first.0.to_multiset_ensures();
}

} // verus!
