//! Watchers: which directories are watched, and which notifications become
//! detected files.
//!
//! Asking the file system and subscribing to its notifications are the
//! caller's part. The caller hands over what the file system said; the
//! decisions are taken here.

use vstd::prelude::*;
use vstd::string::*;
use crate::file::File;
use crate::paths::get_paths;
use crate::paths::key_start;
use crate::paths::relative_key;
use crate::paths::roots;
use crate::paths::starts_with;
use crate::paths::texts;
use crate::paths::trim_len;
use crate::paths::trimmed_len_is_exact;
use crate::paths::within;

verus! {

/// Why a path is not watched.
#[derive(Debug)]
pub enum ErrorKind {
    /// The path is not a directory or is not accessible.
    NotDir,
    /// The canonical path cannot be written as text.
    NotUTF8,
    /// The path cannot be made canonical; the cause is attached.
    NotCanon(String),
    /// The subscription to the file system's notifications failed.
    WatcherErr(String),
    /// Any other failure of the file system.
    Io(String),
}

/// A failure to watch, with the path it concerns where there is one.
#[derive(Debug)]
pub struct Error {
    pub kind: ErrorKind,
    pub path: Option<String>,
}

/// What an [`ErrorKind`] says, with its texts as character sequences.
pub enum Cause {
    NotDir,
    NotUTF8,
    NotCanon(Seq<char>),
    WatcherErr(Seq<char>),
    Io(Seq<char>),
}

/// What an [`Error`] says, with its texts as character sequences.
pub struct Rejection {
    pub cause: Cause,
    pub path: Option<Seq<char>>,
}

impl View for ErrorKind {
    type V = Cause;

    open spec fn view(&self) -> Cause {
        match *self {
            ErrorKind::NotDir => Cause::NotDir,
            ErrorKind::NotUTF8 => Cause::NotUTF8,
            ErrorKind::NotCanon(cause) => Cause::NotCanon(cause@),
            ErrorKind::WatcherErr(cause) => Cause::WatcherErr(cause@),
            ErrorKind::Io(cause) => Cause::Io(cause@),
        }
    }
}

impl View for Error {
    type V = Rejection;

    open spec fn view(&self) -> Rejection {
        Rejection {
            cause: self.kind@,
            path: match self.path {
                Some(path) => Some(path@),
                None => None,
            },
        }
    }
}

impl Rejection {
    /// The failure in words, followed by the path where there is one.
    pub open spec fn message(self) -> Seq<char> {
        let reason = match self.cause {
            Cause::NotDir => "The path is not accessible or not a directory"@,
            Cause::NotUTF8 => "The path is not UTF-8"@,
            Cause::NotCanon(cause) => "Cannot canonicalize, I/O Error for path: "@ + cause,
            Cause::WatcherErr(cause) => cause,
            Cause::Io(cause) => "IO error: "@ + cause,
        };
        match self.path {
            Some(path) => reason + ": "@ + path,
            None => reason,
        }
    }
}

impl Error {
    /// The path is not a directory, or cannot be read.
    pub fn not_dir(path: &str) -> (error: Error)
        ensures
            error@ == (Rejection { cause: Cause::NotDir, path: Some(path@) }),
    {
        Error { kind: ErrorKind::NotDir, path: Some(String::from_str(path)) }
    }

    /// The canonical form of the path cannot be written as text.
    pub fn not_utf8(path: &str) -> (error: Error)
        ensures
            error@ == (Rejection { cause: Cause::NotUTF8, path: Some(path@) }),
    {
        Error { kind: ErrorKind::NotUTF8, path: Some(String::from_str(path)) }
    }

    /// The path cannot be made canonical, for the reason in `err`.
    pub fn not_canon(path: &str, err: String) -> (error: Error)
        ensures
            error@ == (Rejection { cause: Cause::NotCanon(err@), path: Some(path@) }),
    {
        Error { kind: ErrorKind::NotCanon(err), path: Some(String::from_str(path)) }
    }

    /// The subscription to notifications failed, for the reason in `err`.
    pub fn watcher_err(err: String) -> (error: Error)
        ensures
            error@ == (Rejection { cause: Cause::WatcherErr(err@), path: None }),
    {
        Error { kind: ErrorKind::WatcherErr(err), path: None }
    }

    /// The file system failed, for the reason in `err`.
    pub fn io(err: String) -> (error: Error)
        ensures
            error@ == (Rejection { cause: Cause::Io(err@), path: None }),
    {
        Error { kind: ErrorKind::Io(err), path: None }
    }

    /// The failure in words, followed by the path where there is one.
    pub fn message(&self) -> (text: String)
        ensures
            text@ == self@.message(),
    {
        let mut text = match &self.kind {
            ErrorKind::NotDir => String::from_str("The path is not accessible or not a directory"),
            ErrorKind::NotUTF8 => String::from_str("The path is not UTF-8"),
            ErrorKind::NotCanon(cause) => {
                let mut reason = String::from_str("Cannot canonicalize, I/O Error for path: ");
                reason.append(cause.as_str());
                reason
            },
            ErrorKind::WatcherErr(cause) => cause.clone(),
            ErrorKind::Io(cause) => {
                let mut reason = String::from_str("IO error: ");
                reason.append(cause.as_str());
                reason
            },
        };
        match &self.path {
            Some(path) => {
                text.append(": ");
                text.append(path.as_str());
            },
            None => {},
        }
        text
    }
}

/// What the file system says of a path that was asked to be watched.
#[derive(Debug)]
pub struct Probe {
    /// The path as requested.
    pub path: String,
    /// Whether the path is a directory that exists and can be read.
    pub is_dir: bool,
    /// The canonical form of the path: its text, `None` where it cannot be
    /// written as text, or the reason it could not be made.
    pub canonical: Result<Option<String>, String>,
}

impl Probe {
    /// The canonical path of a valid request, or why the request is refused:
    /// a path that is no directory, one whose canonical form is no text, and
    /// one that cannot be made canonical, in this order.
    pub open spec fn verdict(self) -> Result<Seq<char>, Rejection> {
        if !self.is_dir {
            Err(Rejection { cause: Cause::NotDir, path: Some(self.path@) })
        } else {
            match self.canonical {
                Ok(Some(canonical)) => Ok(canonical@),
                Ok(None) => Err(Rejection { cause: Cause::NotUTF8, path: Some(self.path@) }),
                Err(cause) => Err(
                    Rejection { cause: Cause::NotCanon(cause@), path: Some(self.path@) },
                ),
            }
        }
    }
}

/// Checks whether a path that was asked to be watched is valid: it is a
/// directory that can be read, and its canonical form is text. Gives the
/// canonical path, or the reason for the refusal.
pub fn is_path_valid(probe: &Probe) -> (valid: Result<String, Error>)
    ensures
        match probe.verdict() {
            Ok(canonical) => valid matches Ok(path) && path@ == canonical,
            Err(rejection) => valid matches Err(error) && error@ == rejection,
        },
{
    if !probe.is_dir {
        return Err(Error::not_dir(probe.path.as_str()));
    }
    match &probe.canonical {
        Ok(Some(canonical)) => Ok(canonical.clone()),
        Ok(None) => Err(Error::not_utf8(probe.path.as_str())),
        Err(cause) => Err(Error::not_canon(probe.path.as_str(), cause.clone())),
    }
}

/// The canonical paths of the valid requests among the first `n`, in order.
pub open spec fn accepted(probes: Seq<Probe>, n: int) -> Seq<Seq<char>>
    decreases n,
{
    if n <= 0 {
        Seq::empty()
    } else {
        match probes[n - 1].verdict() {
            Ok(canonical) => accepted(probes, n - 1).push(canonical),
            Err(_) => accepted(probes, n - 1),
        }
    }
}

/// The refusals of the invalid requests among the first `n`, in order.
pub open spec fn refused(probes: Seq<Probe>, n: int) -> Seq<Rejection>
    decreases n,
{
    if n <= 0 {
        Seq::empty()
    } else {
        match probes[n - 1].verdict() {
            Ok(_) => refused(probes, n - 1),
            Err(rejection) => refused(probes, n - 1).push(rejection),
        }
    }
}

/// Watches one directory tree and turns notifications of created files into
/// detected files with a key relative to the tree's root.
#[derive(Debug)]
pub struct FileWatcher {
    /// The canonical path of the tree's root.
    pub base_path: String,
}

/// The watchers to start, and the requests that were refused.
#[derive(Debug)]
pub struct Watchers {
    pub watchers: Vec<FileWatcher>,
    pub rejected: Vec<Error>,
}

/// The roots of a list of watchers.
pub open spec fn base_paths(watchers: Seq<FileWatcher>) -> Seq<Seq<char>> {
    watchers.map_values(|watcher: FileWatcher| watcher.base_path@)
}

/// What a list of errors says.
pub open spec fn rejections(errors: Seq<Error>) -> Seq<Rejection> {
    errors.map_values(|error: Error| error@)
}

impl FileWatcher {
    /// A watcher for the tree below the canonical path `base_path`.
    pub fn new(base_path: String) -> (watcher: FileWatcher)
        ensures
            watcher.base_path == base_path,
    {
        FileWatcher { base_path }
    }

    /// Decides which directories are watched. An invalid request is refused
    /// with its reason and does not stop the others. Of the valid ones, a
    /// path that lies in the tree below another is dropped and a path named
    /// twice is kept once, so that no file is detected by two watchers.
    pub fn create_watchers(probes: &Vec<Probe>) -> (created: Watchers)
        ensures
            base_paths(created.watchers@) == roots(accepted(probes@, probes@.len() as int)),
            rejections(created.rejected@) == refused(probes@, probes@.len() as int),
    {
        let mut canonical_paths: Vec<String> = Vec::new();
        let mut rejected: Vec<Error> = Vec::new();
        let mut i: usize = 0;
        assert(texts(canonical_paths@) =~= accepted(probes@, 0));
        assert(rejections(rejected@) =~= refused(probes@, 0));
        while i < probes.len()
            invariant
                i <= probes@.len(),
                texts(canonical_paths@) == accepted(probes@, i as int),
                rejections(rejected@) == refused(probes@, i as int),
            decreases probes@.len() - i,
        {
            let ghost paths_before = canonical_paths@;
            let ghost rejected_before = rejected@;
            match is_path_valid(&probes[i]) {
                Ok(path) => {
                    canonical_paths.push(path);
                    assert(texts(canonical_paths@) =~= texts(paths_before).push(path@));
                },
                Err(error) => {
                    rejected.push(error);
                    assert(rejections(rejected@) =~= rejections(rejected_before).push(error@));
                },
            }
            i += 1;
        }
        let filtered_paths = get_paths(&canonical_paths);
        let mut watchers: Vec<FileWatcher> = Vec::new();
        let mut j: usize = 0;
        while j < filtered_paths.len()
            invariant
                j <= filtered_paths@.len(),
                watchers@.len() == j,
                forall|k: int|
                    0 <= k < j ==> (#[trigger] watchers@[k]).base_path@ == filtered_paths@[k]@,
            decreases filtered_paths@.len() - j,
        {
            watchers.push(FileWatcher::new(filtered_paths[j].clone()));
            j += 1;
        }
        assert(base_paths(watchers@) =~= texts(filtered_paths@));
        Watchers { watchers, rejected }
    }

    /// Decides what a notification of a created path means. A path that is
    /// no regular, readable file is ignored, and so is one outside the
    /// watched tree. Any other path is a detected file whose key is the path
    /// relative to the tree's root.
    pub fn handle_event(&self, path: &str, is_file: bool) -> (detected: Option<File>)
        ensures
            detected is Some <==> is_file && within(path@, self.base_path@),
            detected matches Some(file) ==> {
                &&& file.base_path@ == self.base_path@
                &&& file.key@ == relative_key(path@, self.base_path@)
            },
    {
        if !is_file || !starts_with(path, self.base_path.as_str()) {
            return None;
        }
        let total = path.unicode_len();
        let end = trim_len(path);
        let base = trim_len(self.base_path.as_str());
        proof {
            trimmed_len_is_exact(path@);
        }
        let mut start: usize = base;
        let mut done = false;
        while start < total && !done
            invariant
                base <= start <= total,
                total == path@.len(),
                key_start(path@, base as nat) == key_start(path@, start as nat),
                done ==> start < total && path@[start as int] != '/',
            decreases total - start + if done { 0int } else { 1int },
        {
            if path.get_char(start) == '/' {
                start += 1;
            } else {
                done = true;
            }
        }
        let key = if start <= end {
            String::from_str(path.substring_char(start, end))
        } else {
            String::new()
        };
        Some(File::new(self.base_path.clone(), key))
    }
}

} // verus!
