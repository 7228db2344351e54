//! The multipart upload protocol as a state machine.
//!
//! A worker owns one [`MultipartUpload`] per job. It performs the [`Action`]
//! the machine asks for (a remote call or a local read), reports what came of
//! it as an [`Event`], and repeats until the machine answers
//! [`Action::Report`]. The machine never performs input or output itself.

use vstd::prelude::*;
use vstd::string::*;
use crate::file::File;
use crate::text::push_signed_decimal;
use crate::text::signed_decimal;

verus! {

/// The MD5 digest of a byte string, as computed by the `md5` crate.
pub uninterp spec fn md5_of(data: Seq<u8>) -> Seq<u8>;

/// The standard, padded base64 text of a byte string, as produced by the
/// `base64` crate.
pub uninterp spec fn base64_of(data: Seq<u8>) -> Seq<char>;

/// Largest chunk length, and largest count of recorded parts, that still
/// yields a content length and a part number within `i64`.
pub const PART_LIMIT: u64 = 0x7fff_ffff_ffff_ffff;

/// Calls `md5::compute` on the bytes and copies the digest out.
///
/// Trusted: the result is the MD5 digest of `data`, which is always 16 bytes
/// long (the crate's `Digest` wraps a `[u8; 16]`).
#[verifier::external_body]
fn md5_digest(data: &Vec<u8>) -> (digest: Vec<u8>)
    ensures
        digest@ == md5_of(data@),
        digest@.len() == 16,
{
    md5::compute(data).0.to_vec()
}

/// Calls `base64::encode` on the bytes.
///
/// Trusted: the result is the base64 text of `data`. The length bound keeps
/// the crate's size computation, which panics on overflow, within `usize`.
#[verifier::external_body]
fn base64_encode(data: &Vec<u8>) -> (text: String)
    requires
        data@.len() <= 0x4000_0000,
    ensures
        text@ == base64_of(data@),
{
    base64::encode(data)
}

/// The integrity checksum sent along with a part: the base64 text of the MD5
/// digest of the part's bytes.
pub fn content_md5(body: &Vec<u8>) -> (checksum: String)
    ensures
        checksum@ == base64_of(md5_of(body@)),
{
    let digest = md5_digest(body);
    base64_encode(&digest)
}

/// Why an upload failed, with the cause reported by whoever performed the
/// failing step.
#[derive(Debug)]
pub enum Error {
    /// The remote store refused to open a session.
    CreateMultipartUpload(String),
    /// The remote store refused the part with this number.
    UploadPart { part_number: i64, error: String },
    /// The remote store refused to finalize the object.
    CompleteMultipartUpload(String),
    /// Anything else, described in words.
    Generic(String),
    /// The local file could not be read.
    Read(String),
}

/// What an [`Error`] says, with its texts as character sequences.
pub enum Failure {
    CreateMultipartUpload(Seq<char>),
    UploadPart { part_number: int, error: Seq<char> },
    CompleteMultipartUpload(Seq<char>),
    Generic(Seq<char>),
    Read(Seq<char>),
}

impl View for Error {
    type V = Failure;

    open spec fn view(&self) -> Failure {
        match *self {
            Error::CreateMultipartUpload(cause) => Failure::CreateMultipartUpload(cause@),
            Error::UploadPart { part_number, error } => Failure::UploadPart {
                part_number: part_number as int,
                error: error@,
            },
            Error::CompleteMultipartUpload(cause) => Failure::CompleteMultipartUpload(cause@),
            Error::Generic(message) => Failure::Generic(message@),
            Error::Read(cause) => Failure::Read(cause@),
        }
    }
}

impl Failure {
    /// The failure in words: the step that failed, then its cause.
    pub open spec fn message(self) -> Seq<char> {
        match self {
            Failure::CreateMultipartUpload(cause) => "Failed to create multipart upload: "@ + cause,
            Failure::UploadPart { part_number, error } => "Failed to upload part "@
                + signed_decimal(part_number) + ": "@ + error,
            Failure::CompleteMultipartUpload(cause) => "Failed to complete multipart upload: "@
                + cause,
            Failure::Generic(message) => "Failed to upload file: "@ + message,
            Failure::Read(cause) => "Failed to read file: "@ + cause,
        }
    }
}

impl Error {
    /// The failure for an event that the upload's stage does not wait for.
    fn unexpected() -> (error: Error)
        ensures
            error@ == Failure::Generic(unexpected_event()),
    {
        Error::Generic(String::from_str("Unexpected event for the upload's stage"))
    }

    /// The failure in words: the step that failed, then its cause.
    pub fn message(&self) -> (text: String)
        ensures
            text@ == self@.message(),
    {
        match self {
            Error::CreateMultipartUpload(cause) => {
                let mut text = String::from_str("Failed to create multipart upload: ");
                text.append(cause.as_str());
                text
            },
            Error::UploadPart { part_number, error } => {
                let mut text = String::from_str("Failed to upload part ");
                push_signed_decimal(&mut text, *part_number);
                text.append(": ");
                text.append(error.as_str());
                text
            },
            Error::CompleteMultipartUpload(cause) => {
                let mut text = String::from_str("Failed to complete multipart upload: ");
                text.append(cause.as_str());
                text
            },
            Error::Generic(message) => {
                let mut text = String::from_str("Failed to upload file: ");
                text.append(message.as_str());
                text
            },
            Error::Read(cause) => {
                let mut text = String::from_str("Failed to read file: ");
                text.append(cause.as_str());
                text
            },
        }
    }
}

/// Message of the failure reported when the remote store opens a session
/// without naming it.
pub open spec fn missing_upload_id() -> Seq<char> {
    "Didn't get an upload_id"@
}

/// Message of the failure reported when an event arrives that the current
/// stage does not wait for.
pub open spec fn unexpected_event() -> Seq<char> {
    "Unexpected event for the upload's stage"@
}

/// Message of the failure reported when a chunk's length or the next part
/// number would not fit in `i64`.
pub open spec fn part_out_of_range() -> Seq<char> {
    "Part is out of range"@
}

/// Message of the failure reported for an upload that was given up before it
/// reached a final stage.
pub open spec fn unfinished_upload() -> Seq<char> {
    "Upload did not finish"@
}

/// A part that the remote store has accepted.
#[derive(Debug)]
pub struct CompletedPart {
    /// Position of the part in the object, counted from 1.
    pub part_number: i64,
    /// The identifier the remote store returned for the part.
    pub e_tag: String,
}

/// Where an upload stands.
#[derive(Clone, Copy, Debug, PartialEq, Eq, Structural)]
pub enum Stage {
    /// A session has been requested.
    Init,
    /// The session is open and no chunk has been read yet.
    SessionOpen,
    /// At least one non-empty chunk has been read.
    PartsUploading,
    /// The file is consumed and finalization has been requested.
    Completing,
    /// The object is finalized.
    Done,
    /// A step failed and cancellation of the session has been requested.
    Aborting,
    /// The cancellation request has returned, whatever its result.
    Aborted,
    /// No session could be opened; there was nothing to cancel.
    Failed,
}

/// What the worker reports back to the machine.
#[derive(Debug)]
pub enum Event {
    /// Result of the session request: the session's identifier, if the remote
    /// store gave one, or the cause of the failure.
    SessionCreated(Result<Option<String>, String>),
    /// Result of reading the next chunk of the local file. An empty chunk
    /// means that the file is consumed.
    ChunkRead(Result<Vec<u8>, String>),
    /// Result of uploading the part in flight: the identifier the remote
    /// store returned for it, or the cause of the failure.
    PartUploaded(Result<String, String>),
    /// Result of the finalization request.
    Completed(Result<(), String>),
    /// Result of the cancellation request.
    Aborted(Result<(), String>),
}

/// What the machine asks the worker to do next.
#[derive(Debug)]
pub enum Action {
    /// Request a session for the job's bucket and key.
    CreateSession,
    /// Read the next chunk of the local file, of at most `max_len` bytes.
    ReadChunk { max_len: usize },
    /// Upload `body` as the part with this number in the open session.
    UploadPart { part_number: i64, body: Vec<u8>, content_length: i64, content_md5: String },
    /// Finalize the object from the job's recorded parts, in their order.
    Complete,
    /// Cancel the open session.
    Abort,
    /// The job is over: take its result.
    Report,
}

/// The outcome of one job, as handed back to the dispatcher.
#[derive(Debug)]
pub struct UploadResult {
    pub file: File,
    pub outcome: Result<(), Error>,
}

/// Settings shared by all uploads of one worker.
pub struct Uploader {
    pub bucket_name: String,
    pub part_size: usize,
}

/// One upload job and its progress through the protocol.
#[derive(Debug)]
pub struct MultipartUpload {
    pub bucket: String,
    pub file: File,
    pub part_size: usize,
    pub stage: Stage,
    /// Whether a part has been handed out for upload and its result is awaited.
    pub part_in_flight: bool,
    /// The session's identifier; empty until the session is open.
    pub upload_id: String,
    /// The parts accepted so far, in the order they were uploaded.
    pub parts: Vec<CompletedPart>,
    /// The failure that ended the job, if one did.
    pub error: Option<Error>,
}

impl Stage {
    /// No event changes an upload in a final stage.
    pub open spec fn is_final(self) -> bool {
        self == Stage::Done || self == Stage::Aborted || self == Stage::Failed
    }

    /// The stages in which a session is open and work is going on.
    pub open spec fn is_active(self) -> bool {
        self == Stage::SessionOpen || self == Stage::PartsUploading || self == Stage::Completing
    }
}

impl MultipartUpload {
    /// The invariant of an upload: parts are numbered 1, 2, 3, ... in the
    /// order they are recorded, a failure is recorded exactly in the stages
    /// that follow one, and a part is in flight only while parts are uploading.
    pub open spec fn wf(self) -> bool {
        &&& forall|i: int|
            0 <= i < self.parts@.len() ==> (#[trigger] self.parts@[i]).part_number == i + 1
        &&& self.parts@.len() <= PART_LIMIT
        &&& (self.stage == Stage::Init || self.stage == Stage::SessionOpen || self.stage
            == Stage::Failed) ==> self.parts@.len() == 0
        &&& self.part_in_flight ==> self.stage == Stage::PartsUploading && self.parts@.len()
            < PART_LIMIT
        &&& self.stage == Stage::PartsUploading && !self.part_in_flight ==> self.parts@.len() > 0
        &&& self.error is Some <==> (self.stage == Stage::Aborting || self.stage == Stage::Aborted
            || self.stage == Stage::Failed)
    }

    /// The job's bucket, file and part size are those of `pre`.
    pub open spec fn same_job(self, pre: MultipartUpload) -> bool {
        &&& self.bucket == pre.bucket
        &&& self.file == pre.file
        &&& self.part_size == pre.part_size
    }

    /// The session and the recorded parts are those of `pre`.
    pub open spec fn same_session(self, pre: MultipartUpload) -> bool {
        &&& self.upload_id == pre.upload_id
        &&& self.parts == pre.parts
    }

    /// The number of the part that is uploaded next, or is in flight.
    pub open spec fn next_part_number(self) -> int {
        self.parts@.len() as int + 1
    }

    /// Whether `chunk` can become the next part: its length and the part's
    /// number both fit in `i64`.
    pub open spec fn fits(self, chunk: Seq<u8>) -> bool {
        chunk.len() <= PART_LIMIT && self.parts@.len() < PART_LIMIT
    }
}

/// The upload gives up in an active stage: it records `failure` and asks for
/// the session to be cancelled.
pub open spec fn aborts(
    pre: MultipartUpload,
    post: MultipartUpload,
    action: Action,
    failure: Failure,
) -> bool {
    &&& post.stage == Stage::Aborting
    &&& !post.part_in_flight
    &&& post.same_session(pre)
    &&& post.error matches Some(e) && e@ == failure
    &&& action is Abort
}

/// The upload ends before a session exists: it records `failure` and is over.
pub open spec fn fails(
    pre: MultipartUpload,
    post: MultipartUpload,
    action: Action,
    failure: Failure,
) -> bool {
    &&& post.stage == Stage::Failed
    &&& !post.part_in_flight
    &&& post.same_session(pre)
    &&& post.error matches Some(e) && e@ == failure
    &&& action is Report
}

/// What an event does that the upload's stage does not wait for. A finished
/// upload stays as it is; one that is cancelling counts as cancelled; one
/// without a session fails; an active one gives up and cancels its session.
pub open spec fn stray(pre: MultipartUpload, post: MultipartUpload, action: Action) -> bool {
    if pre.stage.is_final() {
        post == pre && action is Report
    } else if pre.stage == Stage::Aborting {
        &&& post.stage == Stage::Aborted
        &&& post.part_in_flight == pre.part_in_flight
        &&& post.same_session(pre)
        &&& post.error == pre.error
        &&& action is Report
    } else if pre.stage == Stage::Init {
        fails(pre, post, action, Failure::Generic(unexpected_event()))
    } else {
        aborts(pre, post, action, Failure::Generic(unexpected_event()))
    }
}

/// The answer to the session request, awaited in stage `Init`.
pub open spec fn session_step(
    pre: MultipartUpload,
    created: Result<Option<String>, String>,
    post: MultipartUpload,
    action: Action,
) -> bool {
    match created {
        Ok(Some(id)) => {
            &&& post.stage == Stage::SessionOpen
            &&& !post.part_in_flight
            &&& post.upload_id@ == id@
            &&& post.parts == pre.parts
            &&& post.error == pre.error
            &&& action == (Action::ReadChunk { max_len: pre.part_size })
        },
        Ok(None) => fails(pre, post, action, Failure::Generic(missing_upload_id())),
        Err(cause) => fails(pre, post, action, Failure::CreateMultipartUpload(cause@)),
    }
}

/// The result of a read, awaited while the session is open and no part is in
/// flight.
pub open spec fn chunk_step(
    pre: MultipartUpload,
    read: Result<Vec<u8>, String>,
    post: MultipartUpload,
    action: Action,
) -> bool {
    match read {
        Ok(chunk) => if chunk@.len() == 0 {
            &&& post.stage == Stage::Completing
            &&& !post.part_in_flight
            &&& post.same_session(pre)
            &&& post.error == pre.error
            &&& action is Complete
        } else if pre.fits(chunk@) {
            &&& post.stage == Stage::PartsUploading
            &&& post.part_in_flight
            &&& post.same_session(pre)
            &&& post.error == pre.error
            &&& uploads_part(action, pre.next_part_number(), chunk@)
        } else {
            aborts(pre, post, action, Failure::Generic(part_out_of_range()))
        },
        Err(cause) => aborts(pre, post, action, Failure::Read(cause@)),
    }
}

/// The result of a part's upload, awaited while that part is in flight.
pub open spec fn part_step(
    pre: MultipartUpload,
    uploaded: Result<String, String>,
    post: MultipartUpload,
    action: Action,
) -> bool {
    if pre.parts@.len() >= PART_LIMIT {
        aborts(pre, post, action, Failure::Generic(part_out_of_range()))
    } else {
        part_recorded(pre, uploaded, post, action)
    }
}

/// The result of a part's upload whose number fits in `i64`.
pub open spec fn part_recorded(
    pre: MultipartUpload,
    uploaded: Result<String, String>,
    post: MultipartUpload,
    action: Action,
) -> bool {
    match uploaded {
        Ok(e_tag) => {
            &&& post.stage == Stage::PartsUploading
            &&& !post.part_in_flight
            &&& post.upload_id == pre.upload_id
            &&& post.parts@.len() == pre.parts@.len() + 1
            &&& post.parts@.take(pre.parts@.len() as int) == pre.parts@
            &&& post.parts@.last().part_number == pre.next_part_number()
            &&& post.parts@.last().e_tag@ == e_tag@
            &&& post.error == pre.error
            &&& action == (Action::ReadChunk { max_len: pre.part_size })
        },
        Err(cause) => aborts(
            pre,
            post,
            action,
            Failure::UploadPart { part_number: pre.next_part_number(), error: cause@ },
        ),
    }
}

/// The answer to the finalization request, awaited in stage `Completing`.
pub open spec fn completion_step(
    pre: MultipartUpload,
    completed: Result<(), String>,
    post: MultipartUpload,
    action: Action,
) -> bool {
    match completed {
        Ok(_) => {
            &&& post.stage == Stage::Done
            &&& !post.part_in_flight
            &&& post.same_session(pre)
            &&& post.error == pre.error
            &&& action is Report
        },
        Err(cause) => aborts(pre, post, action, Failure::CompleteMultipartUpload(cause@)),
    }
}

/// One step of the protocol: the upload `pre` receives `event`, becomes
/// `post` and asks for `action`.
pub open spec fn transition(
    pre: MultipartUpload,
    event: Event,
    post: MultipartUpload,
    action: Action,
) -> bool {
    &&& post.same_job(pre)
    &&& match event {
        Event::SessionCreated(created) => if pre.stage == Stage::Init {
            session_step(pre, created, post, action)
        } else {
            stray(pre, post, action)
        },
        Event::ChunkRead(read) => if (pre.stage == Stage::SessionOpen || pre.stage
            == Stage::PartsUploading) && !pre.part_in_flight {
            chunk_step(pre, read, post, action)
        } else {
            stray(pre, post, action)
        },
        Event::PartUploaded(uploaded) => if pre.stage == Stage::PartsUploading
            && pre.part_in_flight {
            part_step(pre, uploaded, post, action)
        } else {
            stray(pre, post, action)
        },
        Event::Completed(completed) => if pre.stage == Stage::Completing {
            completion_step(pre, completed, post, action)
        } else {
            stray(pre, post, action)
        },
        Event::Aborted(_) => stray(pre, post, action),
    }
}

impl Uploader {
    /// Settings for uploads into `bucket_name` in parts of `part_size` bytes.
    pub fn new(bucket_name: &str, part_size: usize) -> (uploader: Uploader)
        ensures
            uploader.bucket_name@ == bucket_name@,
            uploader.part_size == part_size,
    {
        Uploader { bucket_name: String::from_str(bucket_name), part_size }
    }

    /// Starts the upload of `file`: the new job is in stage `Init`, has
    /// recorded nothing, and asks for a session.
    pub fn upload_file(&self, file: File) -> (started: (MultipartUpload, Action))
        ensures
            started.0.wf(),
            started.0.stage == Stage::Init,
            started.0.bucket@ == self.bucket_name@,
            started.0.file == file,
            started.0.part_size == self.part_size,
            started.0.upload_id@.len() == 0,
            started.0.parts@.len() == 0,
            started.0.error is None,
            !started.0.part_in_flight,
            started.1 is CreateSession,
    {
        let job = MultipartUpload {
            bucket: self.bucket_name.clone(),
            file,
            part_size: self.part_size,
            stage: Stage::Init,
            part_in_flight: false,
            upload_id: String::new(),
            parts: Vec::new(),
            error: None,
        };
        (job, Action::CreateSession)
    }
}

impl MultipartUpload {
    /// Handles an event the stage does not wait for.
    fn stray_event(&mut self) -> (action: Action)
        ensures
            final(self).same_job(*old(self)),
            stray(*old(self), *final(self), action),
            old(self).wf() ==> final(self).wf(),
    {
        match self.stage {
            Stage::Done | Stage::Aborted | Stage::Failed => Action::Report,
            Stage::Aborting => {
                self.stage = Stage::Aborted;
                Action::Report
            },
            Stage::Init => self.fail(Error::unexpected()),
            _ => self.abort(Error::unexpected()),
        }
    }

    /// Records `error` and asks for the session to be cancelled.
    fn abort(&mut self, error: Error) -> (action: Action)
        requires
            old(self).stage.is_active(),
        ensures
            final(self).same_job(*old(self)),
            aborts(*old(self), *final(self), action, error@),
            old(self).wf() ==> final(self).wf(),
    {
        self.stage = Stage::Aborting;
        self.part_in_flight = false;
        self.error = Some(error);
        Action::Abort
    }

    /// Records `error` for a job that never had a session.
    fn fail(&mut self, error: Error) -> (action: Action)
        requires
            old(self).stage == Stage::Init,
        ensures
            final(self).same_job(*old(self)),
            fails(*old(self), *final(self), action, error@),
            old(self).wf() ==> final(self).wf(),
    {
        self.stage = Stage::Failed;
        self.part_in_flight = false;
        self.error = Some(error);
        Action::Report
    }

    /// Takes the answer to the session request. With a session identifier the
    /// upload opens and asks for the first chunk; without one, or on a
    /// failure, the job is over and nothing is cancelled.
    pub fn create_multipart_upload(&mut self, created: Result<Option<String>, String>) -> (action:
        Action)
        ensures
            transition(*old(self), Event::SessionCreated(created), *final(self), action),
            old(self).wf() ==> final(self).wf(),
    {
        if self.stage != Stage::Init {
            return self.stray_event();
        }
        match created {
            Ok(Some(id)) => {
                self.stage = Stage::SessionOpen;
                self.part_in_flight = false;
                self.upload_id = id;
                Action::ReadChunk { max_len: self.part_size }
            },
            Ok(None) => self.fail(Error::Generic(String::from_str("Didn't get an upload_id"))),
            Err(cause) => self.fail(Error::CreateMultipartUpload(cause)),
        }
    }

    /// Takes the result of a read. A non-empty chunk becomes the next part,
    /// numbered one above the parts recorded so far and tagged with its
    /// checksum; an empty chunk ends the file and asks for finalization; a
    /// failed read gives the upload up.
    pub fn upload_file_parts(&mut self, read: Result<Vec<u8>, String>) -> (action: Action)
        ensures
            transition(*old(self), Event::ChunkRead(read), *final(self), action),
            old(self).wf() ==> final(self).wf(),
    {
        let reading = (self.stage == Stage::SessionOpen || self.stage == Stage::PartsUploading)
            && !self.part_in_flight;
        if !reading {
            return self.stray_event();
        }
        match read {
            Ok(chunk) => {
                let recorded: usize = self.parts.len();
                let length: usize = chunk.len();
                if length == 0 {
                    self.stage = Stage::Completing;
                    Action::Complete
                } else if length as u64 <= PART_LIMIT && (recorded as u64) < PART_LIMIT {
                    let content_md5 = content_md5(&chunk);
                    self.stage = Stage::PartsUploading;
                    self.part_in_flight = true;
                    Action::UploadPart {
                        part_number: recorded as i64 + 1,
                        body: chunk,
                        content_length: length as i64,
                        content_md5,
                    }
                } else {
                    self.abort(Error::Generic(String::from_str("Part is out of range")))
                }
            },
            Err(cause) => self.abort(Error::Read(cause)),
        }
    }

    /// Takes the result of the part in flight. An accepted part is recorded
    /// under its number and the next chunk is asked for; a refused part gives
    /// the upload up with a failure that names the part.
    pub fn upload_part(&mut self, uploaded: Result<String, String>) -> (action: Action)
        ensures
            transition(*old(self), Event::PartUploaded(uploaded), *final(self), action),
            old(self).wf() ==> final(self).wf(),
    {
        if !(self.stage == Stage::PartsUploading && self.part_in_flight) {
            return self.stray_event();
        }
        let recorded: usize = self.parts.len();
        if recorded as u64 >= PART_LIMIT {
            // Not reachable from a well-formed upload: a part is only handed
            // out while its number fits.
            return self.abort(Error::Generic(String::from_str("Part is out of range")));
        }
        match uploaded {
            Ok(e_tag) => {
                self.parts.push(CompletedPart { part_number: recorded as i64 + 1, e_tag });
                self.part_in_flight = false;
                assert(self.parts@.take(recorded as int) =~= old(self).parts@);
                Action::ReadChunk { max_len: self.part_size }
            },
            Err(cause) => self.abort(
                Error::UploadPart { part_number: recorded as i64 + 1, error: cause },
            ),
        }
    }

    /// Takes the answer to the finalization request: the job is done, or it
    /// gives the upload up.
    pub fn complete_multipart_upload(&mut self, completed: Result<(), String>) -> (action: Action)
        ensures
            transition(*old(self), Event::Completed(completed), *final(self), action),
            old(self).wf() ==> final(self).wf(),
    {
        if self.stage != Stage::Completing {
            return self.stray_event();
        }
        match completed {
            Ok(_) => {
                self.stage = Stage::Done;
                self.part_in_flight = false;
                Action::Report
            },
            Err(cause) => self.abort(Error::CompleteMultipartUpload(cause)),
        }
    }

    /// Takes the answer to the cancellation request. Whether cancelling
    /// worked or not, the job is over and keeps the failure that caused it.
    pub fn abort_multipart_upload(&mut self, aborted: Result<(), String>) -> (action: Action)
        ensures
            transition(*old(self), Event::Aborted(aborted), *final(self), action),
            old(self).wf() ==> final(self).wf(),
    {
        self.stray_event()
    }

    /// Advances the upload by one event and says what to do next.
    pub fn step(&mut self, event: Event) -> (action: Action)
        ensures
            transition(*old(self), event, *final(self), action),
            old(self).wf() ==> final(self).wf(),
    {
        match event {
            Event::SessionCreated(created) => self.create_multipart_upload(created),
            Event::ChunkRead(read) => self.upload_file_parts(read),
            Event::PartUploaded(uploaded) => self.upload_part(uploaded),
            Event::Completed(completed) => self.complete_multipart_upload(completed),
            Event::Aborted(aborted) => self.abort_multipart_upload(aborted),
        }
    }

    /// Whether the job is over, so that its result can be taken.
    pub fn is_finished(&self) -> (finished: bool)
        ensures
            finished == self.stage.is_final(),
    {
        self.stage == Stage::Done || self.stage == Stage::Aborted || self.stage == Stage::Failed
    }

    /// Ends the job and gives its result: success for a finalized object,
    /// otherwise the recorded failure. A job given up on the way, with no
    /// failure recorded, reports that it did not finish.
    pub fn into_result(self) -> (result: UploadResult)
        ensures
            result.file == self.file,
            self.stage == Stage::Done ==> result.outcome is Ok,
            self.stage != Stage::Done && self.error is Some ==> result.outcome == Err::<
                (),
                Error,
            >(self.error->0),
            self.stage != Stage::Done && self.error is None ==> (result.outcome matches Err(e)
                && e@ == Failure::Generic(unfinished_upload())),
    {
        let outcome = if self.stage == Stage::Done {
            Ok(())
        } else {
            match self.error {
                Some(error) => Err(error),
                None => Err(Error::Generic(String::from_str("Upload did not finish"))),
            }
        };
        UploadResult { file: self.file, outcome }
    }
}

/// The action uploads `chunk` as the part with this number, with the chunk's
/// length and checksum.
pub open spec fn uploads_part(action: Action, number: int, chunk: Seq<u8>) -> bool {
    &&& action matches Action::UploadPart { part_number, body, content_length, content_md5 }
    &&& part_number == number
    &&& body@ == chunk
    &&& content_length == chunk.len()
    &&& content_md5@ == base64_of(md5_of(chunk))
}

/// A run of the protocol: every upload state follows from the one before it
/// by the event at its place, asking for the action at that place.
pub open spec fn is_run(
    states: Seq<MultipartUpload>,
    events: Seq<Event>,
    actions: Seq<Action>,
) -> bool {
    &&& states.len() == events.len() + 1
    &&& actions.len() == events.len()
    &&& forall|i: int|
        0 <= i < events.len() ==> transition(
            states[i],
            events[i],
            states[i + 1],
            #[trigger] actions[i],
        )
}

/// An upload that has given up keeps its failure for the rest of the run and
/// asks for nothing but to report it: from a state in stage `Aborting` or
/// `Aborted`, every later state is in one of these two stages with the same
/// failure, and every action from there on is `Report`.
pub proof fn given_up_upload_only_reports(
    states: Seq<MultipartUpload>,
    events: Seq<Event>,
    actions: Seq<Action>,
    from: int,
    to: int,
)
    requires
        is_run(states, events, actions),
        0 <= from <= to <= events.len(),
        states[from].stage == Stage::Aborting || states[from].stage == Stage::Aborted,
    ensures
        states[to].stage == Stage::Aborting || states[to].stage == Stage::Aborted,
        to > from ==> states[to].stage == Stage::Aborted,
        states[to].error == states[from].error,
        to < events.len() ==> actions[to] is Report,
    decreases to - from,
{
    if to > from {
        given_up_upload_only_reports(states, events, actions, from, to - 1);
        assert(transition(states[to - 1], events[to - 1], states[to], actions[to - 1]));
    }
    if to < events.len() {
        assert(transition(states[to], events[to], states[to + 1], actions[to]));
    }
}

/// When the upload of a part fails, the upload asks for its session to be
/// cancelled, never asks for finalization or any other remote call
/// afterwards, and the failure it keeps, and reports, names that part.
pub proof fn failed_part_is_never_completed(
    states: Seq<MultipartUpload>,
    events: Seq<Event>,
    actions: Seq<Action>,
    at: int,
    cause: String,
)
    requires
        is_run(states, events, actions),
        0 <= at < events.len(),
        states[at].wf(),
        states[at].stage == Stage::PartsUploading,
        states[at].part_in_flight,
        events[at] == Event::PartUploaded(Err(cause)),
    ensures
        actions[at] is Abort,
        states[at + 1].stage == Stage::Aborting,
        forall|j: int| at < j < events.len() ==> #[trigger] actions[j] is Report,
        forall|j: int|
            at < j <= events.len() ==> {
                &&& (#[trigger] states[j]).stage != Stage::Done
                &&& states[j].error matches Some(e)
                &&& e@ == (Failure::UploadPart {
                    part_number: states[at].next_part_number(),
                    error: cause@,
                })
            },
{
    assert(transition(states[at], events[at], states[at + 1], actions[at]));
    assert forall|j: int| at < j < events.len() implies #[trigger] actions[j] is Report by {
        given_up_upload_only_reports(states, events, actions, at + 1, j);
    }
    assert forall|j: int| at < j <= events.len() implies {
        &&& (#[trigger] states[j]).stage != Stage::Done
        &&& states[j].error matches Some(e)
        &&& e@ == (Failure::UploadPart {
            part_number: states[at].next_part_number(),
            error: cause@,
        })
    } by {
        given_up_upload_only_reports(states, events, actions, at + 1, j);
    }
}

/// Finalization is asked for only when a read returns an empty chunk while
/// no part is in flight, and it leaves the recorded parts as they are. In a
/// well-formed upload these are numbered 1, 2, 3, ... in their order.
pub proof fn completion_lists_the_recorded_parts(
    pre: MultipartUpload,
    event: Event,
    post: MultipartUpload,
    action: Action,
)
    requires
        pre.wf(),
        transition(pre, event, post, action),
        action is Complete,
    ensures
        event matches Event::ChunkRead(Ok(chunk)) && chunk@.len() == 0,
        !pre.part_in_flight,
        post.stage == Stage::Completing,
        post.parts == pre.parts,
        forall|i: int|
            0 <= i < post.parts@.len() ==> (#[trigger] post.parts@[i]).part_number == i + 1,
{
}

/// A file of exactly three times the part size is uploaded in exactly three
/// parts. The run that opens a session, reads the file's three full chunks
/// and then the empty chunk at its end, with every remote call succeeding,
/// uploads the chunks as parts 1, 2 and 3, each with its checksum, finalizes
/// with exactly these three parts in ascending order, and ends in `Done`.
pub proof fn three_full_chunks_make_three_parts(
    states: Seq<MultipartUpload>,
    events: Seq<Event>,
    actions: Seq<Action>,
    data: Seq<u8>,
    id: String,
    first: Vec<u8>,
    second: Vec<u8>,
    third: Vec<u8>,
    end: Vec<u8>,
    e_tags: Seq<String>,
)
    requires
        is_run(states, events, actions),
        states[0].wf(),
        states[0].stage == Stage::Init,
        0 < states[0].part_size <= PART_LIMIT,
        data.len() == 3 * states[0].part_size,
        first@ == data.subrange(0, states[0].part_size as int),
        second@ == data.subrange(states[0].part_size as int, 2 * states[0].part_size),
        third@ == data.subrange(2 * states[0].part_size, 3 * states[0].part_size),
        end@.len() == 0,
        e_tags.len() == 3,
        events.len() == 9,
        events[0] == Event::SessionCreated(Ok(Some(id))),
        events[1] == Event::ChunkRead(Ok(first)),
        events[2] == Event::PartUploaded(Ok(e_tags[0])),
        events[3] == Event::ChunkRead(Ok(second)),
        events[4] == Event::PartUploaded(Ok(e_tags[1])),
        events[5] == Event::ChunkRead(Ok(third)),
        events[6] == Event::PartUploaded(Ok(e_tags[2])),
        events[7] == Event::ChunkRead(Ok(end)),
        events[8] == Event::Completed(Ok(())),
    ensures
        uploads_part(actions[1], 1, first@),
        uploads_part(actions[3], 2, second@),
        uploads_part(actions[5], 3, third@),
        forall|i: int|
            0 <= i < 9 && i != 1 && i != 3 && i != 5 ==> !(#[trigger] actions[i] is UploadPart),
        actions[7] is Complete,
        forall|i: int| 0 <= i < 9 && i != 7 ==> !(#[trigger] actions[i] is Complete),
        states[8].parts@.len() == 3,
        forall|k: int|
            0 <= k < 3 ==> {
                &&& (#[trigger] states[8].parts@[k]).part_number == k + 1
                &&& states[8].parts@[k].e_tag@ == e_tags[k]@
            },
        actions[8] is Report,
        states[9].stage == Stage::Done,
        states[9].error is None,
{
    assert(transition(states[0], events[0], states[1], actions[0]));
    assert(transition(states[1], events[1], states[2], actions[1]));
    assert(transition(states[2], events[2], states[3], actions[2]));
    assert(states[3].parts@.take(0) =~= states[2].parts@);
    assert(transition(states[3], events[3], states[4], actions[3]));
    assert(transition(states[4], events[4], states[5], actions[4]));
    assert(states[5].parts@[0] == states[5].parts@.take(1)[0]);
    assert(transition(states[5], events[5], states[6], actions[5]));
    assert(transition(states[6], events[6], states[7], actions[6]));
    assert(states[7].parts@[0] == states[7].parts@.take(2)[0]);
    assert(states[7].parts@[1] == states[7].parts@.take(2)[1]);
    assert(transition(states[7], events[7], states[8], actions[7]));
    assert(transition(states[8], events[8], states[9], actions[8]));
}

/// Every step keeps the invariant of an upload.
pub proof fn transition_keeps_wf(
    pre: MultipartUpload,
    event: Event,
    post: MultipartUpload,
    action: Action,
)
    requires
        pre.wf(),
        transition(pre, event, post, action),
    ensures
        post.wf(),
{
    if post.parts@.len() == pre.parts@.len() + 1 && post.parts@.take(pre.parts@.len() as int)
        == pre.parts@ {
        assert forall|i: int| 0 <= i < post.parts@.len() implies (#[trigger] post.parts@[i]).part_number
            == i + 1 by {
            if i < pre.parts@.len() {
                assert(post.parts@.take(pre.parts@.len() as int)[i] == post.parts@[i]);
            }
        }
    }
}

/// The place in a run without failures where the chunk at `k` is read.
pub open spec fn read_slot(k: int) -> int {
    2 * k + 1
}

/// The place in a run without failures where the upload of the chunk at `k`
/// is answered.
pub open spec fn upload_slot(k: int) -> int {
    2 * k + 2
}

/// A run without failures: the session opens under `id`, each of the
/// non-empty `chunks` is read and its upload answered with the tag at its
/// place in `e_tags`, then the read at the end of the file returns the empty
/// chunk `end`, and the finalization succeeds.
pub open spec fn is_smooth_run(
    states: Seq<MultipartUpload>,
    events: Seq<Event>,
    actions: Seq<Action>,
    id: String,
    chunks: Seq<Vec<u8>>,
    e_tags: Seq<String>,
    end: Vec<u8>,
) -> bool {
    let n = chunks.len() as int;
    &&& is_run(states, events, actions)
    &&& states[0].wf()
    &&& states[0].stage == Stage::Init
    &&& e_tags.len() == n
    &&& n < PART_LIMIT
    &&& events.len() == 2 * n + 3
    &&& events[0] == Event::SessionCreated(Ok(Some(id)))
    &&& forall|k: int| 0 <= k < n ==> 0 < (#[trigger] chunks[k])@.len() <= PART_LIMIT
    &&& forall|k: int|
        0 <= k < n ==> events[#[trigger] read_slot(k)] == Event::ChunkRead(Ok(chunks[k]))
    &&& forall|k: int|
        0 <= k < n ==> events[#[trigger] upload_slot(k)] == Event::PartUploaded(Ok(e_tags[k]))
    &&& end@.len() == 0
    &&& events[2 * n + 1] == Event::ChunkRead(Ok(end))
    &&& events[2 * n + 2] == Event::Completed(Ok(()))
}

/// In a run without failures, once the first `k` chunks are uploaded, the
/// upload has recorded exactly these as parts 1 to `k` and waits for the
/// next read.
pub proof fn smooth_run_records_each_part(
    states: Seq<MultipartUpload>,
    events: Seq<Event>,
    actions: Seq<Action>,
    id: String,
    chunks: Seq<Vec<u8>>,
    e_tags: Seq<String>,
    end: Vec<u8>,
    k: int,
)
    requires
        is_smooth_run(states, events, actions, id, chunks, e_tags, end),
        0 <= k <= chunks.len(),
    ensures
        ({
            let now = states[read_slot(k)];
            &&& now.wf()
            &&& now.stage == Stage::SessionOpen || now.stage == Stage::PartsUploading
            &&& !now.part_in_flight
            &&& now.error is None
            &&& now.part_size == states[0].part_size
            &&& now.parts@.len() == k
            &&& forall|i: int| 0 <= i < k ==> (#[trigger] now.parts@[i]).e_tag@ == e_tags[i]@
        }),
        forall|i: int|
            0 <= i < k ==> uploads_part(actions[#[trigger] read_slot(i)], i + 1, chunks[i]@),
    decreases k,
{
    if k == 0 {
        assert(transition(states[0], events[0], states[1], actions[0]));
        transition_keeps_wf(states[0], events[0], states[1], actions[0]);
    } else {
        smooth_run_records_each_part(states, events, actions, id, chunks, e_tags, end, k - 1);
        let read = read_slot(k - 1);
        let upload = upload_slot(k - 1);
        assert(events[read] == Event::ChunkRead(Ok(chunks[k - 1])));
        assert(events[upload] == Event::PartUploaded(Ok(e_tags[k - 1])));
        assert(chunks[k - 1]@.len() > 0);
        assert(transition(states[read], events[read], states[read + 1], actions[read]));
        transition_keeps_wf(states[read], events[read], states[read + 1], actions[read]);
        assert(transition(states[upload], events[upload], states[upload + 1], actions[upload]));
        transition_keeps_wf(states[upload], events[upload], states[upload + 1], actions[upload]);
        let before = states[read];
        let now = states[read_slot(k)];
        assert forall|i: int| 0 <= i < k implies (#[trigger] now.parts@[i]).e_tag@
            == e_tags[i]@ by {
            if i < k - 1 {
                assert(now.parts@.take(k - 1)[i] == now.parts@[i]);
                assert(before.parts@[i].e_tag@ == e_tags[i]@);
            }
        }
        assert forall|i: int| 0 <= i < k implies uploads_part(
            actions[#[trigger] read_slot(i)],
            i + 1,
            chunks[i]@,
        ) by {
            if i < k - 1 {
            }
        }
    }
}

/// Every non-empty chunk becomes the next part. In a run without failures
/// over any number of chunks, the chunks are uploaded in their order as parts
/// 1, 2, 3, ... with no gaps, each with its length and checksum; when the
/// file is consumed, finalization is asked for with exactly these parts in
/// ascending order, each with the tag the remote store gave it; and the
/// upload ends in `Done` without a failure.
pub proof fn every_chunk_becomes_the_next_part(
    states: Seq<MultipartUpload>,
    events: Seq<Event>,
    actions: Seq<Action>,
    id: String,
    chunks: Seq<Vec<u8>>,
    e_tags: Seq<String>,
    end: Vec<u8>,
)
    requires
        is_smooth_run(states, events, actions, id, chunks, e_tags, end),
    ensures
        forall|k: int|
            0 <= k < chunks.len() ==> uploads_part(
                actions[#[trigger] read_slot(k)],
                k + 1,
                chunks[k]@,
            ),
        ({
            let n = chunks.len() as int;
            let consumed = states[2 * n + 2];
            &&& actions[2 * n + 1] is Complete
            &&& consumed.parts@.len() == n
            &&& forall|k: int|
                0 <= k < n ==> {
                    &&& (#[trigger] consumed.parts@[k]).part_number == k + 1
                    &&& consumed.parts@[k].e_tag@ == e_tags[k]@
                }
            &&& actions[2 * n + 2] is Report
            &&& states[2 * n + 3].stage == Stage::Done
            &&& states[2 * n + 3].error is None
        }),
{
    let n = chunks.len() as int;
    smooth_run_records_each_part(states, events, actions, id, chunks, e_tags, end, n);
    let last = read_slot(n);
    assert(transition(states[last], events[last], states[last + 1], actions[last]));
    transition_keeps_wf(states[last], events[last], states[last + 1], actions[last]);
    assert(transition(states[last + 1], events[last + 1], states[last + 2], actions[last + 1]));
}

} // verus!
