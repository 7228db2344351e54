use s3_file_sync::file::File;
use s3_file_sync::uploader::{
    content_md5, Action, CompletedPart, Error, Event, MultipartUpload, Stage, Uploader,
};

fn job(part_size: usize) -> MultipartUpload {
    let uploader = Uploader::new("my-bucket", part_size);
    let file = File::new("/data".to_string(), "a/b.txt".to_string());
    let (job, action) = uploader.upload_file(file);
    assert!(matches!(action, Action::CreateSession));
    job
}

fn opened(part_size: usize) -> MultipartUpload {
    let mut job = job(part_size);
    let action = job.step(Event::SessionCreated(Ok(Some("session-1".to_string()))));
    assert!(matches!(action, Action::ReadChunk { max_len } if max_len == part_size));
    job
}

/// A remote store and a local file that answer every request of the
/// protocol; `fail_part` makes the upload of that part fail.
struct Harness {
    data: Vec<u8>,
    offset: usize,
    fail_part: Option<i64>,
    fail_completion: bool,
    uploaded: Vec<(i64, Vec<u8>, i64, String)>,
    completed_with: Option<Vec<(i64, String)>>,
    aborts: usize,
    sessions: usize,
}

impl Harness {
    fn new(data: Vec<u8>) -> Harness {
        Harness {
            data,
            offset: 0,
            fail_part: None,
            fail_completion: false,
            uploaded: Vec::new(),
            completed_with: None,
            aborts: 0,
            sessions: 0,
        }
    }

    fn perform(&mut self, job: &MultipartUpload, action: Action) -> Option<Event> {
        match action {
            Action::CreateSession => {
                self.sessions += 1;
                Some(Event::SessionCreated(Ok(Some("session-1".to_string()))))
            }
            Action::ReadChunk { max_len } => {
                let end = (self.offset + max_len).min(self.data.len());
                let chunk = self.data[self.offset..end].to_vec();
                self.offset = end;
                Some(Event::ChunkRead(Ok(chunk)))
            }
            Action::UploadPart { part_number, body, content_length, content_md5 } => {
                if self.fail_part == Some(part_number) {
                    return Some(Event::PartUploaded(Err("connection reset".to_string())));
                }
                self.uploaded.push((part_number, body, content_length, content_md5));
                Some(Event::PartUploaded(Ok(format!("etag-{}", part_number))))
            }
            Action::Complete => {
                if self.fail_completion {
                    return Some(Event::Completed(Err("invalid part order".to_string())));
                }
                self.completed_with = Some(
                    job.parts.iter().map(|p| (p.part_number, p.e_tag.clone())).collect(),
                );
                Some(Event::Completed(Ok(())))
            }
            Action::Abort => {
                self.aborts += 1;
                Some(Event::Aborted(Err("abort refused".to_string())))
            }
            Action::Report => None,
        }
    }

    fn run(&mut self, part_size: usize) -> Result<(), Error> {
        let uploader = Uploader::new("my-bucket", part_size);
        let file = File::new("/data".to_string(), "a/b.txt".to_string());
        let (mut job, mut action) = uploader.upload_file(file);
        let mut steps = 0;
        while let Some(event) = self.perform(&job, action) {
            action = job.step(event);
            steps += 1;
            assert!(steps < 1000);
        }
        assert!(job.is_finished());
        let result = job.into_result();
        assert_eq!(result.file.key, "a/b.txt");
        result.outcome
    }
}

#[test]
fn checksum_is_base64_of_md5() {
    assert_eq!(content_md5(&b"hello world".to_vec()), "XrY7u+Ae7tCTyyK7j1rNww==");
    assert_eq!(content_md5(&Vec::new()), "1B2M2Y8AsgTpgAmY7PhCfg==");
    assert_eq!(content_md5(&b"abc".to_vec()), "kAFQmDzST7DWlj99KOF/cg==");
}

#[test]
fn new_job_waits_for_its_session() {
    let job = job(16);
    assert_eq!(job.stage, Stage::Init);
    assert_eq!(job.bucket, "my-bucket");
    assert_eq!(job.file.key, "a/b.txt");
    assert_eq!(job.part_size, 16);
    assert!(job.parts.is_empty());
    assert!(job.error.is_none());
    assert!(!job.is_finished());
}

#[test]
fn file_of_three_part_sizes_is_uploaded_in_three_parts() {
    let part_size = 4;
    let data: Vec<u8> = (0u8..12).collect();
    let mut harness = Harness::new(data.clone());
    let outcome = harness.run(part_size);
    assert!(outcome.is_ok());
    assert_eq!(harness.sessions, 1);
    assert_eq!(harness.uploaded.len(), 3);
    for (i, (number, body, length, md5)) in harness.uploaded.iter().enumerate() {
        assert_eq!(*number, i as i64 + 1);
        assert_eq!(body.as_slice(), &data[i * 4..(i + 1) * 4]);
        assert_eq!(*length, 4);
        assert_eq!(*md5, content_md5(body));
    }
    assert_eq!(
        harness.completed_with,
        Some(vec![
            (1, "etag-1".to_string()),
            (2, "etag-2".to_string()),
            (3, "etag-3".to_string())
        ])
    );
    assert_eq!(harness.aborts, 0);
}

#[test]
fn short_final_chunk_is_a_part() {
    let mut harness = Harness::new((0u8..10).collect());
    assert!(harness.run(4).is_ok());
    let lengths: Vec<i64> = harness.uploaded.iter().map(|p| p.2).collect();
    assert_eq!(lengths, vec![4, 4, 2]);
    let numbers: Vec<i64> = harness.uploaded.iter().map(|p| p.0).collect();
    assert_eq!(numbers, vec![1, 2, 3]);
    assert_eq!(harness.completed_with.unwrap().len(), 3);
}

#[test]
fn small_file_is_one_part() {
    let mut harness = Harness::new(b"0123456789".to_vec());
    assert!(harness.run(100 * 1024 * 1024).is_ok());
    assert_eq!(harness.uploaded.len(), 1);
    assert_eq!(harness.uploaded[0].0, 1);
    assert_eq!(harness.uploaded[0].1, b"0123456789".to_vec());
    assert_eq!(harness.uploaded[0].2, 10);
    assert_eq!(harness.completed_with, Some(vec![(1, "etag-1".to_string())]));
}

#[test]
fn empty_file_is_completed_without_parts() {
    let mut harness = Harness::new(Vec::new());
    assert!(harness.run(4).is_ok());
    assert!(harness.uploaded.is_empty());
    assert_eq!(harness.completed_with, Some(vec![]));
}

#[test]
fn failed_part_aborts_and_names_the_part() {
    for k in 1..=3 {
        let mut harness = Harness::new((0u8..12).collect());
        harness.fail_part = Some(k);
        let outcome = harness.run(4);
        match outcome {
            Err(Error::UploadPart { part_number, error }) => {
                assert_eq!(part_number, k);
                assert_eq!(error, "connection reset");
            }
            other => panic!("unexpected outcome {:?}", other),
        }
        assert!(harness.completed_with.is_none());
        assert_eq!(harness.aborts, 1);
        assert_eq!(harness.uploaded.len() as i64, k - 1);
    }
}

#[test]
fn failed_part_moves_to_aborting_then_aborted() {
    let mut job = opened(4);
    let action = job.step(Event::ChunkRead(Ok(vec![1, 2, 3, 4])));
    assert!(matches!(action, Action::UploadPart { part_number: 1, .. }));
    assert_eq!(job.stage, Stage::PartsUploading);
    assert!(job.part_in_flight);
    let action = job.step(Event::PartUploaded(Err("boom".to_string())));
    assert!(matches!(action, Action::Abort));
    assert_eq!(job.stage, Stage::Aborting);
    let action = job.step(Event::Aborted(Ok(())));
    assert!(matches!(action, Action::Report));
    assert_eq!(job.stage, Stage::Aborted);
    let action = job.step(Event::ChunkRead(Ok(Vec::new())));
    assert!(matches!(action, Action::Report));
    assert_eq!(job.stage, Stage::Aborted);
    let result = job.into_result();
    assert!(matches!(result.outcome, Err(Error::UploadPart { part_number: 1, .. })));
}

#[test]
fn failed_session_ends_the_job_without_abort() {
    let mut job = job(4);
    let action = job.step(Event::SessionCreated(Err("access denied".to_string())));
    assert!(matches!(action, Action::Report));
    assert_eq!(job.stage, Stage::Failed);
    assert!(job.is_finished());
    let outcome = job.into_result().outcome;
    assert!(matches!(&outcome, Err(Error::CreateMultipartUpload(cause)) if cause == "access denied"));
    assert_eq!(outcome.unwrap_err().message(), "Failed to create multipart upload: access denied");
}

#[test]
fn session_without_identifier_ends_the_job() {
    let mut job = job(4);
    let action = job.step(Event::SessionCreated(Ok(None)));
    assert!(matches!(action, Action::Report));
    let outcome = job.into_result().outcome;
    assert!(matches!(&outcome, Err(Error::Generic(m)) if m == "Didn't get an upload_id"));
    assert_eq!(outcome.unwrap_err().message(), "Failed to upload file: Didn't get an upload_id");
}

#[test]
fn failed_read_aborts() {
    let mut job = opened(4);
    let action = job.step(Event::ChunkRead(Err("disk error".to_string())));
    assert!(matches!(action, Action::Abort));
    assert_eq!(job.stage, Stage::Aborting);
    assert!(matches!(job.step(Event::Aborted(Ok(()))), Action::Report));
    let outcome = job.into_result().outcome;
    assert!(matches!(&outcome, Err(Error::Read(cause)) if cause == "disk error"));
    assert_eq!(outcome.unwrap_err().message(), "Failed to read file: disk error");
}

#[test]
fn failed_completion_aborts_and_is_reported() {
    let mut harness = Harness::new((0u8..8).collect());
    harness.fail_completion = true;
    let outcome = harness.run(4);
    assert!(
        matches!(&outcome, Err(Error::CompleteMultipartUpload(cause)) if cause == "invalid part order")
    );
    assert_eq!(
        outcome.unwrap_err().message(),
        "Failed to complete multipart upload: invalid part order"
    );
    assert_eq!(harness.aborts, 1);
    assert_eq!(harness.uploaded.len(), 2);
}

#[test]
fn failed_abort_does_not_replace_the_error() {
    let mut job = opened(4);
    job.step(Event::ChunkRead(Ok(vec![9; 4])));
    job.step(Event::PartUploaded(Err("first failure".to_string())));
    let action = job.step(Event::Aborted(Err("abort failed too".to_string())));
    assert!(matches!(action, Action::Report));
    let outcome = job.into_result().outcome;
    match outcome {
        Err(error @ Error::UploadPart { .. }) => {
            assert_eq!(error.message(), "Failed to upload part 1: first failure")
        }
        other => panic!("unexpected outcome {:?}", other),
    }
}

#[test]
fn event_out_of_turn_gives_the_upload_up() {
    let mut job = job(4);
    let action = job.step(Event::ChunkRead(Ok(vec![1])));
    assert!(matches!(action, Action::Report));
    assert_eq!(job.stage, Stage::Failed);
    assert!(
        matches!(&job.error, Some(Error::Generic(m)) if m == "Unexpected event for the upload's stage")
    );

    let mut job = opened(4);
    let action = job.step(Event::Completed(Ok(())));
    assert!(matches!(action, Action::Abort));
    assert_eq!(job.stage, Stage::Aborting);

    let mut job = opened(4);
    job.step(Event::ChunkRead(Ok(vec![1])));
    let action = job.step(Event::ChunkRead(Ok(vec![2])));
    assert!(matches!(action, Action::Abort));
    assert!(job.parts.is_empty());
}

#[test]
fn finished_job_stays_as_it_is() {
    let mut job = opened(4);
    assert!(matches!(job.step(Event::ChunkRead(Ok(Vec::new()))), Action::Complete));
    assert_eq!(job.stage, Stage::Completing);
    assert!(matches!(job.step(Event::Completed(Ok(()))), Action::Report));
    assert_eq!(job.stage, Stage::Done);
    assert!(matches!(job.step(Event::PartUploaded(Err("late".to_string()))), Action::Report));
    assert_eq!(job.stage, Stage::Done);
    assert!(job.error.is_none());
    assert!(job.into_result().outcome.is_ok());
}

#[test]
fn abandoned_job_reports_that_it_did_not_finish() {
    let job = opened(4);
    assert!(!job.is_finished());
    let outcome = job.into_result().outcome;
    assert!(matches!(&outcome, Err(Error::Generic(m)) if m == "Upload did not finish"));
}

#[test]
fn handlers_can_be_called_one_by_one() {
    let mut job = job(2);
    assert!(matches!(
        job.create_multipart_upload(Ok(Some("id".to_string()))),
        Action::ReadChunk { max_len: 2 }
    ));
    assert_eq!(job.upload_id, "id");
    assert_eq!(job.stage, Stage::SessionOpen);
    match job.upload_file_parts(Ok(vec![7, 8])) {
        Action::UploadPart { part_number, body, content_length, content_md5: md5 } => {
            assert_eq!(part_number, 1);
            assert_eq!(body, vec![7, 8]);
            assert_eq!(content_length, 2);
            assert_eq!(md5, content_md5(&vec![7, 8]));
        }
        other => panic!("unexpected action {:?}", other),
    }
    assert!(matches!(job.upload_part(Ok("tag".to_string())), Action::ReadChunk { max_len: 2 }));
    let parts: Vec<(i64, &str)> =
        job.parts.iter().map(|p: &CompletedPart| (p.part_number, p.e_tag.as_str())).collect();
    assert_eq!(parts, vec![(1, "tag")]);
    assert!(matches!(job.upload_file_parts(Ok(Vec::new())), Action::Complete));
    assert!(matches!(job.complete_multipart_upload(Err("no".to_string())), Action::Abort));
    assert!(matches!(job.abort_multipart_upload(Ok(())), Action::Report));
    assert_eq!(job.stage, Stage::Aborted);
}
