use std::collections::HashMap;

use share_rs::chunk_upload::{upload_chunk, ChunkStage};
use share_rs::complete::{complete_upload, CompleteStage};
use share_rs::digest::compute_file_hash;
use share_rs::host::{Action, Event};
use share_rs::init::{init_upload, Cleanup, InitStage};
use share_rs::paths::get_available_filename;
use share_rs::protocol::{
    CompleteUploadRequest, InitUploadRequest, InitUploadResponse, Metadata, Reply, UploadError,
};
use share_rs::records::{Chunk, UploadItem, UploadStatus};
use share_rs::setting::Settings;

/// A host that keeps everything in memory and never fails.
struct Host {
    uploads: Vec<UploadItem>,
    chunks: Vec<Chunk>,
    files: HashMap<String, Vec<u8>>,
    next_chunk_id: i32,
    log: Vec<String>,
}

impl Host {
    fn new() -> Host {
        Host {
            uploads: Vec::new(),
            chunks: Vec::new(),
            files: HashMap::new(),
            next_chunk_id: 1,
            log: Vec::new(),
        }
    }

    fn perform(&mut self, action: Action, body: &[u8]) -> Event {
        self.log.push(format!("{:?}", action));
        match action {
            Action::GetUploadItem { upload_id } => {
                Event::UploadItem(self.uploads.iter().find(|u| u.id == upload_id).cloned())
            }
            Action::InsertUploadItem { item } => {
                if self
                    .uploads
                    .iter()
                    .any(|u| u.id == item.id || u.file_path == item.file_path)
                {
                    Event::Duplicate
                } else {
                    self.uploads.push(item);
                    Event::Done
                }
            }
            Action::UpdateUploadItem { item } => {
                if self
                    .uploads
                    .iter()
                    .any(|u| u.id != item.id && u.file_path == item.file_path)
                {
                    return Event::Failed;
                }
                match self.uploads.iter_mut().find(|u| u.id == item.id) {
                    Some(slot) => {
                        *slot = item;
                        Event::Done
                    }
                    None => Event::Failed,
                }
            }
            Action::DeleteUploadItem { upload_id } => {
                self.chunks.retain(|c| c.upload_id != upload_id);
                self.uploads.retain(|u| u.id != upload_id);
                Event::Done
            }
            Action::GetUploadChunks { upload_id } => Event::Chunks(
                self.chunks
                    .iter()
                    .filter(|c| c.upload_id == upload_id)
                    .cloned()
                    .collect(),
            ),
            Action::GetChunkByNumber {
                upload_id,
                chunk_number,
            } => Event::Chunk(
                self.chunks
                    .iter()
                    .find(|c| c.upload_id == upload_id && c.chunk_number == chunk_number)
                    .cloned(),
            ),
            Action::InsertChunk { chunk } => {
                if self
                    .chunks
                    .iter()
                    .any(|c| c.upload_id == chunk.upload_id && c.chunk_number == chunk.chunk_number)
                {
                    Event::Duplicate
                } else if !self.uploads.iter().any(|u| u.id == chunk.upload_id) {
                    Event::Failed
                } else {
                    let mut chunk = chunk;
                    chunk.id = self.next_chunk_id;
                    self.next_chunk_id += 1;
                    self.chunks.push(chunk);
                    Event::Done
                }
            }
            Action::DeleteChunkById { chunk_id } => {
                self.chunks.retain(|c| c.id != chunk_id);
                Event::Done
            }
            Action::HashFile { path } => {
                Event::FileHash(self.files.get(&path).map(|data| compute_file_hash(data)))
            }
            Action::DeleteFileIfExists { path } => {
                self.files.remove(&path);
                Event::Done
            }
            Action::CreateDirAll { path: _ } => Event::Done,
            Action::SaveChunk { path } => {
                self.files.insert(path, body.to_vec());
                Event::Saved(body.len() as u64)
            }
            Action::CreateFile { path } => {
                self.files.insert(path, Vec::new());
                Event::Done
            }
            Action::AppendFile { source, target } => match self.files.get(&source).cloned() {
                Some(data) => match self.files.get_mut(&target) {
                    Some(out) => {
                        out.extend_from_slice(&data);
                        Event::Appended(Some(data.len() as u64))
                    }
                    None => Event::Failed,
                },
                None => Event::Appended(None),
            },
            Action::RemoveDirAll { path } => {
                let prefix = format!("{}/", path);
                self.files.retain(|p, _| !p.starts_with(&prefix));
                Event::Done
            }
            Action::FindAvailableFilename { path } => {
                let mut attempt = 0;
                loop {
                    let candidate = get_available_filename(&path, attempt);
                    if !self.files.contains_key(&candidate) {
                        return Event::Filename(candidate);
                    }
                    attempt += 1;
                }
            }
            Action::Respond(_) => Event::Failed,
        }
    }

    fn init(&mut self, settings: &Settings, info: &InitUploadRequest) -> Reply {
        let (mut stage, mut action) =
            init_upload(settings, info, 1_700_000_000, InitStage::Received, Event::Start);
        loop {
            match action {
                Action::Respond(reply) => return reply,
                other => {
                    let event = self.perform(other, &[]);
                    let next = init_upload(settings, info, 1_700_000_000, stage, event);
                    stage = next.0;
                    action = next.1;
                }
            }
        }
    }

    fn chunk(&mut self, settings: &Settings, form: &Metadata, body: &[u8]) -> Reply {
        let (mut stage, mut action) =
            upload_chunk(settings, form, ChunkStage::Received, Event::Start);
        loop {
            match action {
                Action::Respond(reply) => return reply,
                other => {
                    let event = self.perform(other, body);
                    let next = upload_chunk(settings, form, stage, event);
                    stage = next.0;
                    action = next.1;
                }
            }
        }
    }

    fn complete(&mut self, settings: &Settings, file_id: &str) -> Reply {
        let info = CompleteUploadRequest {
            file_id: file_id.to_string(),
        };
        let (mut stage, mut action) =
            complete_upload(settings, &info, CompleteStage::Received, Event::Start);
        loop {
            match action {
                Action::Respond(reply) => return reply,
                other => {
                    let event = self.perform(other, &[]);
                    let next = complete_upload(settings, &info, stage, event);
                    stage = next.0;
                    action = next.1;
                }
            }
        }
    }

    fn status_of(&self, id: &str) -> Option<String> {
        self.uploads
            .iter()
            .find(|u| u.id == id)
            .map(|u| u.status.clone())
    }

    fn records_of(&self, id: &str, number: i32) -> usize {
        self.chunks
            .iter()
            .filter(|c| c.upload_id == id && c.chunk_number == number)
            .count()
    }
}

fn settings() -> Settings {
    Settings {
        port: 12345,
        storage_folder: "/store".to_string(),
    }
}

fn request(name: &str, content: &[u8]) -> InitUploadRequest {
    InitUploadRequest {
        file_name: name.to_string(),
        file_size: content.len() as i64,
        file_hash: compute_file_hash(content),
    }
}

fn form(file_id: &str, number: i32, bytes: &[u8]) -> Metadata {
    Metadata {
        file_id: file_id.to_string(),
        chunk_number: number,
        chunk_hash: compute_file_hash(bytes),
    }
}

fn expect_init(reply: Reply) -> InitUploadResponse {
    match reply {
        Reply::Init(response) => response,
        other => panic!("expected the state of the session, got {:?}", other),
    }
}

fn expect_rejected(reply: Reply, error: UploadError, message: &str) {
    match reply {
        Reply::Rejected {
            error: got,
            message: text,
        } => {
            assert_eq!(got, error);
            assert_eq!(text, message);
        }
        other => panic!("expected a rejection, got {:?}", other),
    }
}

fn block(len: usize, seed: u8) -> Vec<u8> {
    (0..len).map(|i| (i as u8).wrapping_mul(31).wrapping_add(seed)).collect()
}

#[test]
fn init_creates_a_session_where_there_is_none() {
    let mut host = Host::new();
    let info = request("a.txt", b"abcdef");
    let response = expect_init(host.init(&settings(), &info));
    assert_eq!(response.file_id, info.file_hash);
    assert_eq!(response.status, UploadStatus::Uploading);
    assert_eq!(response.uploaded_chunks, Vec::<i32>::new());
    assert_eq!(response.uploaded_size, 0);
    assert_eq!(host.uploads.len(), 1);
    let item = &host.uploads[0];
    assert_eq!(item.id, info.file_hash);
    assert_eq!(item.file_name, "a.txt");
    assert_eq!(item.file_size, 6);
    assert_eq!(item.file_path, "/store/a.txt");
    assert_eq!(item.status, "Uploading");
    assert_eq!(item.created_at, 1_700_000_000);
}

#[test]
fn init_picks_a_name_that_is_not_taken() {
    let mut host = Host::new();
    host.files.insert("/store/a.txt".to_string(), b"other".to_vec());
    host.files.insert("/store/a(1).txt".to_string(), b"other".to_vec());
    let info = request("a.txt", b"abcdef");
    expect_init(host.init(&settings(), &info));
    assert_eq!(host.uploads[0].file_path, "/store/a(2).txt");
}

#[test]
fn end_to_end_upload_of_two_chunks() {
    let mut host = Host::new();
    let info = request("letters.txt", b"abcdef");
    let id = info.file_hash.clone();
    assert_eq!(
        id,
        "bef57ec7f53a6d40beb640a780a639c83bc29ac8a9816f1fc6c5c6dcd93c4721"
    );
    let response = expect_init(host.init(&settings(), &info));
    assert_eq!(response.status, UploadStatus::Uploading);
    assert!(response.uploaded_chunks.is_empty());

    assert!(matches!(
        host.chunk(&settings(), &form(&id, 1, b"abc"), b"abc"),
        Reply::ChunkUploaded
    ));
    assert!(matches!(
        host.chunk(&settings(), &form(&id, 2, b"def"), b"def"),
        Reply::ChunkUploaded
    ));
    assert_eq!(
        host.files.get(&format!("/store/{}/chunk_1", id)).unwrap(),
        b"abc"
    );
    assert_eq!(
        host.files.get(&format!("/store/{}/chunk_2", id)).unwrap(),
        b"def"
    );

    match host.complete(&settings(), &id) {
        Reply::UploadCompleted { file_path } => assert_eq!(file_path, "/store/letters.txt"),
        other => panic!("expected success, got {:?}", other),
    }
    assert_eq!(host.files.get("/store/letters.txt").unwrap(), b"abcdef");
    assert_eq!(host.status_of(&id).unwrap(), "Completed");
    assert!(!host.files.contains_key(&format!("/store/{}/chunk_1", id)));
    assert!(!host.files.contains_key(&format!("/store/{}/chunk_2", id)));
}

#[test]
fn complete_fails_where_the_digest_of_the_file_is_not_the_id() {
    let mut host = Host::new();
    let mut info = request("letters.txt", b"abcdef");
    info.file_hash = compute_file_hash(b"something else");
    let id = info.file_hash.clone();
    expect_init(host.init(&settings(), &info));
    host.chunk(&settings(), &form(&id, 1, b"abc"), b"abc");
    host.chunk(&settings(), &form(&id, 2, b"def"), b"def");
    expect_rejected(
        host.complete(&settings(), &id),
        UploadError::IntegrityFailure,
        "Failed to merge chunks",
    );
    assert_eq!(host.status_of(&id).unwrap(), "Uploading");
    assert_eq!(host.files.get("/store/letters.txt").unwrap(), b"abcdef");
    assert!(host.files.contains_key(&format!("/store/{}/chunk_1", id)));
}

#[test]
fn uploading_a_chunk_twice_keeps_one_record() {
    let mut host = Host::new();
    let info = request("a.bin", b"abcdef");
    let id = info.file_hash.clone();
    expect_init(host.init(&settings(), &info));
    let first = host.chunk(&settings(), &form(&id, 1, b"abc"), b"abc");
    assert!(matches!(first, Reply::ChunkUploaded));
    let writes_before = host.log.iter().filter(|a| a.starts_with("SaveChunk")).count();
    let second = host.chunk(&settings(), &form(&id, 1, b"abc"), b"abc");
    assert!(matches!(second, Reply::ChunkAlreadyUploaded));
    assert_eq!(second.status_code(), 200);
    assert_eq!(second.text(), "Chunk already uploaded");
    let writes_after = host.log.iter().filter(|a| a.starts_with("SaveChunk")).count();
    assert_eq!(writes_before, writes_after);
    assert_eq!(host.records_of(&id, 1), 1);
    assert_eq!(host.chunks[0].chunk_size, 3);
    assert_eq!(host.chunks[0].chunk_hash, compute_file_hash(b"abc"));
}

#[test]
fn init_resumes_with_the_valid_chunks_and_removes_the_corrupted_one() {
    let mut host = Host::new();
    let content = block(30, 1);
    let info = request("r.bin", &content);
    let id = info.file_hash.clone();
    expect_init(host.init(&settings(), &info));
    // sent out of order
    host.chunk(&settings(), &form(&id, 2, &content[10..20]), &content[10..20]);
    host.chunk(&settings(), &form(&id, 3, &content[20..30]), &content[20..30]);
    host.chunk(&settings(), &form(&id, 1, &content[0..10]), &content[0..10]);
    host.files
        .insert(format!("/store/{}/chunk_3", id), b"tampered!!".to_vec());

    let response = expect_init(host.init(&settings(), &info));
    assert_eq!(response.file_id, id);
    assert_eq!(response.status, UploadStatus::Uploading);
    assert_eq!(response.uploaded_chunks, vec![1, 2]);
    assert_eq!(response.uploaded_size, 20);
    assert_eq!(host.records_of(&id, 3), 0);
    assert!(!host.files.contains_key(&format!("/store/{}/chunk_3", id)));
    assert_eq!(host.records_of(&id, 1), 1);
    assert_eq!(host.records_of(&id, 2), 1);
    assert!(host.files.contains_key(&format!("/store/{}/chunk_1", id)));
}

#[test]
fn init_removes_the_record_of_a_chunk_whose_file_is_gone() {
    let mut host = Host::new();
    let content = block(20, 2);
    let info = request("r.bin", &content);
    let id = info.file_hash.clone();
    expect_init(host.init(&settings(), &info));
    host.chunk(&settings(), &form(&id, 1, &content[0..10]), &content[0..10]);
    host.chunk(&settings(), &form(&id, 2, &content[10..20]), &content[10..20]);
    host.files.remove(&format!("/store/{}/chunk_1", id));
    let response = expect_init(host.init(&settings(), &info));
    assert_eq!(response.uploaded_chunks, vec![2]);
    assert_eq!(response.uploaded_size, 10);
    assert_eq!(host.records_of(&id, 1), 0);
}

#[test]
fn merge_joins_the_chunks_in_the_order_of_their_numbers() {
    let orders: [[i32; 3]; 3] = [[1, 2, 3], [3, 1, 2], [2, 3, 1]];
    for order in orders {
        let mut host = Host::new();
        let content = block(3000, 7);
        let info = request("big.bin", &content);
        let id = info.file_hash.clone();
        expect_init(host.init(&settings(), &info));
        for number in order {
            let from = (number as usize - 1) * 1000;
            let bytes = &content[from..from + 1000];
            assert!(matches!(
                host.chunk(&settings(), &form(&id, number, bytes), bytes),
                Reply::ChunkUploaded
            ));
        }
        let reply = host.complete(&settings(), &id);
        assert_eq!(reply.status_code(), 200);
        assert_eq!(reply.text(), "File uploaded and verified successfully");
        let merged = host.files.get("/store/big.bin").unwrap();
        assert_eq!(merged.len(), 3000);
        assert_eq!(merged, &content);
        let appended: Vec<&String> = host
            .log
            .iter()
            .filter(|a| a.starts_with("AppendFile"))
            .collect();
        assert_eq!(appended.len(), 3);
        assert!(appended[0].contains("chunk_1"));
        assert!(appended[1].contains("chunk_2"));
        assert!(appended[2].contains("chunk_3"));
    }
}

#[test]
fn merge_fails_where_the_chunks_fall_short_of_the_declared_size() {
    let mut host = Host::new();
    let content = block(3000, 9);
    let info = request("short.bin", &content);
    let id = info.file_hash.clone();
    expect_init(host.init(&settings(), &info));
    host.chunk(&settings(), &form(&id, 1, &content[0..1000]), &content[0..1000]);
    host.chunk(&settings(), &form(&id, 2, &content[1000..2000]), &content[1000..2000]);
    let reply = host.complete(&settings(), &id);
    assert_eq!(reply.status_code(), 500);
    expect_rejected(reply, UploadError::SizeMismatch, "Failed to merge chunks");
    assert_eq!(host.status_of(&id).unwrap(), "Uploading");
    assert!(!host.files.contains_key("/store/short.bin"));
    assert!(host.log.iter().all(|a| !a.starts_with("CreateFile")));
    // the missing chunk can still be sent, and the upload completed
    host.chunk(&settings(), &form(&id, 3, &content[2000..3000]), &content[2000..3000]);
    assert!(matches!(
        host.complete(&settings(), &id),
        Reply::UploadCompleted { .. }
    ));
    assert_eq!(host.files.get("/store/short.bin").unwrap(), &content);
}

#[test]
fn merge_fails_where_a_chunk_file_is_missing() {
    let mut host = Host::new();
    let content = block(20, 3);
    let info = request("m.bin", &content);
    let id = info.file_hash.clone();
    expect_init(host.init(&settings(), &info));
    host.chunk(&settings(), &form(&id, 1, &content[0..10]), &content[0..10]);
    host.chunk(&settings(), &form(&id, 2, &content[10..20]), &content[10..20]);
    host.files.remove(&format!("/store/{}/chunk_2", id));
    expect_rejected(
        host.complete(&settings(), &id),
        UploadError::ChunkMissing,
        "Failed to merge chunks",
    );
    assert_eq!(host.status_of(&id).unwrap(), "Uploading");
}

#[test]
fn merge_fails_where_a_chunk_file_is_longer_than_on_record() {
    let mut host = Host::new();
    let content = block(20, 4);
    let info = request("m.bin", &content);
    let id = info.file_hash.clone();
    expect_init(host.init(&settings(), &info));
    host.chunk(&settings(), &form(&id, 1, &content[0..10]), &content[0..10]);
    host.chunk(&settings(), &form(&id, 2, &content[10..20]), &content[10..20]);
    host.files
        .insert(format!("/store/{}/chunk_2", id), block(11, 5));
    expect_rejected(
        host.complete(&settings(), &id),
        UploadError::SizeMismatch,
        "Failed to merge chunks",
    );
    assert_eq!(host.status_of(&id).unwrap(), "Uploading");
}

#[test]
fn merge_fails_where_a_chunk_file_is_shorter_than_on_record() {
    let mut host = Host::new();
    let content = block(20, 4);
    let info = request("m.bin", &content);
    let id = info.file_hash.clone();
    expect_init(host.init(&settings(), &info));
    host.chunk(&settings(), &form(&id, 1, &content[0..10]), &content[0..10]);
    host.chunk(&settings(), &form(&id, 2, &content[10..20]), &content[10..20]);
    host.files
        .insert(format!("/store/{}/chunk_2", id), block(9, 5));
    expect_rejected(
        host.complete(&settings(), &id),
        UploadError::SizeMismatch,
        "Failed to merge chunks",
    );
}

#[test]
fn complete_of_an_unknown_session_is_not_found() {
    let mut host = Host::new();
    let reply = host.complete(&settings(), "nothing");
    assert_eq!(reply.status_code(), 404);
    expect_rejected(reply, UploadError::NotFound, "File not found");
}

#[test]
fn chunk_without_id_or_number_is_a_bad_request() {
    let mut host = Host::new();
    let reply = host.chunk(&settings(), &form("", 1, b"abc"), b"abc");
    assert_eq!(reply.status_code(), 400);
    expect_rejected(
        reply,
        UploadError::BadRequest,
        "Missing or invalid required fields",
    );
    expect_rejected(
        host.chunk(&settings(), &form("abc", 0, b"abc"), b"abc"),
        UploadError::BadRequest,
        "Missing or invalid required fields",
    );
    expect_rejected(
        host.chunk(&settings(), &form("abc", -4, b"abc"), b"abc"),
        UploadError::BadRequest,
        "Missing or invalid required fields",
    );
    assert!(host.log.is_empty());
}

#[test]
fn chunk_of_an_unknown_session_is_not_found() {
    let mut host = Host::new();
    let reply = host.chunk(&settings(), &form("abc", 1, b"abc"), b"abc");
    assert_eq!(reply.status_code(), 404);
    expect_rejected(reply, UploadError::NotFound, "Upload item not found");
    assert!(host.files.is_empty());
}

#[test]
fn chunk_of_a_completed_session_is_a_bad_request() {
    let mut host = Host::new();
    let info = request("c.bin", b"abc");
    let id = info.file_hash.clone();
    expect_init(host.init(&settings(), &info));
    host.chunk(&settings(), &form(&id, 1, b"abc"), b"abc");
    assert!(matches!(
        host.complete(&settings(), &id),
        Reply::UploadCompleted { .. }
    ));
    expect_rejected(
        host.chunk(&settings(), &form(&id, 2, b"def"), b"def"),
        UploadError::BadRequest,
        "File already completed",
    );
}

#[test]
fn chunk_with_a_wrong_digest_leaves_nothing_behind() {
    let mut host = Host::new();
    let info = request("c.bin", b"abcdef");
    let id = info.file_hash.clone();
    expect_init(host.init(&settings(), &info));
    let reply = host.chunk(&settings(), &form(&id, 1, b"abc"), b"abd");
    assert_eq!(reply.status_code(), 400);
    expect_rejected(
        reply,
        UploadError::BadRequest,
        "Chunk hash verification failed",
    );
    assert!(!host.files.contains_key(&format!("/store/{}/chunk_1", id)));
    assert_eq!(host.records_of(&id, 1), 0);
}

#[test]
fn chunk_replaces_a_record_whose_file_was_tampered_with() {
    let mut host = Host::new();
    let info = request("c.bin", b"abcdef");
    let id = info.file_hash.clone();
    expect_init(host.init(&settings(), &info));
    host.chunk(&settings(), &form(&id, 1, b"abc"), b"abc");
    let old_id = host.chunks[0].id;
    host.files
        .insert(format!("/store/{}/chunk_1", id), b"xyz".to_vec());
    let reply = host.chunk(&settings(), &form(&id, 1, b"abc"), b"abc");
    assert!(matches!(reply, Reply::ChunkUploaded));
    assert_eq!(host.records_of(&id, 1), 1);
    assert!(host.chunks[0].id != old_id);
    assert_eq!(
        host.files.get(&format!("/store/{}/chunk_1", id)).unwrap(),
        b"abc"
    );
}

#[test]
fn init_of_a_completed_session_with_its_file_is_completed() {
    let mut host = Host::new();
    let info = request("c.bin", b"abc");
    let id = info.file_hash.clone();
    expect_init(host.init(&settings(), &info));
    host.chunk(&settings(), &form(&id, 1, b"abc"), b"abc");
    host.complete(&settings(), &id);
    let response = expect_init(host.init(&settings(), &info));
    assert_eq!(response.file_id, id);
    assert_eq!(response.status, UploadStatus::Completed);
    assert!(response.uploaded_chunks.is_empty());
    assert_eq!(response.uploaded_size, 3);
}

#[test]
fn init_of_a_completed_session_without_its_file_starts_again() {
    let mut host = Host::new();
    let info = request("c.bin", b"abc");
    let id = info.file_hash.clone();
    expect_init(host.init(&settings(), &info));
    host.chunk(&settings(), &form(&id, 1, b"abc"), b"abc");
    host.complete(&settings(), &id);
    host.files.insert("/store/c.bin".to_string(), b"abX".to_vec());
    let response = expect_init(host.init(&settings(), &info));
    assert_eq!(response.status, UploadStatus::Uploading);
    assert!(response.uploaded_chunks.is_empty());
    assert_eq!(response.uploaded_size, 0);
    assert_eq!(host.uploads.len(), 1);
    assert_eq!(host.uploads[0].status, "Uploading");
    assert_eq!(host.uploads[0].file_path, "/store/c(1).bin");
    assert!(host.chunks.is_empty());
}

#[test]
fn init_of_a_session_with_an_unknown_status_fails() {
    let mut host = Host::new();
    let info = request("c.bin", b"abc");
    host.uploads.push(UploadItem {
        id: info.file_hash.clone(),
        file_name: "c.bin".to_string(),
        file_size: 3,
        file_path: "/store/c.bin".to_string(),
        status: "Paused".to_string(),
        created_at: 0,
    });
    let reply = host.init(&settings(), &info);
    assert_eq!(reply.status_code(), 500);
    expect_rejected(reply, UploadError::RepositoryError, "Invalid upload status");
}

#[test]
fn uploads_of_two_chunks_taken_in_turns_keep_their_own_bytes() {
    let mut host = Host::new();
    let info = request("t.bin", b"abcdef");
    let id = info.file_hash.clone();
    expect_init(host.init(&settings(), &info));
    let first = form(&id, 1, b"abc");
    let second = form(&id, 2, b"def");
    let config = settings();
    let (mut stage_a, mut action_a) =
        upload_chunk(&config, &first, ChunkStage::Received, Event::Start);
    let (mut stage_b, mut action_b) =
        upload_chunk(&config, &second, ChunkStage::Received, Event::Start);
    let mut reply_a = None;
    let mut reply_b = None;
    while reply_a.is_none() || reply_b.is_none() {
        if reply_a.is_none() {
            match action_a {
                Action::Respond(reply) => {
                    reply_a = Some(reply);
                    action_a = Action::CreateDirAll { path: String::new() };
                }
                other => {
                    let event = host.perform(other, b"abc");
                    let next = upload_chunk(&config, &first, stage_a, event);
                    stage_a = next.0;
                    action_a = next.1;
                }
            }
        }
        if reply_b.is_none() {
            match action_b {
                Action::Respond(reply) => {
                    reply_b = Some(reply);
                    action_b = Action::CreateDirAll { path: String::new() };
                }
                other => {
                    let event = host.perform(other, b"def");
                    let next = upload_chunk(&config, &second, stage_b, event);
                    stage_b = next.0;
                    action_b = next.1;
                }
            }
        }
    }
    assert!(matches!(reply_a, Some(Reply::ChunkUploaded)));
    assert!(matches!(reply_b, Some(Reply::ChunkUploaded)));
    assert_eq!(
        host.files.get(&format!("/store/{}/chunk_1", id)).unwrap(),
        b"abc"
    );
    assert_eq!(
        host.files.get(&format!("/store/{}/chunk_2", id)).unwrap(),
        b"def"
    );
    assert_eq!(host.records_of(&id, 1), 1);
    assert_eq!(host.records_of(&id, 2), 1);
}

#[test]
fn failures_of_the_host_end_the_upload_of_a_chunk() {
    let config = settings();
    let meta = form("abc", 1, b"abc");
    let (stage, action) = upload_chunk(&config, &meta, ChunkStage::Received, Event::Start);
    assert!(matches!(action, Action::GetUploadItem { ref upload_id } if upload_id == "abc"));
    let (_, action) = upload_chunk(&config, &meta, stage, Event::Failed);
    match action {
        Action::Respond(reply) => {
            assert_eq!(reply.status_code(), 500);
            expect_rejected(
                reply,
                UploadError::RepositoryError,
                "Failed to query upload item",
            );
        }
        other => panic!("expected an answer, got {:?}", other),
    }

    let (stage, action) = upload_chunk(&config, &meta, ChunkStage::SavingChunk, Event::Failed);
    assert!(matches!(stage, ChunkStage::DiscardingChunk { .. }));
    assert!(
        matches!(action, Action::DeleteFileIfExists { ref path } if path == "/store/abc/chunk_1")
    );
    let (_, action) = upload_chunk(&config, &meta, stage, Event::Done);
    match action {
        Action::Respond(reply) => {
            expect_rejected(reply, UploadError::IoError, "Failed to save chunk")
        }
        other => panic!("expected an answer, got {:?}", other),
    }

    let (stage, _) = upload_chunk(&config, &meta, ChunkStage::RecordingChunk, Event::Failed);
    let (_, action) = upload_chunk(&config, &meta, stage, Event::Done);
    match action {
        Action::Respond(reply) => {
            expect_rejected(reply, UploadError::RepositoryError, "Failed to insert chunk")
        }
        other => panic!("expected an answer, got {:?}", other),
    }

    let (_, action) = upload_chunk(&config, &meta, ChunkStage::RecordingChunk, Event::Duplicate);
    assert!(matches!(
        action,
        Action::Respond(Reply::ChunkAlreadyUploaded)
    ));
    let (_, action) = upload_chunk(&config, &meta, ChunkStage::Finished, Event::Done);
    match action {
        Action::Respond(reply) => {
            expect_rejected(reply, UploadError::BadRequest, "No request in progress")
        }
        other => panic!("expected an answer, got {:?}", other),
    }
}

#[test]
fn failures_of_the_host_end_the_completion() {
    let config = settings();
    let info = CompleteUploadRequest {
        file_id: "abc".to_string(),
    };
    let (_, action) = complete_upload(&config, &info, CompleteStage::FindingUpload, Event::Failed);
    match action {
        Action::Respond(reply) => expect_rejected(
            reply,
            UploadError::RepositoryError,
            "Failed to query file metadata",
        ),
        other => panic!("expected an answer, got {:?}", other),
    }
    let item = UploadItem {
        id: "abc".to_string(),
        file_name: "f".to_string(),
        file_size: 0,
        file_path: "/store/f".to_string(),
        status: "Uploading".to_string(),
        created_at: 0,
    };
    let (_, action) = complete_upload(
        &config,
        &info,
        CompleteStage::MarkingCompleted { item: item.clone() },
        Event::Failed,
    );
    match action {
        Action::Respond(reply) => expect_rejected(
            reply,
            UploadError::RepositoryError,
            "Failed to update upload item status",
        ),
        other => panic!("expected an answer, got {:?}", other),
    }
    // that the chunk directory cannot be removed does not change the answer
    let (_, action) = complete_upload(
        &config,
        &info,
        CompleteStage::RemovingChunks { item },
        Event::Failed,
    );
    assert!(
        matches!(action, Action::Respond(Reply::UploadCompleted { ref file_path }) if file_path == "/store/f")
    );
}

#[test]
fn an_empty_file_is_completed_without_chunks() {
    let mut host = Host::new();
    let info = request("empty.bin", b"");
    let id = info.file_hash.clone();
    assert_eq!(
        id,
        "e3b0c44298fc1c149afbf4c8996fb92427ae41e4649b934ca495991b7852b855"
    );
    expect_init(host.init(&settings(), &info));
    assert!(matches!(
        host.complete(&settings(), &id),
        Reply::UploadCompleted { .. }
    ));
    assert_eq!(host.files.get("/store/empty.bin").unwrap().len(), 0);
}

fn answer_of(action: Action) -> Reply {
    match action {
        Action::Respond(reply) => reply,
        other => panic!("expected an answer, got {:?}", other),
    }
}

#[test]
fn failures_of_the_host_end_the_start_of_an_upload() {
    let config = settings();
    let info = request("f.bin", b"abc");
    let item = UploadItem {
        id: info.file_hash.clone(),
        file_name: "f.bin".to_string(),
        file_size: 3,
        file_path: "/store/f.bin".to_string(),
        status: "Uploading".to_string(),
        created_at: 0,
    };
    let step = |stage: InitStage, event: Event| init_upload(&config, &info, 5, stage, event);

    let (stage, action) = step(InitStage::Received, Event::Start);
    assert!(matches!(stage, InitStage::FindingUpload));
    assert!(
        matches!(action, Action::GetUploadItem { ref upload_id } if *upload_id == info.file_hash)
    );
    expect_rejected(
        answer_of(step(InitStage::FindingUpload, Event::Failed).1),
        UploadError::RepositoryError,
        "Failed to query uploads",
    );
    let (stage, action) = step(InitStage::FindingUpload, Event::UploadItem(None));
    assert!(matches!(stage, InitStage::FindingFilename));
    assert!(
        matches!(action, Action::FindAvailableFilename { ref path } if path == "/store/f.bin")
    );
    expect_rejected(
        answer_of(step(InitStage::FindingFilename, Event::Failed).1),
        UploadError::IoError,
        "Failed to get available filename",
    );
    let (stage, action) = step(
        InitStage::FindingFilename,
        Event::Filename("/store/f(3).bin".to_string()),
    );
    assert!(matches!(stage, InitStage::InsertingUpload));
    match action {
        Action::InsertUploadItem { item } => {
            assert_eq!(item.id, info.file_hash);
            assert_eq!(item.file_name, "f.bin");
            assert_eq!(item.file_size, 3);
            assert_eq!(item.file_path, "/store/f(3).bin");
            assert_eq!(item.status, "Uploading");
            assert_eq!(item.created_at, 5);
        }
        other => panic!("expected an insert, got {:?}", other),
    }
    expect_rejected(
        answer_of(step(InitStage::InsertingUpload, Event::Duplicate).1),
        UploadError::RepositoryError,
        "Failed to insert upload item",
    );
    expect_rejected(
        answer_of(
            step(
                InitStage::CheckingCompleted { item: item.clone() },
                Event::Failed,
            )
            .1,
        ),
        UploadError::IoError,
        "Failed to check file status",
    );
    expect_rejected(
        answer_of(step(InitStage::DeletingInvalid, Event::Failed).1),
        UploadError::RepositoryError,
        "Failed to delete invalid upload item",
    );
    expect_rejected(
        answer_of(step(InitStage::ListingChunks { item: item.clone() }, Event::Failed).1),
        UploadError::RepositoryError,
        "Failed to query chunks",
    );
    let cleanup = || Cleanup {
        item: item.clone(),
        chunks: vec![Chunk {
            id: 9,
            upload_id: info.file_hash.clone(),
            chunk_number: 4,
            chunk_size: 3,
            chunk_hash: "cafe".to_string(),
        }],
        next: 0,
        valid: Vec::new(),
    };
    expect_rejected(
        answer_of(step(InitStage::CheckingChunk { cleanup: cleanup() }, Event::Failed).1),
        UploadError::IoError,
        "Failed to check and clean invalid chunks",
    );
    let (stage, action) = step(
        InitStage::CheckingChunk { cleanup: cleanup() },
        Event::FileHash(Some("beef".to_string())),
    );
    assert!(matches!(stage, InitStage::RemovingChunkFile { .. }));
    let expected_path = format!("/store/{}/chunk_4", info.file_hash);
    assert!(matches!(action, Action::DeleteFileIfExists { ref path } if *path == expected_path));
    expect_rejected(
        answer_of(step(InitStage::RemovingChunkFile { cleanup: cleanup() }, Event::Failed).1),
        UploadError::IoError,
        "Failed to check and clean invalid chunks",
    );
    let (stage, action) = step(stage, Event::Done);
    assert!(matches!(stage, InitStage::RemovingChunkRecord { .. }));
    assert!(matches!(action, Action::DeleteChunkById { chunk_id: 9 }));
    expect_rejected(
        answer_of(
            step(
                InitStage::RemovingChunkRecord { cleanup: cleanup() },
                Event::Failed,
            )
            .1,
        ),
        UploadError::RepositoryError,
        "Failed to check and clean invalid chunks",
    );
    let response = expect_init(answer_of(step(stage, Event::Done).1));
    assert!(response.uploaded_chunks.is_empty());
    assert_eq!(response.uploaded_size, 0);
    expect_rejected(
        answer_of(step(InitStage::Finished, Event::Start).1),
        UploadError::BadRequest,
        "No request in progress",
    );
    expect_rejected(
        answer_of(step(InitStage::Received, Event::Done).1),
        UploadError::BadRequest,
        "No request in progress",
    );
}

#[test]
fn init_fails_where_the_sizes_on_record_do_not_fit() {
    let mut host = Host::new();
    let info = request("f.bin", b"abc");
    let id = info.file_hash.clone();
    expect_init(host.init(&settings(), &info));
    for number in [1, 2] {
        host.chunks.push(Chunk {
            id: number,
            upload_id: id.clone(),
            chunk_number: number,
            chunk_size: i64::MAX,
            chunk_hash: compute_file_hash(b"x"),
        });
        host.files
            .insert(format!("/store/{}/chunk_{}", id, number), b"x".to_vec());
    }
    expect_rejected(
        host.init(&settings(), &info),
        UploadError::RepositoryError,
        "Failed to check and clean invalid chunks",
    );
}

#[test]
fn failures_of_the_host_end_the_merge() {
    let config = settings();
    let info = CompleteUploadRequest {
        file_id: "abc".to_string(),
    };
    let item = UploadItem {
        id: "abc".to_string(),
        file_name: "f".to_string(),
        file_size: 6,
        file_path: "/store/f".to_string(),
        status: "Uploading".to_string(),
        created_at: 0,
    };
    let chunk = |number: i32| Chunk {
        id: number,
        upload_id: "abc".to_string(),
        chunk_number: number,
        chunk_size: 3,
        chunk_hash: "x".to_string(),
    };
    let step =
        |stage: CompleteStage, event: Event| complete_upload(&config, &info, stage, event);

    expect_rejected(
        answer_of(step(CompleteStage::ListingChunks { item: item.clone() }, Event::Failed).1),
        UploadError::RepositoryError,
        "Failed to merge chunks",
    );
    let (stage, action) = step(
        CompleteStage::ListingChunks { item: item.clone() },
        Event::Chunks(vec![chunk(2), chunk(1)]),
    );
    assert!(matches!(action, Action::CreateFile { ref path } if path == "/store/f"));
    match &stage {
        CompleteStage::CreatingOutput { plan, .. } => {
            assert_eq!(plan[0].chunk_number, 1);
            assert_eq!(plan[1].chunk_number, 2);
        }
        other => panic!("expected the creation of the file, got {:?}", other),
    }
    expect_rejected(
        answer_of(
            step(
                CompleteStage::CreatingOutput {
                    item: item.clone(),
                    plan: vec![chunk(1)],
                },
                Event::Failed,
            )
            .1,
        ),
        UploadError::IoError,
        "Failed to merge chunks",
    );
    let (stage, action) = step(stage, Event::Done);
    assert!(matches!(
        action,
        Action::AppendFile { ref source, ref target }
            if source == "/store/abc/chunk_1" && target == "/store/f"
    ));
    expect_rejected(
        answer_of(
            step(
                CompleteStage::Appending {
                    item: item.clone(),
                    plan: vec![chunk(1), chunk(2)],
                    next: 0,
                    written: 0,
                },
                Event::Failed,
            )
            .1,
        ),
        UploadError::IoError,
        "Failed to merge chunks",
    );
    let (stage, action) = step(stage, Event::Appended(Some(3)));
    assert!(matches!(
        action,
        Action::AppendFile { ref source, .. } if source == "/store/abc/chunk_2"
    ));
    expect_rejected(
        answer_of(
            step(
                CompleteStage::Appending {
                    item: item.clone(),
                    plan: vec![chunk(1), chunk(2)],
                    next: 1,
                    written: 3,
                },
                Event::Appended(Some(u64::MAX)),
            )
            .1,
        ),
        UploadError::SizeMismatch,
        "Failed to merge chunks",
    );
    let (stage, action) = step(stage, Event::Appended(Some(3)));
    assert!(matches!(stage, CompleteStage::VerifyingOutput { .. }));
    assert!(matches!(action, Action::HashFile { ref path } if path == "/store/f"));
    expect_rejected(
        answer_of(
            step(
                CompleteStage::VerifyingOutput { item: item.clone() },
                Event::Failed,
            )
            .1,
        ),
        UploadError::IoError,
        "Failed to merge chunks",
    );
    expect_rejected(
        answer_of(
            step(
                CompleteStage::VerifyingOutput { item: item.clone() },
                Event::FileHash(None),
            )
            .1,
        ),
        UploadError::IntegrityFailure,
        "Failed to merge chunks",
    );
    let (stage, action) = step(stage, Event::FileHash(Some("abc".to_string())));
    assert!(matches!(stage, CompleteStage::MarkingCompleted { .. }));
    match action {
        Action::UpdateUploadItem { item } => {
            assert_eq!(item.id, "abc");
            assert_eq!(item.status, "Completed");
            assert_eq!(item.file_size, 6);
            assert_eq!(item.file_path, "/store/f");
        }
        other => panic!("expected an update, got {:?}", other),
    }
    let (_, action) = step(stage, Event::Done);
    assert!(matches!(action, Action::RemoveDirAll { ref path } if path == "/store/abc"));
}

#[test]
fn a_merge_with_a_negative_size_declared_fails() {
    let mut host = Host::new();
    let info = InitUploadRequest {
        file_name: "n.bin".to_string(),
        file_size: -1,
        file_hash: compute_file_hash(b""),
    };
    let id = info.file_hash.clone();
    expect_init(host.init(&settings(), &info));
    expect_rejected(
        host.complete(&settings(), &id),
        UploadError::SizeMismatch,
        "Failed to merge chunks",
    );
}

#[test]
fn init_fails_where_another_session_has_the_path() {
    let mut host = Host::new();
    expect_init(host.init(&settings(), &request("same.txt", b"one")));
    expect_rejected(
        host.init(&settings(), &request("same.txt", b"two")),
        UploadError::RepositoryError,
        "Failed to insert upload item",
    );
    assert_eq!(host.uploads.len(), 1);
    // once the first file is there, the second gets a name of its own
    host.files.insert("/store/same.txt".to_string(), b"one".to_vec());
    expect_init(host.init(&settings(), &request("same.txt", b"two")));
    assert_eq!(host.uploads.len(), 2);
    assert_eq!(host.uploads[1].file_path, "/store/same(1).txt");
}
