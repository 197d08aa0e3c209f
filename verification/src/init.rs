use crate::chunk_list::{
    chunk_numbers, numbers_of, sort_by_number, sort_chunks, total_chunk_size, total_size,
};
use crate::host::{Action, ActionView, Event, EventView};
use crate::paths::{
    chunk_file_path, destination, destination_path, get_chunk_file, upload_dir, upload_dir_path,
};
use crate::protocol::{
    InitUploadRequest, InitUploadRequestView, InitUploadResponse, InitUploadResponseView, Reply,
    ReplyView, UploadError,
};
use crate::records::{
    chunk_views, status_of_text, status_text, Chunk, ChunkView, UploadItem, UploadItemView,
    UploadStatus,
};
use crate::setting::Settings;
use vstd::prelude::*;
use vstd::string::StringExecFns;

verus! {

/// The state of going through the chunks on record of a session: the first
/// `next` chunks have been checked, and `valid` holds those among them whose
/// file has the digest on record.
#[derive(Debug)]
pub struct Cleanup {
    pub item: UploadItem,
    pub chunks: Vec<Chunk>,
    pub next: usize,
    pub valid: Vec<Chunk>,
}

/// `Cleanup` as a value of texts, sequences and numbers.
pub struct CleanupView {
    pub item: UploadItemView,
    pub chunks: Seq<ChunkView>,
    pub next: usize,
    pub valid: Seq<ChunkView>,
}

impl View for Cleanup {
    type V = CleanupView;

    open spec fn view(&self) -> CleanupView {
        CleanupView {
            item: self.item@,
            chunks: chunk_views(self.chunks@),
            next: self.next,
            valid: chunk_views(self.valid@),
        }
    }
}

/// How far the start of an upload has come: each stage but the first and the
/// last waits for the result of the operation it is named after.
#[derive(Debug)]
pub enum InitStage {
    Received,
    FindingUpload,
    CheckingCompleted { item: UploadItem },
    DeletingInvalid,
    FindingFilename,
    InsertingUpload,
    ListingChunks { item: UploadItem },
    CheckingChunk { cleanup: Cleanup },
    RemovingChunkFile { cleanup: Cleanup },
    RemovingChunkRecord { cleanup: Cleanup },
    Finished,
}

/// `InitStage` as a value of texts, sequences and numbers.
pub enum InitStageView {
    Received,
    FindingUpload,
    CheckingCompleted { item: UploadItemView },
    DeletingInvalid,
    FindingFilename,
    InsertingUpload,
    ListingChunks { item: UploadItemView },
    CheckingChunk { cleanup: CleanupView },
    RemovingChunkFile { cleanup: CleanupView },
    RemovingChunkRecord { cleanup: CleanupView },
    Finished,
}

impl View for InitStage {
    type V = InitStageView;

    open spec fn view(&self) -> InitStageView {
        match self {
            InitStage::Received => InitStageView::Received,
            InitStage::FindingUpload => InitStageView::FindingUpload,
            InitStage::CheckingCompleted { item } => InitStageView::CheckingCompleted {
                item: item@,
            },
            InitStage::DeletingInvalid => InitStageView::DeletingInvalid,
            InitStage::FindingFilename => InitStageView::FindingFilename,
            InitStage::InsertingUpload => InitStageView::InsertingUpload,
            InitStage::ListingChunks { item } => InitStageView::ListingChunks { item: item@ },
            InitStage::CheckingChunk { cleanup } => InitStageView::CheckingChunk {
                cleanup: cleanup@,
            },
            InitStage::RemovingChunkFile { cleanup } => InitStageView::RemovingChunkFile {
                cleanup: cleanup@,
            },
            InitStage::RemovingChunkRecord { cleanup } => InitStageView::RemovingChunkRecord {
                cleanup: cleanup@,
            },
            InitStage::Finished => InitStageView::Finished,
        }
    }
}

/// The end of a request with a rejection.
pub open spec fn init_rejected(error: UploadError, message: Seq<char>) -> (
    InitStageView,
    ActionView,
) {
    (InitStageView::Finished, ActionView::Respond(ReplyView::Rejected { error, message }))
}

/// The end of a request with the state of the session.
pub open spec fn init_answered(response: InitUploadResponseView) -> (InitStageView, ActionView) {
    (InitStageView::Finished, ActionView::Respond(ReplyView::Init(response)))
}

/// A request that arrives while another is being handled, or a report where
/// none is awaited.
pub open spec fn init_misused() -> (InitStageView, ActionView) {
    init_rejected(UploadError::BadRequest, "No request in progress"@)
}

/// The answer for a session that has nothing uploaded yet.
pub open spec fn fresh_response(file_id: Seq<char>) -> InitUploadResponseView {
    InitUploadResponseView {
        file_id,
        status: UploadStatus::Uploading,
        uploaded_chunks: Seq::<i32>::empty(),
        uploaded_size: 0,
    }
}

/// The session that is stored for a new upload.
pub open spec fn new_upload_item(info: InitUploadRequestView, file_path: Seq<char>, now: i64)
    -> UploadItemView {
    UploadItemView {
        id: info.file_hash,
        file_name: info.file_name,
        file_size: info.file_size,
        file_path,
        status: status_text(UploadStatus::Uploading),
        created_at: now,
    }
}

/// The first step of creating a session: a free path for its file is asked
/// for.
pub open spec fn create_upload_begin(storage_folder: Seq<char>, info: InitUploadRequestView) -> (
    InitStageView,
    ActionView,
) {
    (
        InitStageView::FindingFilename,
        ActionView::FindAvailableFilename {
            path: destination_path(storage_folder, info.file_name),
        },
    )
}

/// The rules for creating a session: it is stored as uploading under the
/// free path that was found, and the answer says that nothing is uploaded.
pub open spec fn create_upload_item_step(
    info: InitUploadRequestView,
    now: i64,
    stage: InitStageView,
    event: EventView,
) -> (InitStageView, ActionView) {
    match stage {
        InitStageView::FindingFilename => match event {
            EventView::Filename(path) => (
                InitStageView::InsertingUpload,
                ActionView::InsertUploadItem { item: new_upload_item(info, path, now) },
            ),
            _ => init_rejected(UploadError::IoError, "Failed to get available filename"@),
        },
        InitStageView::InsertingUpload => match event {
            EventView::Done => init_answered(fresh_response(info.file_hash)),
            _ => init_rejected(UploadError::RepositoryError, "Failed to insert upload item"@),
        },
        _ => init_misused(),
    }
}

/// The rules for a session that is stored as completed: where its file has
/// the session's id as digest, the answer says so and gives the declared
/// size as uploaded; else the session is deleted and created anew.
pub open spec fn handle_completed_upload_step(
    storage_folder: Seq<char>,
    info: InitUploadRequestView,
    stage: InitStageView,
    event: EventView,
) -> (InitStageView, ActionView) {
    match stage {
        InitStageView::CheckingCompleted { item } => match event {
            EventView::FileHash(actual) => if actual == Some(item.id) {
                init_answered(
                    InitUploadResponseView {
                        file_id: item.id,
                        status: UploadStatus::Completed,
                        uploaded_chunks: Seq::<i32>::empty(),
                        uploaded_size: item.file_size,
                    },
                )
            } else {
                (
                    InitStageView::DeletingInvalid,
                    ActionView::DeleteUploadItem { upload_id: item.id },
                )
            },
            _ => init_rejected(UploadError::IoError, "Failed to check file status"@),
        },
        InitStageView::DeletingInvalid => match event {
            EventView::Done => create_upload_begin(storage_folder, info),
            _ => init_rejected(
                UploadError::RepositoryError,
                "Failed to delete invalid upload item"@,
            ),
        },
        _ => init_misused(),
    }
}

/// The file of the chunk that is checked next.
pub open spec fn cleanup_path(storage_folder: Seq<char>, cleanup: CleanupView) -> Seq<char> {
    chunk_file_path(
        upload_dir_path(storage_folder, cleanup.item.id),
        cleanup.chunks[cleanup.next as int].chunk_number as int,
    )
}

/// The answer for a session whose valid chunks are known: their numbers in
/// ascending order and the sum of their sizes.
pub open spec fn resume_answer(item: UploadItemView, valid: Seq<ChunkView>) -> (
    InitStageView,
    ActionView,
) {
    if i64::MIN <= total_size(valid) <= i64::MAX {
        init_answered(
            InitUploadResponseView {
                file_id: item.id,
                status: UploadStatus::Uploading,
                uploaded_chunks: chunk_numbers(sort_by_number(valid)),
                uploaded_size: total_size(valid) as i64,
            },
        )
    } else {
        init_rejected(UploadError::RepositoryError, "Failed to check and clean invalid chunks"@)
    }
}

/// What follows once the first `next` chunks have been checked: the digest
/// of the next chunk's file is asked for, and after the last one the answer
/// is given.
pub open spec fn cleanup_next(storage_folder: Seq<char>, cleanup: CleanupView) -> (
    InitStageView,
    ActionView,
) {
    if cleanup.next < cleanup.chunks.len() {
        (
            InitStageView::CheckingChunk { cleanup },
            ActionView::HashFile { path: cleanup_path(storage_folder, cleanup) },
        )
    } else {
        resume_answer(cleanup.item, cleanup.valid)
    }
}

/// The state after the chunk that was checked proved valid.
pub open spec fn cleanup_kept(cleanup: CleanupView) -> CleanupView {
    CleanupView {
        next: (cleanup.next + 1) as usize,
        valid: cleanup.valid.push(cleanup.chunks[cleanup.next as int]),
        ..cleanup
    }
}

/// The state after the chunk that was checked was removed.
pub open spec fn cleanup_dropped(cleanup: CleanupView) -> CleanupView {
    CleanupView { next: (cleanup.next + 1) as usize, ..cleanup }
}

/// The rules for going through the chunks on record: a chunk whose file has
/// the digest on record is kept; of any other the file is deleted if there
/// is one, and then the record.
pub open spec fn check_and_clean_invalid_chunks_step(
    storage_folder: Seq<char>,
    stage: InitStageView,
    event: EventView,
) -> (InitStageView, ActionView) {
    let failed = "Failed to check and clean invalid chunks"@;
    match stage {
        InitStageView::CheckingChunk { cleanup } => if cleanup.next >= cleanup.chunks.len() {
            init_misused()
        } else {
            match event {
                EventView::FileHash(actual) => if actual == Some(
                    cleanup.chunks[cleanup.next as int].chunk_hash,
                ) {
                    cleanup_next(storage_folder, cleanup_kept(cleanup))
                } else {
                    (
                        InitStageView::RemovingChunkFile { cleanup },
                        ActionView::DeleteFileIfExists {
                            path: cleanup_path(storage_folder, cleanup),
                        },
                    )
                },
                _ => init_rejected(UploadError::IoError, failed),
            }
        },
        InitStageView::RemovingChunkFile { cleanup } => if cleanup.next >= cleanup.chunks.len() {
            init_misused()
        } else {
            match event {
                EventView::Done => (
                    InitStageView::RemovingChunkRecord { cleanup },
                    ActionView::DeleteChunkById {
                        chunk_id: cleanup.chunks[cleanup.next as int].id,
                    },
                ),
                _ => init_rejected(UploadError::IoError, failed),
            }
        },
        InitStageView::RemovingChunkRecord { cleanup } => if cleanup.next
            >= cleanup.chunks.len() {
            init_misused()
        } else {
            match event {
                EventView::Done => cleanup_next(storage_folder, cleanup_dropped(cleanup)),
                _ => init_rejected(UploadError::RepositoryError, failed),
            }
        },
        _ => init_misused(),
    }
}

/// The rules for a session that is stored as uploading: its chunks on
/// record are listed and gone through.
pub open spec fn handle_uploading_upload_step(
    storage_folder: Seq<char>,
    stage: InitStageView,
    event: EventView,
) -> (InitStageView, ActionView) {
    match stage {
        InitStageView::ListingChunks { item } => match event {
            EventView::Chunks(chunks) => cleanup_next(
                storage_folder,
                CleanupView { item, chunks, next: 0, valid: Seq::<ChunkView>::empty() },
            ),
            _ => init_rejected(UploadError::RepositoryError, "Failed to query chunks"@),
        },
        _ => check_and_clean_invalid_chunks_step(storage_folder, stage, event),
    }
}

/// The rules for beginning or resuming an upload: from the stage reached and
/// the host's report to the next stage and what to ask of the host next.
///
/// The session is looked up by the digest of the file. Where there is none,
/// one is created. A completed one is checked against its file, an uploading
/// one against its chunk files.
pub open spec fn init_upload_step(
    storage_folder: Seq<char>,
    info: InitUploadRequestView,
    now: i64,
    stage: InitStageView,
    event: EventView,
) -> (InitStageView, ActionView) {
    match stage {
        InitStageView::Received => match event {
            EventView::Start => (
                InitStageView::FindingUpload,
                ActionView::GetUploadItem { upload_id: info.file_hash },
            ),
            _ => init_misused(),
        },
        InitStageView::FindingUpload => match event {
            EventView::UploadItem(Some(item)) => match status_of_text(item.status) {
                Some(UploadStatus::Completed) => (
                    InitStageView::CheckingCompleted { item },
                    ActionView::HashFile { path: item.file_path },
                ),
                Some(UploadStatus::Uploading) => (
                    InitStageView::ListingChunks { item },
                    ActionView::GetUploadChunks { upload_id: item.id },
                ),
                None => init_rejected(UploadError::RepositoryError, "Invalid upload status"@),
            },
            EventView::UploadItem(None) => create_upload_begin(storage_folder, info),
            _ => init_rejected(UploadError::RepositoryError, "Failed to query uploads"@),
        },
        InitStageView::CheckingCompleted { item } => handle_completed_upload_step(
            storage_folder,
            info,
            stage,
            event,
        ),
        InitStageView::DeletingInvalid => handle_completed_upload_step(
            storage_folder,
            info,
            stage,
            event,
        ),
        InitStageView::FindingFilename => create_upload_item_step(info, now, stage, event),
        InitStageView::InsertingUpload => create_upload_item_step(info, now, stage, event),
        InitStageView::Finished => init_misused(),
        _ => handle_uploading_upload_step(storage_folder, stage, event),
    }
}

fn rejected(error: UploadError, message: &str) -> (next: (InitStage, Action))
    ensures
        (next.0@, next.1@) == init_rejected(error, message@),
{
    (
        InitStage::Finished,
        Action::Respond(Reply::Rejected { error, message: String::from_str(message) }),
    )
}

fn misused() -> (next: (InitStage, Action))
    ensures
        (next.0@, next.1@) == init_misused(),
{
    rejected(UploadError::BadRequest, "No request in progress")
}

fn begin_create(settings: &Settings, info: &InitUploadRequest) -> (next: (InitStage, Action))
    ensures
        (next.0@, next.1@) == create_upload_begin(settings@.storage_folder, info@),
{
    let path = destination(&settings.storage_folder, &info.file_name);
    (InitStage::FindingFilename, Action::FindAvailableFilename { path })
}

/// Takes the creation of a session one step further, as
/// `create_upload_item_step` lays down.
fn create_upload_item(info: &InitUploadRequest, now: i64, stage: InitStage, event: Event) -> (next:
    (InitStage, Action))
    ensures
        (next.0@, next.1@) == create_upload_item_step(info@, now, stage@, event@),
{
    match stage {
        InitStage::FindingFilename => match event {
            Event::Filename(path) => {
                let item = UploadItem {
                    id: info.file_hash.clone(),
                    file_name: info.file_name.clone(),
                    file_size: info.file_size,
                    file_path: path,
                    status: UploadStatus::Uploading.to_string(),
                    created_at: now,
                };
                (InitStage::InsertingUpload, Action::InsertUploadItem { item })
            },
            _ => rejected(UploadError::IoError, "Failed to get available filename"),
        },
        InitStage::InsertingUpload => match event {
            Event::Done => {
                let response = InitUploadResponse {
                    file_id: info.file_hash.clone(),
                    status: UploadStatus::Uploading,
                    uploaded_chunks: Vec::new(),
                    uploaded_size: 0,
                };
                (InitStage::Finished, Action::Respond(Reply::Init(response)))
            },
            _ => rejected(UploadError::RepositoryError, "Failed to insert upload item"),
        },
        _ => misused(),
    }
}

/// Takes the check of a completed session one step further, as
/// `handle_completed_upload_step` lays down.
fn handle_completed_upload(
    settings: &Settings,
    info: &InitUploadRequest,
    stage: InitStage,
    event: Event,
) -> (next: (InitStage, Action))
    ensures
        (next.0@, next.1@) == handle_completed_upload_step(
            settings@.storage_folder,
            info@,
            stage@,
            event@,
        ),
{
    match stage {
        InitStage::CheckingCompleted { item } => match event {
            Event::FileHash(Some(actual)) => {
                if actual == item.id {
                    let response = InitUploadResponse {
                        file_id: item.id,
                        status: UploadStatus::Completed,
                        uploaded_chunks: Vec::new(),
                        uploaded_size: item.file_size,
                    };
                    (InitStage::Finished, Action::Respond(Reply::Init(response)))
                } else {
                    (InitStage::DeletingInvalid, Action::DeleteUploadItem { upload_id: item.id })
                }
            },
            Event::FileHash(None) => (
                InitStage::DeletingInvalid,
                Action::DeleteUploadItem { upload_id: item.id },
            ),
            _ => rejected(UploadError::IoError, "Failed to check file status"),
        },
        InitStage::DeletingInvalid => match event {
            Event::Done => begin_create(settings, info),
            _ => rejected(UploadError::RepositoryError, "Failed to delete invalid upload item"),
        },
        _ => misused(),
    }
}

fn answer_resume(item: UploadItem, valid: Vec<Chunk>) -> (next: (InitStage, Action))
    ensures
        (next.0@, next.1@) == resume_answer(item@, chunk_views(valid@)),
{
    let total = total_chunk_size(&valid);
    if total < i64::MIN as i128 || total > i64::MAX as i128 {
        rejected(UploadError::RepositoryError, "Failed to check and clean invalid chunks")
    } else {
        let sorted = sort_chunks(&valid);
        let response = InitUploadResponse {
            file_id: item.id,
            status: UploadStatus::Uploading,
            uploaded_chunks: numbers_of(&sorted),
            uploaded_size: total as i64,
        };
        (InitStage::Finished, Action::Respond(Reply::Init(response)))
    }
}

fn continue_cleanup(settings: &Settings, cleanup: Cleanup) -> (next: (InitStage, Action))
    ensures
        (next.0@, next.1@) == cleanup_next(settings@.storage_folder, cleanup@),
{
    if cleanup.next < cleanup.chunks.len() {
        let dir = upload_dir(&settings.storage_folder, &cleanup.item.id);
        let path = get_chunk_file(&dir, cleanup.chunks[cleanup.next].chunk_number);
        (InitStage::CheckingChunk { cleanup }, Action::HashFile { path })
    } else {
        answer_resume(cleanup.item, cleanup.valid)
    }
}

/// Takes the check of a session's chunks one step further, as
/// `check_and_clean_invalid_chunks_step` lays down.
fn check_and_clean_invalid_chunks(settings: &Settings, stage: InitStage, event: Event) -> (next: (
    InitStage,
    Action,
))
    ensures
        (next.0@, next.1@) == check_and_clean_invalid_chunks_step(
            settings@.storage_folder,
            stage@,
            event@,
        ),
{
    match stage {
        InitStage::CheckingChunk { cleanup } => {
            if cleanup.next >= cleanup.chunks.len() {
                return misused();
            }
            let valid_file = match event {
                Event::FileHash(Some(actual)) => Some(
                    actual == cleanup.chunks[cleanup.next].chunk_hash,
                ),
                Event::FileHash(None) => Some(false),
                _ => None,
            };
            match valid_file {
                Some(true) => {
                    let Cleanup { item, chunks, next, valid } = cleanup;
                    let mut valid = valid;
                    let ghost before = chunk_views(valid@);
                    valid.push(chunks[next].clone());
                    assert(chunk_views(valid@) =~= before.push(chunks@[next as int]@));
                    continue_cleanup(settings, Cleanup { item, chunks, next: next + 1, valid })
                },
                Some(false) => {
                    let dir = upload_dir(&settings.storage_folder, &cleanup.item.id);
                    let path = get_chunk_file(&dir, cleanup.chunks[cleanup.next].chunk_number);
                    (
                        InitStage::RemovingChunkFile { cleanup },
                        Action::DeleteFileIfExists { path },
                    )
                },
                None => rejected(
                    UploadError::IoError,
                    "Failed to check and clean invalid chunks",
                ),
            }
        },
        InitStage::RemovingChunkFile { cleanup } => {
            if cleanup.next >= cleanup.chunks.len() {
                return misused();
            }
            match event {
                Event::Done => {
                    let chunk_id = cleanup.chunks[cleanup.next].id;
                    (
                        InitStage::RemovingChunkRecord { cleanup },
                        Action::DeleteChunkById { chunk_id },
                    )
                },
                _ => rejected(UploadError::IoError, "Failed to check and clean invalid chunks"),
            }
        },
        InitStage::RemovingChunkRecord { cleanup } => {
            if cleanup.next >= cleanup.chunks.len() {
                return misused();
            }
            match event {
                Event::Done => {
                    let Cleanup { item, chunks, next, valid } = cleanup;
                    continue_cleanup(settings, Cleanup { item, chunks, next: next + 1, valid })
                },
                _ => rejected(
                    UploadError::RepositoryError,
                    "Failed to check and clean invalid chunks",
                ),
            }
        },
        _ => misused(),
    }
}

/// Takes the resumption of a session one step further, as
/// `handle_uploading_upload_step` lays down.
fn handle_uploading_upload(settings: &Settings, stage: InitStage, event: Event) -> (next: (
    InitStage,
    Action,
))
    ensures
        (next.0@, next.1@) == handle_uploading_upload_step(
            settings@.storage_folder,
            stage@,
            event@,
        ),
{
    match stage {
        InitStage::ListingChunks { item } => match event {
            Event::Chunks(chunks) => {
                let valid: Vec<Chunk> = Vec::new();
                assert(chunk_views(valid@) =~= Seq::<ChunkView>::empty());
                continue_cleanup(settings, Cleanup { item, chunks, next: 0, valid })
            },
            _ => rejected(UploadError::RepositoryError, "Failed to query chunks"),
        },
        _ => check_and_clean_invalid_chunks(settings, stage, event),
    }
}

/// Takes the start of an upload one step further: given the stage reached
/// and what the host reports, says what the host is to do next, as
/// `init_upload_step` lays down. `now` is the time that a new session is
/// stored with.
pub fn init_upload(
    settings: &Settings,
    info: &InitUploadRequest,
    now: i64,
    stage: InitStage,
    event: Event,
) -> (next: (InitStage, Action))
    ensures
        (next.0@, next.1@) == init_upload_step(
            settings@.storage_folder,
            info@,
            now,
            stage@,
            event@,
        ),
{
    match stage {
        InitStage::Received => match event {
            Event::Start => (
                InitStage::FindingUpload,
                Action::GetUploadItem { upload_id: info.file_hash.clone() },
            ),
            _ => misused(),
        },
        InitStage::FindingUpload => match event {
            Event::UploadItem(Some(item)) => match UploadStatus::from_str(&item.status) {
                Some(UploadStatus::Completed) => {
                    let path = item.file_path.clone();
                    (InitStage::CheckingCompleted { item }, Action::HashFile { path })
                },
                Some(UploadStatus::Uploading) => {
                    let upload_id = item.id.clone();
                    (InitStage::ListingChunks { item }, Action::GetUploadChunks { upload_id })
                },
                None => rejected(UploadError::RepositoryError, "Invalid upload status"),
            },
            Event::UploadItem(None) => begin_create(settings, info),
            _ => rejected(UploadError::RepositoryError, "Failed to query uploads"),
        },
        InitStage::CheckingCompleted { item } => handle_completed_upload(
            settings,
            info,
            InitStage::CheckingCompleted { item },
            event,
        ),
        InitStage::DeletingInvalid => handle_completed_upload(settings, info, stage, event),
        InitStage::FindingFilename => create_upload_item(info, now, stage, event),
        InitStage::InsertingUpload => create_upload_item(info, now, stage, event),
        InitStage::Finished => misused(),
        _ => handle_uploading_upload(settings, stage, event),
    }
}

} // verus!
