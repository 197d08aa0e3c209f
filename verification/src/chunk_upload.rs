use crate::host::{Action, ActionView, Event, EventView};
use crate::paths::{chunk_file_path, get_chunk_file, upload_dir, upload_dir_path};
use crate::protocol::{Metadata, MetadataView, Reply, ReplyView, UploadError};
use crate::records::{status_of_text, Chunk, ChunkView, UploadStatus};
use crate::setting::Settings;
use vstd::prelude::*;
use vstd::string::StringExecFns;

verus! {

/// How far the handling of one chunk has come: each stage but the first and
/// the last waits for the result of the operation it is named after.
#[derive(Debug)]
pub enum ChunkStage {
    Received,
    FindingUpload,
    CreatingDir,
    FindingChunk,
    CheckingExisting { chunk: Chunk },
    RemovingStaleFile { chunk_id: i32 },
    RemovingStaleRecord,
    ClearingLeftover,
    SavingChunk,
    VerifyingChunk { chunk_size: i64 },
    DiscardingChunk { cause: Discard },
    RecordingChunk,
    Finished,
}

/// Why the file of a chunk that was just written is removed again.
#[derive(Clone, Copy, Debug, PartialEq, Eq, Structural)]
pub enum Discard {
    /// The bytes could not be written in full.
    NotSaved,
    /// The digest of the bytes written is not the one declared.
    HashMismatch,
    /// The chunk could not be put on record.
    NotRecorded,
}

/// `ChunkStage` as a value of texts, sequences and numbers.
pub enum ChunkStageView {
    Received,
    FindingUpload,
    CreatingDir,
    FindingChunk,
    CheckingExisting { chunk: ChunkView },
    RemovingStaleFile { chunk_id: i32 },
    RemovingStaleRecord,
    ClearingLeftover,
    SavingChunk,
    VerifyingChunk { chunk_size: i64 },
    DiscardingChunk { cause: Discard },
    RecordingChunk,
    Finished,
}

impl View for ChunkStage {
    type V = ChunkStageView;

    open spec fn view(&self) -> ChunkStageView {
        match self {
            ChunkStage::Received => ChunkStageView::Received,
            ChunkStage::FindingUpload => ChunkStageView::FindingUpload,
            ChunkStage::CreatingDir => ChunkStageView::CreatingDir,
            ChunkStage::FindingChunk => ChunkStageView::FindingChunk,
            ChunkStage::CheckingExisting { chunk } => ChunkStageView::CheckingExisting {
                chunk: chunk@,
            },
            ChunkStage::RemovingStaleFile { chunk_id } => ChunkStageView::RemovingStaleFile {
                chunk_id: *chunk_id,
            },
            ChunkStage::RemovingStaleRecord => ChunkStageView::RemovingStaleRecord,
            ChunkStage::ClearingLeftover => ChunkStageView::ClearingLeftover,
            ChunkStage::SavingChunk => ChunkStageView::SavingChunk,
            ChunkStage::VerifyingChunk { chunk_size } => ChunkStageView::VerifyingChunk {
                chunk_size: *chunk_size,
            },
            ChunkStage::DiscardingChunk { cause } => ChunkStageView::DiscardingChunk {
                cause: *cause,
            },
            ChunkStage::RecordingChunk => ChunkStageView::RecordingChunk,
            ChunkStage::Finished => ChunkStageView::Finished,
        }
    }
}

/// The file of the chunk that a request is about.
pub open spec fn request_chunk_path(storage_folder: Seq<char>, form: MetadataView) -> Seq<char> {
    chunk_file_path(upload_dir_path(storage_folder, form.file_id), form.chunk_number as int)
}

/// The end of a request with a rejection.
pub open spec fn chunk_rejected(error: UploadError, message: Seq<char>) -> (
    ChunkStageView,
    ActionView,
) {
    (ChunkStageView::Finished, ActionView::Respond(ReplyView::Rejected { error, message }))
}

/// The end of a request with an answer.
pub open spec fn chunk_answered(reply: ReplyView) -> (ChunkStageView, ActionView) {
    (ChunkStageView::Finished, ActionView::Respond(reply))
}

/// A request that arrives while another is being handled, or a report where
/// none is awaited.
pub open spec fn chunk_misused() -> (ChunkStageView, ActionView) {
    chunk_rejected(UploadError::BadRequest, "No request in progress"@)
}

/// The step to the removal of the file just written.
pub open spec fn chunk_discard(storage_folder: Seq<char>, form: MetadataView, cause: Discard) -> (
    ChunkStageView,
    ActionView,
) {
    (
        ChunkStageView::DiscardingChunk { cause },
        ActionView::DeleteFileIfExists { path: request_chunk_path(storage_folder, form) },
    )
}

/// The rejection that follows the removal of the file just written.
pub open spec fn discard_rejection(cause: Discard) -> (ChunkStageView, ActionView) {
    match cause {
        Discard::NotSaved => chunk_rejected(UploadError::IoError, "Failed to save chunk"@),
        Discard::HashMismatch => chunk_rejected(
            UploadError::BadRequest,
            "Chunk hash verification failed"@,
        ),
        Discard::NotRecorded => chunk_rejected(
            UploadError::RepositoryError,
            "Failed to insert chunk"@,
        ),
    }
}

/// The step to the writing of the chunk's bytes.
pub open spec fn chunk_save(storage_folder: Seq<char>, form: MetadataView) -> (
    ChunkStageView,
    ActionView,
) {
    (
        ChunkStageView::SavingChunk,
        ActionView::SaveChunk { path: request_chunk_path(storage_folder, form) },
    )
}

/// The rules for taking in one chunk: from the stage reached and the
/// host's report to the next stage and what to ask of the host next.
///
/// A request with an empty session id or a chunk number below 1 is turned
/// away, as is one for an unknown or completed session. A chunk that is on
/// record and whose file has the recorded digest is not written again; a
/// record whose file does not is removed with its file. The bytes are then
/// written and their digest compared with the one declared: the chunk is put
/// on record only where they agree. Whenever the request fails after the
/// bytes were written, their file is removed before the rejection is sent.
/// Every operation that fails ends the request with a rejection; only that
/// the file just written cannot be removed does not change the rejection
/// that is due.
pub open spec fn upload_chunk_step(
    storage_folder: Seq<char>,
    form: MetadataView,
    stage: ChunkStageView,
    event: EventView,
) -> (ChunkStageView, ActionView) {
    let path = request_chunk_path(storage_folder, form);
    match stage {
        ChunkStageView::Received => match event {
            EventView::Start => if form.file_id.len() == 0 || form.chunk_number <= 0 {
                chunk_rejected(UploadError::BadRequest, "Missing or invalid required fields"@)
            } else {
                (
                    ChunkStageView::FindingUpload,
                    ActionView::GetUploadItem { upload_id: form.file_id },
                )
            },
            _ => chunk_misused(),
        },
        ChunkStageView::FindingUpload => match event {
            EventView::UploadItem(Some(item)) => if status_of_text(item.status) == Some(
                UploadStatus::Completed,
            ) {
                chunk_rejected(UploadError::BadRequest, "File already completed"@)
            } else {
                (
                    ChunkStageView::CreatingDir,
                    ActionView::CreateDirAll {
                        path: upload_dir_path(storage_folder, form.file_id),
                    },
                )
            },
            EventView::UploadItem(None) => chunk_rejected(
                UploadError::NotFound,
                "Upload item not found"@,
            ),
            _ => chunk_rejected(UploadError::RepositoryError, "Failed to query upload item"@),
        },
        ChunkStageView::CreatingDir => match event {
            EventView::Done => (
                ChunkStageView::FindingChunk,
                ActionView::GetChunkByNumber {
                    upload_id: form.file_id,
                    chunk_number: form.chunk_number,
                },
            ),
            _ => chunk_rejected(UploadError::IoError, "Failed to create directory"@),
        },
        ChunkStageView::FindingChunk => match event {
            EventView::Chunk(Some(chunk)) => (
                ChunkStageView::CheckingExisting { chunk },
                ActionView::HashFile { path },
            ),
            EventView::Chunk(None) => (
                ChunkStageView::ClearingLeftover,
                ActionView::DeleteFileIfExists { path },
            ),
            _ => chunk_rejected(UploadError::RepositoryError, "Failed to get chunk"@),
        },
        ChunkStageView::CheckingExisting { chunk } => match event {
            EventView::FileHash(actual) => if actual == Some(chunk.chunk_hash) {
                chunk_answered(ReplyView::ChunkAlreadyUploaded)
            } else {
                (
                    ChunkStageView::RemovingStaleFile { chunk_id: chunk.id },
                    ActionView::DeleteFileIfExists { path },
                )
            },
            _ => chunk_rejected(UploadError::IoError, "Failed to check existing chunk"@),
        },
        ChunkStageView::RemovingStaleFile { chunk_id } => match event {
            EventView::Done => (
                ChunkStageView::RemovingStaleRecord,
                ActionView::DeleteChunkById { chunk_id },
            ),
            _ => chunk_rejected(UploadError::IoError, "Failed to delete invalid chunk"@),
        },
        ChunkStageView::RemovingStaleRecord => match event {
            EventView::Done => chunk_save(storage_folder, form),
            _ => chunk_rejected(UploadError::RepositoryError, "Failed to delete invalid chunk"@),
        },
        ChunkStageView::ClearingLeftover => match event {
            EventView::Done => chunk_save(storage_folder, form),
            _ => chunk_rejected(UploadError::IoError, "Failed to delete invalid chunk"@),
        },
        ChunkStageView::SavingChunk => match event {
            EventView::Saved(size) => if size <= i64::MAX as u64 {
                (
                    ChunkStageView::VerifyingChunk { chunk_size: size as i64 },
                    ActionView::HashFile { path },
                )
            } else {
                chunk_discard(storage_folder, form, Discard::NotSaved)
            },
            _ => chunk_discard(storage_folder, form, Discard::NotSaved),
        },
        ChunkStageView::VerifyingChunk { chunk_size } => if event == EventView::FileHash(
            Some(form.chunk_hash),
        ) {
            (
                ChunkStageView::RecordingChunk,
                ActionView::InsertChunk {
                    chunk: ChunkView {
                        id: 0,
                        upload_id: form.file_id,
                        chunk_number: form.chunk_number,
                        chunk_size,
                        chunk_hash: form.chunk_hash,
                    },
                },
            )
        } else {
            chunk_discard(storage_folder, form, Discard::HashMismatch)
        },
        ChunkStageView::DiscardingChunk { cause } => discard_rejection(cause),
        ChunkStageView::RecordingChunk => match event {
            EventView::Done => chunk_answered(ReplyView::ChunkUploaded),
            EventView::Duplicate => chunk_answered(ReplyView::ChunkAlreadyUploaded),
            _ => chunk_discard(storage_folder, form, Discard::NotRecorded),
        },
        ChunkStageView::Finished => chunk_misused(),
    }
}

fn rejected(error: UploadError, message: &str) -> (next: (ChunkStage, Action))
    ensures
        (next.0@, next.1@) == chunk_rejected(error, message@),
{
    (
        ChunkStage::Finished,
        Action::Respond(Reply::Rejected { error, message: String::from_str(message) }),
    )
}

fn discard(path: String, cause: Discard) -> (next: (ChunkStage, Action))
    ensures
        next.0@ == (ChunkStageView::DiscardingChunk { cause }),
        next.1@ == (ActionView::DeleteFileIfExists { path: path@ }),
{
    (ChunkStage::DiscardingChunk { cause }, Action::DeleteFileIfExists { path })
}

fn save(path: String) -> (next: (ChunkStage, Action))
    ensures
        next.0@ == ChunkStageView::SavingChunk,
        next.1@ == (ActionView::SaveChunk { path: path@ }),
{
    (ChunkStage::SavingChunk, Action::SaveChunk { path })
}

/// Takes the handling of one uploaded chunk one step further: given the
/// stage reached and what the host reports, says what the host is to do
/// next, as `upload_chunk_step` lays down.
pub fn upload_chunk(settings: &Settings, form: &Metadata, stage: ChunkStage, event: Event) -> (next:
    (ChunkStage, Action))
    ensures
        (next.0@, next.1@) == upload_chunk_step(settings@.storage_folder, form@, stage@, event@),
{
    let dir = upload_dir(&settings.storage_folder, &form.file_id);
    let path = get_chunk_file(&dir, form.chunk_number);
    match stage {
        ChunkStage::Received => match event {
            Event::Start => {
                if form.file_id.as_str().unicode_len() == 0 || form.chunk_number <= 0 {
                    rejected(UploadError::BadRequest, "Missing or invalid required fields")
                } else {
                    (
                        ChunkStage::FindingUpload,
                        Action::GetUploadItem { upload_id: form.file_id.clone() },
                    )
                }
            },
            _ => rejected(UploadError::BadRequest, "No request in progress"),
        },
        ChunkStage::FindingUpload => match event {
            Event::UploadItem(Some(item)) => {
                match UploadStatus::from_str(&item.status) {
                    Some(UploadStatus::Completed) => rejected(
                        UploadError::BadRequest,
                        "File already completed",
                    ),
                    _ => (ChunkStage::CreatingDir, Action::CreateDirAll { path: dir }),
                }
            },
            Event::UploadItem(None) => rejected(UploadError::NotFound, "Upload item not found"),
            _ => rejected(UploadError::RepositoryError, "Failed to query upload item"),
        },
        ChunkStage::CreatingDir => match event {
            Event::Done => (
                ChunkStage::FindingChunk,
                Action::GetChunkByNumber {
                    upload_id: form.file_id.clone(),
                    chunk_number: form.chunk_number,
                },
            ),
            _ => rejected(UploadError::IoError, "Failed to create directory"),
        },
        ChunkStage::FindingChunk => match event {
            Event::Chunk(Some(chunk)) => (
                ChunkStage::CheckingExisting { chunk },
                Action::HashFile { path },
            ),
            Event::Chunk(None) => (
                ChunkStage::ClearingLeftover,
                Action::DeleteFileIfExists { path },
            ),
            _ => rejected(UploadError::RepositoryError, "Failed to get chunk"),
        },
        ChunkStage::CheckingExisting { chunk } => match event {
            Event::FileHash(Some(actual)) => {
                if actual == chunk.chunk_hash {
                    (ChunkStage::Finished, Action::Respond(Reply::ChunkAlreadyUploaded))
                } else {
                    (
                        ChunkStage::RemovingStaleFile { chunk_id: chunk.id },
                        Action::DeleteFileIfExists { path },
                    )
                }
            },
            Event::FileHash(None) => (
                ChunkStage::RemovingStaleFile { chunk_id: chunk.id },
                Action::DeleteFileIfExists { path },
            ),
            _ => rejected(UploadError::IoError, "Failed to check existing chunk"),
        },
        ChunkStage::RemovingStaleFile { chunk_id } => match event {
            Event::Done => (
                ChunkStage::RemovingStaleRecord,
                Action::DeleteChunkById { chunk_id },
            ),
            _ => rejected(UploadError::IoError, "Failed to delete invalid chunk"),
        },
        ChunkStage::RemovingStaleRecord => match event {
            Event::Done => save(path),
            _ => rejected(UploadError::RepositoryError, "Failed to delete invalid chunk"),
        },
        ChunkStage::ClearingLeftover => match event {
            Event::Done => save(path),
            _ => rejected(UploadError::IoError, "Failed to delete invalid chunk"),
        },
        ChunkStage::SavingChunk => match event {
            Event::Saved(size) => {
                if size <= i64::MAX as u64 {
                    (
                        ChunkStage::VerifyingChunk { chunk_size: size as i64 },
                        Action::HashFile { path },
                    )
                } else {
                    discard(path, Discard::NotSaved)
                }
            },
            _ => discard(path, Discard::NotSaved),
        },
        ChunkStage::VerifyingChunk { chunk_size } => {
            let matches = match event {
                Event::FileHash(Some(actual)) => actual == form.chunk_hash,
                _ => false,
            };
            if matches {
                (
                    ChunkStage::RecordingChunk,
                    Action::InsertChunk {
                        chunk: Chunk {
                            id: 0,
                            upload_id: form.file_id.clone(),
                            chunk_number: form.chunk_number,
                            chunk_size,
                            chunk_hash: form.chunk_hash.clone(),
                        },
                    },
                )
            } else {
                discard(path, Discard::HashMismatch)
            }
        },
        ChunkStage::DiscardingChunk { cause } => match cause {
            Discard::NotSaved => rejected(UploadError::IoError, "Failed to save chunk"),
            Discard::HashMismatch => rejected(
                UploadError::BadRequest,
                "Chunk hash verification failed",
            ),
            Discard::NotRecorded => rejected(
                UploadError::RepositoryError,
                "Failed to insert chunk",
            ),
        },
        ChunkStage::RecordingChunk => match event {
            Event::Done => (ChunkStage::Finished, Action::Respond(Reply::ChunkUploaded)),
            Event::Duplicate => (
                ChunkStage::Finished,
                Action::Respond(Reply::ChunkAlreadyUploaded),
            ),
            _ => discard(path, Discard::NotRecorded),
        },
        ChunkStage::Finished => rejected(UploadError::BadRequest, "No request in progress"),
    }
}

} // verus!
