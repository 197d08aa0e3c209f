use crate::chunk_list::{sort_by_number, sort_chunks, total_chunk_size, total_size};
use crate::host::{Action, ActionView, Event, EventView};
use crate::paths::{chunk_file_path, get_chunk_file, upload_dir, upload_dir_path};
use crate::protocol::{CompleteUploadRequest, Reply, ReplyView, UploadError};
use crate::records::{
    chunk_views, status_text, Chunk, ChunkView, UploadItem, UploadItemView, UploadStatus,
};
use crate::setting::Settings;
use vstd::prelude::*;
use vstd::string::StringExecFns;

verus! {

/// How far the completion of an upload has come: each stage but the first
/// and the last waits for the result of the operation it is named after.
#[derive(Debug)]
pub enum CompleteStage {
    Received,
    FindingUpload,
    ListingChunks { item: UploadItem },
    CreatingOutput { item: UploadItem, plan: Vec<Chunk> },
    Appending { item: UploadItem, plan: Vec<Chunk>, next: usize, written: u64 },
    VerifyingOutput { item: UploadItem },
    MarkingCompleted { item: UploadItem },
    RemovingChunks { item: UploadItem },
    Finished,
}

/// `CompleteStage` as a value of texts, sequences and numbers.
pub enum CompleteStageView {
    Received,
    FindingUpload,
    ListingChunks { item: UploadItemView },
    CreatingOutput { item: UploadItemView, plan: Seq<ChunkView> },
    Appending { item: UploadItemView, plan: Seq<ChunkView>, next: usize, written: u64 },
    VerifyingOutput { item: UploadItemView },
    MarkingCompleted { item: UploadItemView },
    RemovingChunks { item: UploadItemView },
    Finished,
}

impl View for CompleteStage {
    type V = CompleteStageView;

    open spec fn view(&self) -> CompleteStageView {
        match self {
            CompleteStage::Received => CompleteStageView::Received,
            CompleteStage::FindingUpload => CompleteStageView::FindingUpload,
            CompleteStage::ListingChunks { item } => CompleteStageView::ListingChunks {
                item: item@,
            },
            CompleteStage::CreatingOutput { item, plan } => CompleteStageView::CreatingOutput {
                item: item@,
                plan: chunk_views(plan@),
            },
            CompleteStage::Appending { item, plan, next, written } => CompleteStageView::Appending {
                item: item@,
                plan: chunk_views(plan@),
                next: *next,
                written: *written,
            },
            CompleteStage::VerifyingOutput { item } => CompleteStageView::VerifyingOutput {
                item: item@,
            },
            CompleteStage::MarkingCompleted { item } => CompleteStageView::MarkingCompleted {
                item: item@,
            },
            CompleteStage::RemovingChunks { item } => CompleteStageView::RemovingChunks {
                item: item@,
            },
            CompleteStage::Finished => CompleteStageView::Finished,
        }
    }
}

/// The end of a request with a rejection.
pub open spec fn complete_rejected(error: UploadError, message: Seq<char>) -> (
    CompleteStageView,
    ActionView,
) {
    (CompleteStageView::Finished, ActionView::Respond(ReplyView::Rejected { error, message }))
}

/// The end of a request because the merge failed.
pub open spec fn merge_rejected(error: UploadError) -> (CompleteStageView, ActionView) {
    complete_rejected(error, "Failed to merge chunks"@)
}

/// A session as it is stored once its file is complete.
pub open spec fn completed_item(item: UploadItemView) -> UploadItemView {
    UploadItemView { status: status_text(UploadStatus::Completed), ..item }
}

/// What follows once `next` chunks of the plan, `written` bytes in all, have
/// been appended: the next chunk's file is appended; after the last one the
/// bytes written must be as many as declared, and the digest of the file is
/// asked for.
pub open spec fn merge_next(
    storage_folder: Seq<char>,
    item: UploadItemView,
    plan: Seq<ChunkView>,
    next: usize,
    written: u64,
) -> (CompleteStageView, ActionView) {
    if next < plan.len() {
        (
            CompleteStageView::Appending { item, plan, next, written },
            ActionView::AppendFile {
                source: chunk_file_path(
                    upload_dir_path(storage_folder, item.id),
                    plan[next as int].chunk_number as int,
                ),
                target: item.file_path,
            },
        )
    } else if written != item.file_size {
        merge_rejected(UploadError::SizeMismatch)
    } else {
        (CompleteStageView::VerifyingOutput { item }, ActionView::HashFile { path: item.file_path })
    }
}

/// The rules of the merge, for the stages from the listing of the chunks to
/// the digest of the merged file.
///
/// The chunks on record are put in ascending order of their numbers. Their
/// sizes must add up to the size declared before the file is created. The
/// chunk files are then appended in that order; a missing chunk file ends
/// the merge, as do more bytes than declared. The digest of the merged file
/// must be the session's id. Where the merge fails, what has been written of
/// the file is left in place for whoever looks into the failure.
pub open spec fn merge_chunks_step(
    storage_folder: Seq<char>,
    stage: CompleteStageView,
    event: EventView,
) -> (CompleteStageView, ActionView) {
    match stage {
        CompleteStageView::ListingChunks { item } => match event {
            EventView::Chunks(chunks) => if total_size(chunks) != item.file_size {
                merge_rejected(UploadError::SizeMismatch)
            } else {
                (
                    CompleteStageView::CreatingOutput { item, plan: sort_by_number(chunks) },
                    ActionView::CreateFile { path: item.file_path },
                )
            },
            _ => merge_rejected(UploadError::RepositoryError),
        },
        CompleteStageView::CreatingOutput { item, plan } => match event {
            EventView::Done => merge_next(storage_folder, item, plan, 0, 0),
            _ => merge_rejected(UploadError::IoError),
        },
        CompleteStageView::Appending { item, plan, next, written } => match event {
            EventView::Appended(Some(size)) => if next >= plan.len() {
                merge_rejected(UploadError::IoError)
            } else if written + size > item.file_size {
                merge_rejected(UploadError::SizeMismatch)
            } else {
                merge_next(
                    storage_folder,
                    item,
                    plan,
                    (next + 1) as usize,
                    (written + size) as u64,
                )
            },
            EventView::Appended(None) => merge_rejected(UploadError::ChunkMissing),
            _ => merge_rejected(UploadError::IoError),
        },
        CompleteStageView::VerifyingOutput { item } => match event {
            EventView::FileHash(actual) => if actual == Some(item.id) {
                (
                    CompleteStageView::MarkingCompleted { item },
                    ActionView::UpdateUploadItem { item: completed_item(item) },
                )
            } else {
                merge_rejected(UploadError::IntegrityFailure)
            },
            _ => merge_rejected(UploadError::IoError),
        },
        _ => complete_rejected(UploadError::BadRequest, "No request in progress"@),
    }
}

/// The rules for completing an upload: from the stage reached and the host's
/// report to the next stage and what to ask of the host next.
///
/// An unknown session is turned away. The chunks are merged as
/// `merge_chunks_step` lays down; whatever fails there leaves the session
/// as it is. After the merge the session is stored as completed, and the
/// directory of its chunk files is removed; that the removal fails does not
/// change the answer.
pub open spec fn complete_upload_step(
    storage_folder: Seq<char>,
    file_id: Seq<char>,
    stage: CompleteStageView,
    event: EventView,
) -> (CompleteStageView, ActionView) {
    match stage {
        CompleteStageView::Received => match event {
            EventView::Start => (
                CompleteStageView::FindingUpload,
                ActionView::GetUploadItem { upload_id: file_id },
            ),
            _ => complete_rejected(UploadError::BadRequest, "No request in progress"@),
        },
        CompleteStageView::FindingUpload => match event {
            EventView::UploadItem(Some(item)) => (
                CompleteStageView::ListingChunks { item },
                ActionView::GetUploadChunks { upload_id: item.id },
            ),
            EventView::UploadItem(None) => complete_rejected(
                UploadError::NotFound,
                "File not found"@,
            ),
            _ => complete_rejected(
                UploadError::RepositoryError,
                "Failed to query file metadata"@,
            ),
        },
        CompleteStageView::MarkingCompleted { item } => match event {
            EventView::Done => (
                CompleteStageView::RemovingChunks { item },
                ActionView::RemoveDirAll { path: upload_dir_path(storage_folder, item.id) },
            ),
            _ => complete_rejected(
                UploadError::RepositoryError,
                "Failed to update upload item status"@,
            ),
        },
        CompleteStageView::RemovingChunks { item } => (
            CompleteStageView::Finished,
            ActionView::Respond(ReplyView::UploadCompleted { file_path: item.file_path }),
        ),
        CompleteStageView::Finished => complete_rejected(
            UploadError::BadRequest,
            "No request in progress"@,
        ),
        _ => merge_chunks_step(storage_folder, stage, event),
    }
}

fn rejected(error: UploadError, message: &str) -> (next: (CompleteStage, Action))
    ensures
        (next.0@, next.1@) == complete_rejected(error, message@),
{
    (
        CompleteStage::Finished,
        Action::Respond(Reply::Rejected { error, message: String::from_str(message) }),
    )
}

fn merge_failed(error: UploadError) -> (next: (CompleteStage, Action))
    ensures
        (next.0@, next.1@) == merge_rejected(error),
{
    rejected(error, "Failed to merge chunks")
}

fn continue_merge(
    settings: &Settings,
    item: UploadItem,
    plan: Vec<Chunk>,
    next: usize,
    written: u64,
) -> (step: (CompleteStage, Action))
    ensures
        (step.0@, step.1@) == merge_next(
            settings@.storage_folder,
            item@,
            chunk_views(plan@),
            next,
            written,
        ),
{
    if next < plan.len() {
        let dir = upload_dir(&settings.storage_folder, &item.id);
        let source = get_chunk_file(&dir, plan[next].chunk_number);
        let target = item.file_path.clone();
        (
            CompleteStage::Appending { item, plan, next, written },
            Action::AppendFile { source, target },
        )
    } else if item.file_size < 0 || written != item.file_size as u64 {
        merge_failed(UploadError::SizeMismatch)
    } else {
        let path = item.file_path.clone();
        (CompleteStage::VerifyingOutput { item }, Action::HashFile { path })
    }
}

/// Takes the merge of a session's chunks one step further, as
/// `merge_chunks_step` lays down.
pub fn merge_chunks(settings: &Settings, stage: CompleteStage, event: Event) -> (next: (
    CompleteStage,
    Action,
))
    ensures
        (next.0@, next.1@) == merge_chunks_step(settings@.storage_folder, stage@, event@),
{
    match stage {
        CompleteStage::ListingChunks { item } => match event {
            Event::Chunks(chunks) => {
                if total_chunk_size(&chunks) != item.file_size as i128 {
                    merge_failed(UploadError::SizeMismatch)
                } else {
                    let plan = sort_chunks(&chunks);
                    let path = item.file_path.clone();
                    (CompleteStage::CreatingOutput { item, plan }, Action::CreateFile { path })
                }
            },
            _ => merge_failed(UploadError::RepositoryError),
        },
        CompleteStage::CreatingOutput { item, plan } => match event {
            Event::Done => continue_merge(settings, item, plan, 0, 0),
            _ => merge_failed(UploadError::IoError),
        },
        CompleteStage::Appending { item, plan, next, written } => match event {
            Event::Appended(Some(size)) => {
                if next >= plan.len() {
                    merge_failed(UploadError::IoError)
                } else if written as i128 + size as i128 > item.file_size as i128 {
                    merge_failed(UploadError::SizeMismatch)
                } else {
                    continue_merge(settings, item, plan, next + 1, written + size)
                }
            },
            Event::Appended(None) => merge_failed(UploadError::ChunkMissing),
            _ => merge_failed(UploadError::IoError),
        },
        CompleteStage::VerifyingOutput { item } => match event {
            Event::FileHash(Some(actual)) => {
                if actual == item.id {
                    let stored = UploadItem {
                        id: item.id.clone(),
                        file_name: item.file_name.clone(),
                        file_size: item.file_size,
                        file_path: item.file_path.clone(),
                        status: UploadStatus::Completed.to_string(),
                        created_at: item.created_at,
                    };
                    (
                        CompleteStage::MarkingCompleted { item },
                        Action::UpdateUploadItem { item: stored },
                    )
                } else {
                    merge_failed(UploadError::IntegrityFailure)
                }
            },
            Event::FileHash(None) => merge_failed(UploadError::IntegrityFailure),
            _ => merge_failed(UploadError::IoError),
        },
        _ => rejected(UploadError::BadRequest, "No request in progress"),
    }
}

/// Takes the completion of an upload one step further: given the stage
/// reached and what the host reports, says what the host is to do next, as
/// `complete_upload_step` lays down.
pub fn complete_upload(
    settings: &Settings,
    info: &CompleteUploadRequest,
    stage: CompleteStage,
    event: Event,
) -> (next: (CompleteStage, Action))
    ensures
        (next.0@, next.1@) == complete_upload_step(
            settings@.storage_folder,
            info.file_id@,
            stage@,
            event@,
        ),
{
    match stage {
        CompleteStage::Received => match event {
            Event::Start => (
                CompleteStage::FindingUpload,
                Action::GetUploadItem { upload_id: info.file_id.clone() },
            ),
            _ => rejected(UploadError::BadRequest, "No request in progress"),
        },
        CompleteStage::FindingUpload => match event {
            Event::UploadItem(Some(item)) => {
                let upload_id = item.id.clone();
                (CompleteStage::ListingChunks { item }, Action::GetUploadChunks { upload_id })
            },
            Event::UploadItem(None) => rejected(UploadError::NotFound, "File not found"),
            _ => rejected(UploadError::RepositoryError, "Failed to query file metadata"),
        },
        CompleteStage::MarkingCompleted { item } => match event {
            Event::Done => {
                let path = upload_dir(&settings.storage_folder, &item.id);
                (CompleteStage::RemovingChunks { item }, Action::RemoveDirAll { path })
            },
            _ => rejected(UploadError::RepositoryError, "Failed to update upload item status"),
        },
        CompleteStage::RemovingChunks { item } => (
            CompleteStage::Finished,
            Action::Respond(Reply::UploadCompleted { file_path: item.file_path }),
        ),
        CompleteStage::Finished => rejected(UploadError::BadRequest, "No request in progress"),
        _ => merge_chunks(settings, stage, event),
    }
}

} // verus!
