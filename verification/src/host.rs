use crate::protocol::{Reply, ReplyView};
use crate::records::{chunk_views, Chunk, ChunkView, UploadItem, UploadItemView};
use vstd::prelude::*;

verus! {

/// What the upload engine asks of its host: one operation on the repository
/// or on the file system, or the answer to send, which ends the request.
#[derive(Debug)]
pub enum Action {
    /// Look an upload session up by its id.
    GetUploadItem { upload_id: String },
    /// Store a new upload session.
    InsertUploadItem { item: UploadItem },
    /// Store the changed fields of an upload session.
    UpdateUploadItem { item: UploadItem },
    /// Delete an upload session together with its chunk records.
    DeleteUploadItem { upload_id: String },
    /// List the chunk records of a session.
    GetUploadChunks { upload_id: String },
    /// Look up the chunk record of a session with a given number.
    GetChunkByNumber { upload_id: String, chunk_number: i32 },
    /// Store a new chunk record; the repository assigns its id.
    InsertChunk { chunk: Chunk },
    /// Delete one chunk record.
    DeleteChunkById { chunk_id: i32 },
    /// Compute the digest of the file at a path, if there is one.
    HashFile { path: String },
    /// Delete the file at a path; a missing file is no failure.
    DeleteFileIfExists { path: String },
    /// Create a directory and its parents.
    CreateDirAll { path: String },
    /// Write the bytes that came with the request to a path, replacing any
    /// file there.
    SaveChunk { path: String },
    /// Create an empty file at a path, and its directory, replacing any file
    /// there.
    CreateFile { path: String },
    /// Append the content of one file to another.
    AppendFile { source: String, target: String },
    /// Remove a directory with everything in it.
    RemoveDirAll { path: String },
    /// Find a path beside the given one at which no file exists yet.
    FindAvailableFilename { path: String },
    /// Send the answer.
    Respond(Reply),
}

/// `Action` as a value of texts, sequences and numbers.
pub enum ActionView {
    GetUploadItem { upload_id: Seq<char> },
    InsertUploadItem { item: UploadItemView },
    UpdateUploadItem { item: UploadItemView },
    DeleteUploadItem { upload_id: Seq<char> },
    GetUploadChunks { upload_id: Seq<char> },
    GetChunkByNumber { upload_id: Seq<char>, chunk_number: i32 },
    InsertChunk { chunk: ChunkView },
    DeleteChunkById { chunk_id: i32 },
    HashFile { path: Seq<char> },
    DeleteFileIfExists { path: Seq<char> },
    CreateDirAll { path: Seq<char> },
    SaveChunk { path: Seq<char> },
    CreateFile { path: Seq<char> },
    AppendFile { source: Seq<char>, target: Seq<char> },
    RemoveDirAll { path: Seq<char> },
    FindAvailableFilename { path: Seq<char> },
    Respond(ReplyView),
}

impl View for Action {
    type V = ActionView;

    open spec fn view(&self) -> ActionView {
        match self {
            Action::GetUploadItem { upload_id } => ActionView::GetUploadItem {
                upload_id: upload_id@,
            },
            Action::InsertUploadItem { item } => ActionView::InsertUploadItem { item: item@ },
            Action::UpdateUploadItem { item } => ActionView::UpdateUploadItem { item: item@ },
            Action::DeleteUploadItem { upload_id } => ActionView::DeleteUploadItem {
                upload_id: upload_id@,
            },
            Action::GetUploadChunks { upload_id } => ActionView::GetUploadChunks {
                upload_id: upload_id@,
            },
            Action::GetChunkByNumber { upload_id, chunk_number } => ActionView::GetChunkByNumber {
                upload_id: upload_id@,
                chunk_number: *chunk_number,
            },
            Action::InsertChunk { chunk } => ActionView::InsertChunk { chunk: chunk@ },
            Action::DeleteChunkById { chunk_id } => ActionView::DeleteChunkById {
                chunk_id: *chunk_id,
            },
            Action::HashFile { path } => ActionView::HashFile { path: path@ },
            Action::DeleteFileIfExists { path } => ActionView::DeleteFileIfExists { path: path@ },
            Action::CreateDirAll { path } => ActionView::CreateDirAll { path: path@ },
            Action::SaveChunk { path } => ActionView::SaveChunk { path: path@ },
            Action::CreateFile { path } => ActionView::CreateFile { path: path@ },
            Action::AppendFile { source, target } => ActionView::AppendFile {
                source: source@,
                target: target@,
            },
            Action::RemoveDirAll { path } => ActionView::RemoveDirAll { path: path@ },
            Action::FindAvailableFilename { path } => ActionView::FindAvailableFilename {
                path: path@,
            },
            Action::Respond(reply) => ActionView::Respond(reply@),
        }
    }
}

/// What the host reports back: the arrival of a request, or the result of
/// the operation that was asked for last.
#[derive(Debug)]
pub enum Event {
    /// A request has arrived.
    Start,
    /// The operation failed.
    Failed,
    /// The operation succeeded and has nothing to report.
    Done,
    /// An insert met a record with the same key.
    Duplicate,
    /// The upload session that was looked up, if there is one.
    UploadItem(Option<UploadItem>),
    /// The chunk records of a session, in the repository's order.
    Chunks(Vec<Chunk>),
    /// The chunk record that was looked up, if there is one.
    Chunk(Option<Chunk>),
    /// The digest of a file, or `None` where there is no file.
    FileHash(Option<String>),
    /// The number of bytes written for a chunk.
    Saved(u64),
    /// The number of bytes appended, or `None` where the source is missing.
    Appended(Option<u64>),
    /// A path at which no file exists.
    Filename(String),
}

/// `Event` as a value of texts, sequences and numbers.
pub enum EventView {
    Start,
    Failed,
    Done,
    Duplicate,
    UploadItem(Option<UploadItemView>),
    Chunks(Seq<ChunkView>),
    Chunk(Option<ChunkView>),
    FileHash(Option<Seq<char>>),
    Saved(u64),
    Appended(Option<u64>),
    Filename(Seq<char>),
}

impl View for Event {
    type V = EventView;

    open spec fn view(&self) -> EventView {
        match self {
            Event::Start => EventView::Start,
            Event::Failed => EventView::Failed,
            Event::Done => EventView::Done,
            Event::Duplicate => EventView::Duplicate,
            Event::UploadItem(item) => EventView::UploadItem(
                match item {
                    Some(item) => Some(item@),
                    None => None,
                },
            ),
            Event::Chunks(chunks) => EventView::Chunks(chunk_views(chunks@)),
            Event::Chunk(chunk) => EventView::Chunk(
                match chunk {
                    Some(chunk) => Some(chunk@),
                    None => None,
                },
            ),
            Event::FileHash(hash) => EventView::FileHash(
                match hash {
                    Some(hash) => Some(hash@),
                    None => None,
                },
            ),
            Event::Saved(size) => EventView::Saved(*size),
            Event::Appended(size) => EventView::Appended(*size),
            Event::Filename(path) => EventView::Filename(path@),
        }
    }
}

} // verus!
