use crate::records::UploadStatus;
use vstd::prelude::*;
use vstd::string::StringExecFns;

verus! {

/// What a client sends to begin or resume an upload.
#[derive(Debug)]
pub struct InitUploadRequest {
    pub file_name: String,
    pub file_size: i64,
    pub file_hash: String,
}

/// `InitUploadRequest` as a value of texts, sequences and numbers.
pub struct InitUploadRequestView {
    pub file_name: Seq<char>,
    pub file_size: i64,
    pub file_hash: Seq<char>,
}

impl View for InitUploadRequest {
    type V = InitUploadRequestView;

    open spec fn view(&self) -> InitUploadRequestView {
        InitUploadRequestView {
            file_name: self.file_name@,
            file_size: self.file_size,
            file_hash: self.file_hash@,
        }
    }
}

/// What the client learns from it: the session's state and which chunks it
/// need not send again.
#[derive(Debug)]
pub struct InitUploadResponse {
    pub file_id: String,
    pub status: UploadStatus,
    pub uploaded_chunks: Vec<i32>,
    pub uploaded_size: i64,
}

/// `InitUploadResponse` as a value of texts, sequences and numbers.
pub struct InitUploadResponseView {
    pub file_id: Seq<char>,
    pub status: UploadStatus,
    pub uploaded_chunks: Seq<i32>,
    pub uploaded_size: i64,
}

impl View for InitUploadResponse {
    type V = InitUploadResponseView;

    open spec fn view(&self) -> InitUploadResponseView {
        InitUploadResponseView {
            file_id: self.file_id@,
            status: self.status,
            uploaded_chunks: self.uploaded_chunks@,
            uploaded_size: self.uploaded_size,
        }
    }
}

/// What accompanies the bytes of one chunk. Chunk numbers start at 1.
#[derive(Debug)]
pub struct Metadata {
    pub file_id: String,
    pub chunk_number: i32,
    pub chunk_hash: String,
}

/// `Metadata` as a value of texts, sequences and numbers.
pub struct MetadataView {
    pub file_id: Seq<char>,
    pub chunk_number: i32,
    pub chunk_hash: Seq<char>,
}

impl View for Metadata {
    type V = MetadataView;

    open spec fn view(&self) -> MetadataView {
        MetadataView {
            file_id: self.file_id@,
            chunk_number: self.chunk_number,
            chunk_hash: self.chunk_hash@,
        }
    }
}

/// What a client sends to have the chunks of a session merged.
#[derive(Debug)]
pub struct CompleteUploadRequest {
    pub file_id: String,
}

/// The kinds of failure of the upload protocol.
#[derive(Clone, Copy, Debug, PartialEq, Eq, Structural)]
pub enum UploadError {
    NotFound,
    BadRequest,
    SizeMismatch,
    ChunkMissing,
    IntegrityFailure,
    IoError,
    RepositoryError,
}

/// The answer to one request of the upload protocol.
#[derive(Debug)]
pub enum Reply {
    Init(InitUploadResponse),
    ChunkUploaded,
    ChunkAlreadyUploaded,
    UploadCompleted { file_path: String },
    Rejected { error: UploadError, message: String },
}

/// `Reply` as a value of texts, sequences and numbers.
pub enum ReplyView {
    Init(InitUploadResponseView),
    ChunkUploaded,
    ChunkAlreadyUploaded,
    UploadCompleted { file_path: Seq<char> },
    Rejected { error: UploadError, message: Seq<char> },
}

impl View for Reply {
    type V = ReplyView;

    open spec fn view(&self) -> ReplyView {
        match self {
            Reply::Init(response) => ReplyView::Init(response@),
            Reply::ChunkUploaded => ReplyView::ChunkUploaded,
            Reply::ChunkAlreadyUploaded => ReplyView::ChunkAlreadyUploaded,
            Reply::UploadCompleted { file_path } => ReplyView::UploadCompleted {
                file_path: file_path@,
            },
            Reply::Rejected { error, message } => ReplyView::Rejected {
                error: *error,
                message: message@,
            },
        }
    }
}

/// The HTTP status of a failure: 404 where something is unknown, 400 where
/// the request is at fault, 500 for everything else.
pub open spec fn error_status(error: UploadError) -> u16 {
    match error {
        UploadError::NotFound => 404,
        UploadError::BadRequest => 400,
        _ => 500,
    }
}

/// The HTTP status of an answer: 200 unless it is a rejection.
pub open spec fn reply_status(reply: ReplyView) -> u16 {
    match reply {
        ReplyView::Rejected { error, message } => error_status(error),
        _ => 200,
    }
}

/// The text sent with an answer that carries no JSON body.
pub open spec fn reply_text(reply: ReplyView) -> Seq<char> {
    match reply {
        ReplyView::Init(response) => Seq::<char>::empty(),
        ReplyView::ChunkUploaded => "Chunk uploaded successfully"@,
        ReplyView::ChunkAlreadyUploaded => "Chunk already uploaded"@,
        ReplyView::UploadCompleted { file_path } => "File uploaded and verified successfully"@,
        ReplyView::Rejected { error, message } => message,
    }
}

impl UploadError {
    pub fn status_code(&self) -> (code: u16)
        ensures
            code == error_status(*self),
    {
        match self {
            UploadError::NotFound => 404,
            UploadError::BadRequest => 400,
            _ => 500,
        }
    }
}

impl Reply {
    pub fn status_code(&self) -> (code: u16)
        ensures
            code == reply_status(self@),
    {
        match self {
            Reply::Rejected { error, message } => error.status_code(),
            _ => 200,
        }
    }

    pub fn text(&self) -> (text: String)
        ensures
            text@ == reply_text(self@),
    {
        match self {
            Reply::Init(response) => String::new(),
            Reply::ChunkUploaded => String::from_str("Chunk uploaded successfully"),
            Reply::ChunkAlreadyUploaded => String::from_str("Chunk already uploaded"),
            Reply::UploadCompleted { file_path } => String::from_str(
                "File uploaded and verified successfully",
            ),
            Reply::Rejected { error, message } => message.clone(),
        }
    }
}

} // verus!
