use vstd::prelude::*;
use vstd::string::StringExecFns;

verus! {

/// The two states of an upload session.
#[derive(Clone, Copy, Debug, PartialEq, Eq, Structural)]
pub enum UploadStatus {
    Uploading,
    Completed,
}

/// The text under which a status is stored.
pub open spec fn status_text(status: UploadStatus) -> Seq<char> {
    match status {
        UploadStatus::Uploading => "Uploading"@,
        UploadStatus::Completed => "Completed"@,
    }
}

/// The status that a stored text stands for, if any.
pub open spec fn status_of_text(text: Seq<char>) -> Option<UploadStatus> {
    if text == "Uploading"@ {
        Some(UploadStatus::Uploading)
    } else if text == "Completed"@ {
        Some(UploadStatus::Completed)
    } else {
        None
    }
}

/// Reading back the text of a status gives that status.
pub proof fn lemma_status_text_round_trip(status: UploadStatus)
    ensures
        status_of_text(status_text(status)) == Some(status),
{
    reveal_strlit("Uploading");
    reveal_strlit("Completed");
    assert("Uploading"@[0] != "Completed"@[0]);
}

impl UploadStatus {
    /// Reads a stored status text; `None` for any other text.
    pub fn from_str(text: &String) -> (status: Option<UploadStatus>)
        ensures
            status == status_of_text(text@),
    {
        if *text == String::from_str("Uploading") {
            Some(UploadStatus::Uploading)
        } else if *text == String::from_str("Completed") {
            Some(UploadStatus::Completed)
        } else {
            None
        }
    }

    /// The text under which the status is stored.
    pub fn to_string(&self) -> (text: String)
        ensures
            text@ == status_text(*self),
    {
        match self {
            UploadStatus::Uploading => String::from_str("Uploading"),
            UploadStatus::Completed => String::from_str("Completed"),
        }
    }
}

/// One resumable upload attempt, keyed by the digest of the intended file.
#[derive(Debug)]
pub struct UploadItem {
    pub id: String,
    pub file_name: String,
    pub file_size: i64,
    pub file_path: String,
    pub status: String,
    pub created_at: i64,
}

/// `UploadItem` as a value of texts, sequences and numbers.
pub struct UploadItemView {
    pub id: Seq<char>,
    pub file_name: Seq<char>,
    pub file_size: i64,
    pub file_path: Seq<char>,
    pub status: Seq<char>,
    pub created_at: i64,
}

impl View for UploadItem {
    type V = UploadItemView;

    open spec fn view(&self) -> UploadItemView {
        UploadItemView {
            id: self.id@,
            file_name: self.file_name@,
            file_size: self.file_size,
            file_path: self.file_path@,
            status: self.status@,
            created_at: self.created_at,
        }
    }
}

impl Clone for UploadItem {
    fn clone(&self) -> (copy: UploadItem)
        ensures
            copy@ == self@,
    {
        UploadItem {
            id: self.id.clone(),
            file_name: self.file_name.clone(),
            file_size: self.file_size,
            file_path: self.file_path.clone(),
            status: self.status.clone(),
            created_at: self.created_at,
        }
    }
}

/// One stored, verified chunk of an upload session.
#[derive(Debug)]
pub struct Chunk {
    pub id: i32,
    pub upload_id: String,
    pub chunk_number: i32,
    pub chunk_size: i64,
    pub chunk_hash: String,
}

/// `Chunk` as a value of texts, sequences and numbers.
pub struct ChunkView {
    pub id: i32,
    pub upload_id: Seq<char>,
    pub chunk_number: i32,
    pub chunk_size: i64,
    pub chunk_hash: Seq<char>,
}

impl View for Chunk {
    type V = ChunkView;

    open spec fn view(&self) -> ChunkView {
        ChunkView {
            id: self.id,
            upload_id: self.upload_id@,
            chunk_number: self.chunk_number,
            chunk_size: self.chunk_size,
            chunk_hash: self.chunk_hash@,
        }
    }
}

impl Clone for Chunk {
    fn clone(&self) -> (copy: Chunk)
        ensures
            copy@ == self@,
    {
        Chunk {
            id: self.id,
            upload_id: self.upload_id.clone(),
            chunk_number: self.chunk_number,
            chunk_size: self.chunk_size,
            chunk_hash: self.chunk_hash.clone(),
        }
    }
}

/// The views of a list of chunks, in the same order.
pub open spec fn chunk_views(chunks: Seq<Chunk>) -> Seq<ChunkView> {
    chunks.map_values(|chunk: Chunk| chunk@)
}

/// A file made available for download.
#[derive(Debug)]
pub struct ShareEntry {
    pub id: i64,
    pub file_name: String,
    pub file_path: String,
    pub mime_type: String,
}

} // verus!
