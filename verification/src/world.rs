use crate::digest::sha256_hex;
use crate::host::{ActionView, EventView};
use crate::paths::candidate_path;
use crate::protocol::{ReplyView, UploadError};
use crate::records::{ChunkView, UploadItemView};
use vstd::prelude::*;

verus! {

/// What a host keeps for the upload engine, as far as the engine can tell:
/// the upload sessions by id, the chunk records by session and number, and
/// the files by path. A host that never fails behaves as `perform` says; it
/// turns away what would break the constraints of the repository.
pub struct World {
    pub uploads: Map<Seq<char>, UploadItemView>,
    pub chunks: Map<(Seq<char>, int), ChunkView>,
    pub files: Map<Seq<char>, Seq<u8>>,
}

impl World {
    /// The constraints of the repository: every session and chunk record is
    /// stored under its own key, no two sessions have the same file path, no
    /// two chunk records have the same id, and every chunk record belongs to
    /// a session.
    pub open spec fn wf(self) -> bool {
        &&& forall|id: Seq<char>| #[trigger]
            self.uploads.contains_key(id) ==> self.uploads[id].id == id
        &&& forall|id: Seq<char>| #[trigger]
            self.uploads.contains_key(id) ==> !path_in_use(
                self.uploads,
                self.uploads[id].file_path,
                id,
            )
        &&& forall|key: (Seq<char>, int)| #[trigger]
            self.chunks.contains_key(key) ==> self.chunks[key].upload_id == key.0
                && self.chunks[key].chunk_number == key.1 && self.uploads.contains_key(key.0)
        &&& forall|a: (Seq<char>, int), b: (Seq<char>, int)|
            self.chunks.contains_key(a) && self.chunks.contains_key(b) && (
            #[trigger] self.chunks[a]).id == (#[trigger] self.chunks[b]).id ==> a == b
    }

    /// No file is longer than a length can say.
    pub open spec fn measurable(self) -> bool {
        forall|path: Seq<char>| #[trigger]
            self.files.contains_key(path) ==> self.files[path].len() <= u64::MAX
    }

    /// Whether there is a file at the path whose digest is the given one.
    pub open spec fn file_has_digest(self, path: Seq<char>, digest: Seq<char>) -> bool {
        self.files.contains_key(path) && sha256_hex(self.files[path]) == digest
    }
}

/// Whether a session other than the given one has the given file path.
pub open spec fn path_in_use(
    uploads: Map<Seq<char>, UploadItemView>,
    path: Seq<char>,
    but: Seq<char>,
) -> bool {
    exists|id: Seq<char>|
        id != but && #[trigger] uploads.contains_key(id) && uploads[id].file_path == path
}

/// The key under which a chunk record is stored.
pub open spec fn chunk_key(chunk: ChunkView) -> (Seq<char>, int) {
    (chunk.upload_id, chunk.chunk_number as int)
}

/// Whether no chunk record has the given id.
pub open spec fn chunk_id_unused(chunks: Map<(Seq<char>, int), ChunkView>, id: i32) -> bool {
    forall|key: (Seq<char>, int)| #[trigger] chunks.contains_key(key) ==> chunks[key].id != id
}

/// An id that no chunk record has, where there is one.
pub open spec fn unused_chunk_id(chunks: Map<(Seq<char>, int), ChunkView>) -> i32 {
    choose|id: i32| chunk_id_unused(chunks, id)
}

/// The chunk records but those with the given id.
pub open spec fn without_chunk_id(chunks: Map<(Seq<char>, int), ChunkView>, id: i32) -> Map<
    (Seq<char>, int),
    ChunkView,
> {
    Map::new(
        |key: (Seq<char>, int)| chunks.contains_key(key) && chunks[key].id != id,
        |key: (Seq<char>, int)| chunks[key],
    )
}

/// The chunk records but those of the given session.
pub open spec fn without_upload(chunks: Map<(Seq<char>, int), ChunkView>, upload_id: Seq<char>)
    -> Map<(Seq<char>, int), ChunkView> {
    Map::new(
        |key: (Seq<char>, int)| chunks.contains_key(key) && key.0 != upload_id,
        |key: (Seq<char>, int)| chunks[key],
    )
}

/// Whether a list holds each chunk record of a session once and nothing
/// else.
pub open spec fn lists_chunks_of(
    list: Seq<ChunkView>,
    chunks: Map<(Seq<char>, int), ChunkView>,
    upload_id: Seq<char>,
) -> bool {
    &&& forall|i: int|
        0 <= i < list.len() ==> (#[trigger] list[i]).upload_id == upload_id && chunks.contains_key(
            chunk_key(list[i]),
        ) && chunks[chunk_key(list[i])] == list[i]
    &&& forall|i: int, j: int|
        0 <= i < j < list.len() ==> (#[trigger] list[i]).chunk_number != (
        #[trigger] list[j]).chunk_number
    &&& forall|number: int| #[trigger]
        chunks.contains_key((upload_id, number)) ==> exists|i: int|
            0 <= i < list.len() && #[trigger] list[i] == chunks[(upload_id, number)]
}

/// The chunk records of a session in the order in which the repository
/// lists them, of which nothing is known.
pub open spec fn listed_chunks(chunks: Map<(Seq<char>, int), ChunkView>, upload_id: Seq<char>)
    -> Seq<ChunkView> {
    choose|list: Seq<ChunkView>| lists_chunks_of(list, chunks, upload_id)
}

/// Whether a path lies below a directory.
pub open spec fn lies_below(path: Seq<char>, dir: Seq<char>) -> bool {
    path.len() > dir.len() && path.subrange(0, dir.len() as int + 1) == dir + seq!['/']
}

/// The files but those below the given directory.
pub open spec fn without_dir(files: Map<Seq<char>, Seq<u8>>, dir: Seq<char>) -> Map<
    Seq<char>,
    Seq<u8>,
> {
    Map::new(
        |path: Seq<char>| files.contains_key(path) && !lies_below(path, dir),
        |path: Seq<char>| files[path],
    )
}

/// The first attempt of `candidate_path` at which no file exists, where
/// there is one.
pub open spec fn first_free_attempt(files: Map<Seq<char>, Seq<u8>>, path: Seq<char>) -> nat {
    choose|attempt: nat|
        !files.contains_key(#[trigger] candidate_path(path, attempt)) && forall|earlier: nat|
            earlier < attempt ==> files.contains_key(#[trigger] candidate_path(path, earlier))
}

/// What a host that never fails does for an action, and what it reports.
/// `body` holds the bytes that came with the request.
pub open spec fn perform(world: World, action: ActionView, body: Seq<u8>) -> (World, EventView) {
    match action {
        ActionView::GetUploadItem { upload_id } => (
            world,
            EventView::UploadItem(
                if world.uploads.contains_key(upload_id) {
                    Some(world.uploads[upload_id])
                } else {
                    None
                },
            ),
        ),
        ActionView::InsertUploadItem { item } => if world.uploads.contains_key(item.id)
            || path_in_use(world.uploads, item.file_path, item.id) {
            (world, EventView::Duplicate)
        } else {
            (World { uploads: world.uploads.insert(item.id, item), ..world }, EventView::Done)
        },
        ActionView::UpdateUploadItem { item } => if world.uploads.contains_key(item.id)
            && !path_in_use(world.uploads, item.file_path, item.id) {
            (World { uploads: world.uploads.insert(item.id, item), ..world }, EventView::Done)
        } else {
            (world, EventView::Failed)
        },
        ActionView::DeleteUploadItem { upload_id } => (
            World {
                uploads: world.uploads.remove(upload_id),
                chunks: without_upload(world.chunks, upload_id),
                ..world
            },
            EventView::Done,
        ),
        ActionView::GetUploadChunks { upload_id } => (
            world,
            EventView::Chunks(listed_chunks(world.chunks, upload_id)),
        ),
        ActionView::GetChunkByNumber { upload_id, chunk_number } => (
            world,
            EventView::Chunk(
                if world.chunks.contains_key((upload_id, chunk_number as int)) {
                    Some(world.chunks[(upload_id, chunk_number as int)])
                } else {
                    None
                },
            ),
        ),
        ActionView::InsertChunk { chunk } => if world.chunks.contains_key(chunk_key(chunk)) {
            (world, EventView::Duplicate)
        } else if !world.uploads.contains_key(chunk.upload_id) {
            (world, EventView::Failed)
        } else {
            (
                World {
                    chunks: world.chunks.insert(
                        chunk_key(chunk),
                        ChunkView { id: unused_chunk_id(world.chunks), ..chunk },
                    ),
                    ..world
                },
                EventView::Done,
            )
        },
        ActionView::DeleteChunkById { chunk_id } => (
            World { chunks: without_chunk_id(world.chunks, chunk_id), ..world },
            EventView::Done,
        ),
        ActionView::HashFile { path } => (
            world,
            EventView::FileHash(
                if world.files.contains_key(path) {
                    Some(sha256_hex(world.files[path]))
                } else {
                    None
                },
            ),
        ),
        ActionView::DeleteFileIfExists { path } => (
            World { files: world.files.remove(path), ..world },
            EventView::Done,
        ),
        ActionView::CreateDirAll { path } => (world, EventView::Done),
        ActionView::SaveChunk { path } => (
            World { files: world.files.insert(path, body), ..world },
            EventView::Saved(body.len() as u64),
        ),
        ActionView::CreateFile { path } => (
            World { files: world.files.insert(path, Seq::<u8>::empty()), ..world },
            EventView::Done,
        ),
        ActionView::AppendFile { source, target } => if world.files.contains_key(source)
            && world.files.contains_key(target) {
            (
                World {
                    files: world.files.insert(target, world.files[target] + world.files[source]),
                    ..world
                },
                EventView::Appended(Some(world.files[source].len() as u64)),
            )
        } else if world.files.contains_key(target) {
            (world, EventView::Appended(None))
        } else {
            (world, EventView::Failed)
        },
        ActionView::RemoveDirAll { path } => (
            World { files: without_dir(world.files, path), ..world },
            EventView::Done,
        ),
        ActionView::FindAvailableFilename { path } => (
            world,
            EventView::Filename(candidate_path(path, first_free_attempt(world.files, path))),
        ),
        ActionView::Respond(reply) => (world, EventView::Start),
    }
}

/// A rejection as an answer.
pub open spec fn rejection(error: UploadError, message: Seq<char>) -> ReplyView {
    ReplyView::Rejected { error, message }
}

/// A host that behaves as `perform` says keeps the constraints of the
/// repository, whatever it is asked for, as long as it has an id left for a
/// new chunk record.
pub proof fn lemma_perform_keeps_constraints(world: World, action: ActionView, body: Seq<u8>)
    requires
        world.wf(),
        action is InsertChunk ==> chunk_id_unused(world.chunks, unused_chunk_id(world.chunks)),
    ensures
        perform(world, action, body).0.wf(),
{
    let after = perform(world, action, body).0;
    match action {
        ActionView::InsertUploadItem { item } => {
            if !(world.uploads.contains_key(item.id) || path_in_use(
                world.uploads,
                item.file_path,
                item.id,
            )) {
                assert forall|id: Seq<char>| #[trigger]
                    after.uploads.contains_key(id) implies !path_in_use(
                    after.uploads,
                    after.uploads[id].file_path,
                    id,
                ) by {
                    if id != item.id {
                        assert(world.uploads.contains_key(id));
                        assert(!path_in_use(world.uploads, world.uploads[id].file_path, id));
                    }
                }
            }
        },
        ActionView::UpdateUploadItem { item } => {
            if world.uploads.contains_key(item.id) && !path_in_use(
                world.uploads,
                item.file_path,
                item.id,
            ) {
                assert forall|id: Seq<char>| #[trigger]
                    after.uploads.contains_key(id) implies !path_in_use(
                    after.uploads,
                    after.uploads[id].file_path,
                    id,
                ) by {
                    if id != item.id {
                        assert(world.uploads.contains_key(id));
                        assert(!path_in_use(world.uploads, world.uploads[id].file_path, id));
                    }
                }
            }
        },
        ActionView::DeleteUploadItem { upload_id } => {
            assert forall|id: Seq<char>| #[trigger]
                after.uploads.contains_key(id) implies !path_in_use(
                after.uploads,
                after.uploads[id].file_path,
                id,
            ) by {
                assert(world.uploads.contains_key(id));
                assert(!path_in_use(world.uploads, world.uploads[id].file_path, id));
            }
        },
        _ => {},
    }
}

} // verus!
