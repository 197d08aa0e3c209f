use crate::chunk_list::{chunk_numbers, sort_by_number, total_size};
use crate::complete_laws::chunk_path_of;
use crate::host::{ActionView, EventView};
use crate::init::{
    cleanup_next, fresh_response, init_upload_step, new_upload_item, CleanupView, InitStageView,
};
use crate::paths::{candidate_path, destination_path, lemma_chunk_files_distinct, upload_dir_path};
use crate::protocol::{InitUploadRequestView, InitUploadResponseView, ReplyView, UploadError};
use crate::records::{status_of_text, ChunkView, UploadItemView, UploadStatus};
use crate::world::{
    chunk_key, first_free_attempt, listed_chunks, lists_chunks_of, path_in_use, perform,
    rejection, without_chunk_id, without_upload, World,
};
use vstd::prelude::*;

verus! {

/// The start of an upload from a stage and a pending action on, by a host
/// that never fails: the answer, if one is reached within `fuel` operations,
/// and what the host then holds.
pub open spec fn run_init_upload(
    storage_folder: Seq<char>,
    info: InitUploadRequestView,
    now: i64,
    stage: InitStageView,
    action: ActionView,
    world: World,
    fuel: nat,
) -> (Option<ReplyView>, World)
    decreases fuel,
{
    match action {
        ActionView::Respond(reply) => (Some(reply), world),
        _ => if fuel == 0 {
            (None, world)
        } else {
            let (after, report) = perform(world, action, Seq::<u8>::empty());
            let (next, then) = init_upload_step(storage_folder, info, now, stage, report);
            run_init_upload(storage_folder, info, now, next, then, after, (fuel - 1) as nat)
        },
    }
}

/// The start of an upload from the arrival of the request on.
pub open spec fn serve_init(
    storage_folder: Seq<char>,
    info: InitUploadRequestView,
    now: i64,
    world: World,
) -> (Option<ReplyView>, World) {
    let (stage, action) = init_upload_step(
        storage_folder,
        info,
        now,
        InitStageView::Received,
        EventView::Start,
    );
    run_init_upload(
        storage_folder,
        info,
        now,
        stage,
        action,
        world,
        3 * listed_chunks(world.chunks, info.file_hash).len() + 8,
    )
}

/// What the creation of a session comes to: the session is stored under a
/// path at which no file exists, unless another session has that path
/// already.
pub open spec fn create_outcome(
    storage_folder: Seq<char>,
    info: InitUploadRequestView,
    now: i64,
    world: World,
) -> (ReplyView, World) {
    let desired = destination_path(storage_folder, info.file_name);
    let path = candidate_path(desired, first_free_attempt(world.files, desired));
    if world.uploads.contains_key(info.file_hash) || path_in_use(
        world.uploads,
        path,
        info.file_hash,
    ) {
        (rejection(UploadError::RepositoryError, "Failed to insert upload item"@), world)
    } else {
        (
            ReplyView::Init(fresh_response(info.file_hash)),
            World {
                uploads: world.uploads.insert(info.file_hash, new_upload_item(info, path, now)),
                ..world
            },
        )
    }
}

/// Whether the file of a chunk has the digest on record.
pub open spec fn chunk_intact(
    storage_folder: Seq<char>,
    item: UploadItemView,
    chunk: ChunkView,
    files: Map<Seq<char>, Seq<u8>>,
) -> bool {
    let path = chunk_path_of(storage_folder, item, chunk);
    files.contains_key(path) && crate::digest::sha256_hex(files[path]) == chunk.chunk_hash
}

/// The answer to the resumption of a session of which the given chunks are
/// valid.
pub open spec fn resume_reply(item: UploadItemView, valid: Seq<ChunkView>) -> ReplyView {
    if i64::MIN <= total_size(valid) <= i64::MAX {
        ReplyView::Init(
            InitUploadResponseView {
                file_id: item.id,
                status: UploadStatus::Uploading,
                uploaded_chunks: chunk_numbers(sort_by_number(valid)),
                uploaded_size: total_size(valid) as i64,
            },
        )
    } else {
        rejection(UploadError::RepositoryError, "Failed to check and clean invalid chunks"@)
    }
}

/// What going through the chunks on record comes to from the point on at
/// which the first `next` have been checked.
pub open spec fn cleanup_outcome(
    storage_folder: Seq<char>,
    item: UploadItemView,
    chunks: Seq<ChunkView>,
    next: nat,
    valid: Seq<ChunkView>,
    world: World,
) -> (ReplyView, World)
    decreases chunks.len() - next,
{
    if next < chunks.len() {
        let chunk = chunks[next as int];
        if chunk_intact(storage_folder, item, chunk, world.files) {
            cleanup_outcome(storage_folder, item, chunks, next + 1, valid.push(chunk), world)
        } else {
            cleanup_outcome(
                storage_folder,
                item,
                chunks,
                next + 1,
                valid,
                World {
                    files: world.files.remove(chunk_path_of(storage_folder, item, chunk)),
                    chunks: without_chunk_id(world.chunks, chunk.id),
                    ..world
                },
            )
        }
    } else {
        (resume_reply(item, valid), world)
    }
}

/// What the start of an upload comes to, said at once: the answer, and what
/// the host holds afterwards.
pub open spec fn init_upload_outcome(
    storage_folder: Seq<char>,
    info: InitUploadRequestView,
    now: i64,
    world: World,
) -> (ReplyView, World) {
    if !world.uploads.contains_key(info.file_hash) {
        create_outcome(storage_folder, info, now, world)
    } else {
        let item = world.uploads[info.file_hash];
        match status_of_text(item.status) {
            None => (rejection(UploadError::RepositoryError, "Invalid upload status"@), world),
            Some(UploadStatus::Completed) => if world.file_has_digest(item.file_path, item.id) {
                (
                    ReplyView::Init(
                        InitUploadResponseView {
                            file_id: item.id,
                            status: UploadStatus::Completed,
                            uploaded_chunks: Seq::<i32>::empty(),
                            uploaded_size: item.file_size,
                        },
                    ),
                    world,
                )
            } else {
                create_outcome(
                    storage_folder,
                    info,
                    now,
                    World {
                        uploads: world.uploads.remove(item.id),
                        chunks: without_upload(world.chunks, item.id),
                        ..world
                    },
                )
            },
            Some(UploadStatus::Uploading) => cleanup_outcome(
                storage_folder,
                item,
                listed_chunks(world.chunks, item.id),
                0,
                Seq::<ChunkView>::empty(),
                world,
            ),
        }
    }
}

proof fn lemma_run_cleanup(
    storage_folder: Seq<char>,
    info: InitUploadRequestView,
    now: i64,
    cleanup: CleanupView,
    world: World,
    fuel: nat,
)
    requires
        cleanup.next <= cleanup.chunks.len() <= usize::MAX,
        fuel >= 3 * (cleanup.chunks.len() - cleanup.next) + 1,
    ensures
        ({
            let (stage, action) = cleanup_next(storage_folder, cleanup);
            let outcome = cleanup_outcome(
                storage_folder,
                cleanup.item,
                cleanup.chunks,
                cleanup.next as nat,
                cleanup.valid,
                world,
            );
            run_init_upload(storage_folder, info, now, stage, action, world, fuel) == (
                Some(outcome.0),
                outcome.1,
            )
        }),
    decreases cleanup.chunks.len() - cleanup.next,
{
    reveal_with_fuel(run_init_upload, 4);
    if cleanup.next < cleanup.chunks.len() {
        let chunk = cleanup.chunks[cleanup.next as int];
        let path = chunk_path_of(storage_folder, cleanup.item, chunk);
        if chunk_intact(storage_folder, cleanup.item, chunk, world.files) {
            lemma_run_cleanup(
                storage_folder,
                info,
                now,
                CleanupView {
                    next: (cleanup.next + 1) as usize,
                    valid: cleanup.valid.push(chunk),
                    ..cleanup
                },
                world,
                (fuel - 1) as nat,
            );
        } else {
            lemma_run_cleanup(
                storage_folder,
                info,
                now,
                CleanupView { next: (cleanup.next + 1) as usize, ..cleanup },
                World {
                    files: world.files.remove(path),
                    chunks: without_chunk_id(world.chunks, chunk.id),
                    ..world
                },
                (fuel - 3) as nat,
            );
        }
    }
}

/// Run step by step against a host that never fails, the start of an upload
/// comes to what `init_upload_outcome` says.
pub proof fn lemma_serve_init(
    storage_folder: Seq<char>,
    info: InitUploadRequestView,
    now: i64,
    world: World,
)
    requires
        world.wf(),
        listed_chunks(world.chunks, info.file_hash).len() <= usize::MAX,
    ensures
        serve_init(storage_folder, info, now, world).0 == Some(
            init_upload_outcome(storage_folder, info, now, world).0,
        ),
        serve_init(storage_folder, info, now, world).1 == init_upload_outcome(
            storage_folder,
            info,
            now,
            world,
        ).1,
{
    reveal_with_fuel(run_init_upload, 7);
    if world.uploads.contains_key(info.file_hash) {
        let item = world.uploads[info.file_hash];
        if status_of_text(item.status) == Some(UploadStatus::Uploading) {
            let listed = listed_chunks(world.chunks, item.id);
            lemma_run_cleanup(
                storage_folder,
                info,
                now,
                CleanupView { item, chunks: listed, next: 0, valid: Seq::<ChunkView>::empty() },
                world,
                (3 * listed.len() + 6) as nat,
            );
        }
    }
}

/// The chunks of a list whose files are intact, in the order of the list.
pub open spec fn intact_chunks(
    storage_folder: Seq<char>,
    item: UploadItemView,
    chunks: Seq<ChunkView>,
    files: Map<Seq<char>, Seq<u8>>,
) -> Seq<ChunkView>
    decreases chunks.len(),
{
    if chunks.len() == 0 {
        Seq::<ChunkView>::empty()
    } else {
        let front = intact_chunks(storage_folder, item, chunks.drop_last(), files);
        if chunk_intact(storage_folder, item, chunks.last(), files) {
            front.push(chunks.last())
        } else {
            front
        }
    }
}

/// Whether a chunk's record and file are in a world as they were in an
/// earlier one.
pub open spec fn chunk_kept(
    storage_folder: Seq<char>,
    item: UploadItemView,
    chunk: ChunkView,
    before: World,
    after: World,
) -> bool {
    let path = chunk_path_of(storage_folder, item, chunk);
    &&& after.chunks.contains_key(chunk_key(chunk))
    &&& after.chunks[chunk_key(chunk)] == chunk
    &&& after.files.contains_key(path) == before.files.contains_key(path)
    &&& after.files[path] == before.files[path]
}

/// Whether neither a record nor a file of a chunk is left.
pub open spec fn chunk_removed(
    storage_folder: Seq<char>,
    item: UploadItemView,
    chunk: ChunkView,
    after: World,
) -> bool {
    &&& !after.chunks.contains_key(chunk_key(chunk))
    &&& !after.files.contains_key(chunk_path_of(storage_folder, item, chunk))
}

/// Whether a chunk has been dealt with as the resumption of its session
/// requires: kept where its file was intact, removed where it was not.
pub open spec fn chunk_settled(
    storage_folder: Seq<char>,
    item: UploadItemView,
    chunk: ChunkView,
    before: World,
    after: World,
) -> bool {
    if chunk_intact(storage_folder, item, chunk, before.files) {
        chunk_kept(storage_folder, item, chunk, before, after)
    } else {
        chunk_removed(storage_folder, item, chunk, after)
    }
}

proof fn lemma_cleanup_settles(
    storage_folder: Seq<char>,
    item: UploadItemView,
    chunks: Seq<ChunkView>,
    next: nat,
    before: World,
    world: World,
)
    requires
        before.wf(),
        lists_chunks_of(chunks, before.chunks, item.id),
        next <= chunks.len(),
        world.uploads == before.uploads,
        forall|key: (Seq<char>, int)| #[trigger]
            world.chunks.contains_key(key) ==> before.chunks.contains_key(key)
                && world.chunks[key] == before.chunks[key],
        forall|i: int|
            0 <= i < next ==> chunk_settled(
                storage_folder,
                item,
                #[trigger] chunks[i],
                before,
                world,
            ),
        forall|i: int|
            next <= i < chunks.len() ==> chunk_kept(
                storage_folder,
                item,
                #[trigger] chunks[i],
                before,
                world,
            ),
    ensures
        ({
            let outcome = cleanup_outcome(
                storage_folder,
                item,
                chunks,
                next,
                intact_chunks(storage_folder, item, chunks.subrange(0, next as int), before.files),
                world,
            );
            &&& outcome.0 == resume_reply(
                item,
                intact_chunks(storage_folder, item, chunks, before.files),
            )
            &&& outcome.1.uploads == before.uploads
            &&& forall|i: int|
                0 <= i < chunks.len() ==> chunk_settled(
                    storage_folder,
                    item,
                    #[trigger] chunks[i],
                    before,
                    outcome.1,
                )
        }),
    decreases chunks.len() - next,
{
    let dir = upload_dir_path(storage_folder, item.id);
    if next < chunks.len() {
        let chunk = chunks[next as int];
        let path = chunk_path_of(storage_folder, item, chunk);
        let longer = chunks.subrange(0, next as int + 1);
        assert(longer.drop_last() =~= chunks.subrange(0, next as int));
        assert(longer.last() == chunk);
        assert(chunk_kept(storage_folder, item, chunk, before, world));
        assert(chunk_intact(storage_folder, item, chunk, world.files) == chunk_intact(
            storage_folder,
            item,
            chunk,
            before.files,
        ));
        if chunk_intact(storage_folder, item, chunk, world.files) {
            lemma_cleanup_settles(storage_folder, item, chunks, next + 1, before, world);
        } else {
            let cleaned = World {
                files: world.files.remove(path),
                chunks: without_chunk_id(world.chunks, chunk.id),
                ..world
            };
            assert forall|i: int| 0 <= i < chunks.len() && i != next implies {
                &&& chunk_path_of(storage_folder, item, #[trigger] chunks[i]) != path
                &&& chunk_key(chunks[i]) != chunk_key(chunk)
                &&& chunks[i].id != chunk.id
            } by {
                if i < next {
                    assert(chunks[i].chunk_number != chunks[next as int].chunk_number);
                } else {
                    assert(chunks[next as int].chunk_number != chunks[i].chunk_number);
                }
                lemma_chunk_files_distinct(
                    dir,
                    chunks[i].chunk_number as int,
                    chunk.chunk_number as int,
                );
                assert(before.chunks.contains_key(chunk_key(chunks[i])));
                assert(before.chunks.contains_key(chunk_key(chunk)));
                assert(before.chunks[chunk_key(chunks[i])] == chunks[i]);
                assert(before.chunks[chunk_key(chunk)] == chunk);
            }
            assert forall|i: int| 0 <= i < next + 1 implies chunk_settled(
                storage_folder,
                item,
                #[trigger] chunks[i],
                before,
                cleaned,
            ) by {
                if i < next {
                    assert(chunk_settled(storage_folder, item, chunks[i], before, world));
                    assert(chunk_path_of(storage_folder, item, chunks[i]) != path);
                }
            }
            assert forall|i: int| next + 1 <= i < chunks.len() implies chunk_kept(
                storage_folder,
                item,
                #[trigger] chunks[i],
                before,
                cleaned,
            ) by {
                assert(chunk_kept(storage_folder, item, chunks[i], before, world));
                assert(chunk_path_of(storage_folder, item, chunks[i]) != path);
            }
            lemma_cleanup_settles(storage_folder, item, chunks, next + 1, before, cleaned);
        }
    } else {
        assert(chunks.subrange(0, next as int) =~= chunks);
    }
}

/// The resumption of a session heals it: where the session is stored as
/// uploading, the answer gives, in ascending order, the numbers of exactly
/// those chunks on record whose file has the digest on record, and the sum
/// of their sizes; those chunks keep their record and their file; of every
/// other chunk on record neither the record nor a file is left; and the
/// session itself stays as it is.
pub proof fn lemma_init_resumes(
    storage_folder: Seq<char>,
    info: InitUploadRequestView,
    now: i64,
    world: World,
)
    requires
        world.wf(),
        world.uploads.contains_key(info.file_hash),
        status_of_text(world.uploads[info.file_hash].status) == Some(UploadStatus::Uploading),
        lists_chunks_of(
            listed_chunks(world.chunks, info.file_hash),
            world.chunks,
            info.file_hash,
        ),
        listed_chunks(world.chunks, info.file_hash).len() <= usize::MAX,
    ensures
        ({
            let item = world.uploads[info.file_hash];
            let listed = listed_chunks(world.chunks, info.file_hash);
            let served = serve_init(storage_folder, info, now, world);
            &&& served.0 == Some(
                resume_reply(item, intact_chunks(storage_folder, item, listed, world.files)),
            )
            &&& served.1.uploads == world.uploads
            &&& forall|i: int|
                0 <= i < listed.len() ==> chunk_settled(
                    storage_folder,
                    item,
                    #[trigger] listed[i],
                    world,
                    served.1,
                )
        }),
{
    let item = world.uploads[info.file_hash];
    let listed = listed_chunks(world.chunks, info.file_hash);
    lemma_serve_init(storage_folder, info, now, world);
    assert(listed.subrange(0, 0) =~= Seq::<ChunkView>::empty());
    lemma_cleanup_settles(storage_folder, item, listed, 0, world, world);
}

/// The path that a new session is given: the first of the candidates for
/// the file's name in the storage folder at which no file exists.
pub open spec fn new_session_path(
    storage_folder: Seq<char>,
    info: InitUploadRequestView,
    world: World,
) -> Seq<char> {
    let desired = destination_path(storage_folder, info.file_name);
    candidate_path(desired, first_free_attempt(world.files, desired))
}

/// Where there is no session for a file yet, one is created: the answer
/// says that nothing is uploaded, and the session is stored as uploading
/// under the digest of the file, with the name and size declared; nothing
/// else changes. Only where another session has the path already that the
/// new one would get, the request is rejected and nothing changes at all.
pub proof fn lemma_init_creates_session(
    storage_folder: Seq<char>,
    info: InitUploadRequestView,
    now: i64,
    world: World,
)
    requires
        world.wf(),
        listed_chunks(world.chunks, info.file_hash).len() <= usize::MAX,
        !world.uploads.contains_key(info.file_hash),
    ensures
        ({
            let served = serve_init(storage_folder, info, now, world);
            let path = new_session_path(storage_folder, info, world);
            if path_in_use(world.uploads, path, info.file_hash) {
                &&& served.0 == Some(
                    rejection(UploadError::RepositoryError, "Failed to insert upload item"@),
                )
                &&& served.1 == world
            } else {
                &&& served.0 == Some(ReplyView::Init(fresh_response(info.file_hash)))
                &&& served.1.uploads.contains_key(info.file_hash)
                &&& served.1.uploads[info.file_hash].id == info.file_hash
                &&& served.1.uploads[info.file_hash].file_name == info.file_name
                &&& served.1.uploads[info.file_hash].file_size == info.file_size
                &&& served.1.uploads[info.file_hash].file_path == path
                &&& status_of_text(served.1.uploads[info.file_hash].status) == Some(
                    UploadStatus::Uploading,
                )
                &&& served.1.uploads.remove(info.file_hash) == world.uploads
                &&& served.1.chunks == world.chunks
                &&& served.1.files == world.files
            }
        }),
{
    lemma_serve_init(storage_folder, info, now, world);
    crate::records::lemma_status_text_round_trip(UploadStatus::Uploading);
    let served = serve_init(storage_folder, info, now, world);
    assert(served.1.uploads.remove(info.file_hash) =~= world.uploads);
}

/// A completed session is trusted only as far as its file: where the file
/// has the session's id as digest, the answer says that the upload is
/// complete and nothing changes; where it has not, the session and its
/// chunk records are deleted and the session begins anew as uploading, with
/// nothing uploaded (unless another session has the path that it would
/// get: then the request is rejected, and the session stays deleted).
pub proof fn lemma_init_rechecks_completed(
    storage_folder: Seq<char>,
    info: InitUploadRequestView,
    now: i64,
    world: World,
)
    requires
        world.wf(),
        listed_chunks(world.chunks, info.file_hash).len() <= usize::MAX,
        world.uploads.contains_key(info.file_hash),
        status_of_text(world.uploads[info.file_hash].status) == Some(UploadStatus::Completed),
    ensures
        ({
            let item = world.uploads[info.file_hash];
            let served = serve_init(storage_folder, info, now, world);
            if world.file_has_digest(item.file_path, info.file_hash) {
                &&& served.0 == Some(
                    ReplyView::Init(
                        InitUploadResponseView {
                            file_id: info.file_hash,
                            status: UploadStatus::Completed,
                            uploaded_chunks: Seq::<i32>::empty(),
                            uploaded_size: item.file_size,
                        },
                    ),
                )
                &&& served.1 == world
            } else {
                let path = new_session_path(storage_folder, info, world);
                &&& if path_in_use(world.uploads, path, info.file_hash) {
                    &&& served.0 == Some(
                        rejection(
                            UploadError::RepositoryError,
                            "Failed to insert upload item"@,
                        ),
                    )
                    &&& !served.1.uploads.contains_key(info.file_hash)
                } else {
                    &&& served.0 == Some(ReplyView::Init(fresh_response(info.file_hash)))
                    &&& served.1.uploads.contains_key(info.file_hash)
                    &&& served.1.uploads[info.file_hash].file_path == path
                    &&& status_of_text(served.1.uploads[info.file_hash].status) == Some(
                        UploadStatus::Uploading,
                    )
                }
                &&& served.1.uploads.remove(info.file_hash) == world.uploads.remove(
                    info.file_hash,
                )
                &&& forall|number: int| !served.1.chunks.contains_key((info.file_hash, number))
                &&& served.1.files == world.files
            }
        }),
{
    lemma_serve_init(storage_folder, info, now, world);
    crate::records::lemma_status_text_round_trip(UploadStatus::Uploading);
    let served = serve_init(storage_folder, info, now, world);
    assert(served.1.uploads.remove(info.file_hash) =~= world.uploads.remove(info.file_hash));
}

proof fn lemma_cleanup_keeps_constraints(
    storage_folder: Seq<char>,
    item: UploadItemView,
    chunks: Seq<ChunkView>,
    next: nat,
    valid: Seq<ChunkView>,
    world: World,
)
    requires
        world.wf(),
    ensures
        cleanup_outcome(storage_folder, item, chunks, next, valid, world).1.wf(),
    decreases chunks.len() - next,
{
    if next < chunks.len() {
        let chunk = chunks[next as int];
        if chunk_intact(storage_folder, item, chunk, world.files) {
            lemma_cleanup_keeps_constraints(
                storage_folder,
                item,
                chunks,
                next + 1,
                valid.push(chunk),
                world,
            );
        } else {
            lemma_cleanup_keeps_constraints(
                storage_folder,
                item,
                chunks,
                next + 1,
                valid,
                World {
                    files: world.files.remove(chunk_path_of(storage_folder, item, chunk)),
                    chunks: without_chunk_id(world.chunks, chunk.id),
                    ..world
                },
            );
        }
    }
}

proof fn lemma_create_keeps_constraints(
    storage_folder: Seq<char>,
    info: InitUploadRequestView,
    now: i64,
    world: World,
)
    requires
        forall|id: Seq<char>| #[trigger]
            world.uploads.contains_key(id) ==> world.uploads[id].id == id,
        forall|id: Seq<char>| #[trigger]
            world.uploads.contains_key(id) ==> !path_in_use(
                world.uploads,
                world.uploads[id].file_path,
                id,
            ),
    ensures
        ({
            let after = create_outcome(storage_folder, info, now, world).1;
            &&& forall|id: Seq<char>| #[trigger]
                after.uploads.contains_key(id) ==> after.uploads[id].id == id
            &&& forall|id: Seq<char>| #[trigger]
                after.uploads.contains_key(id) ==> !path_in_use(
                    after.uploads,
                    after.uploads[id].file_path,
                    id,
                )
            &&& forall|id: Seq<char>|
                world.uploads.contains_key(id) ==> #[trigger] after.uploads.contains_key(id)
        }),
{
    let after = create_outcome(storage_folder, info, now, world).1;
    assert forall|id: Seq<char>| #[trigger] after.uploads.contains_key(id) implies !path_in_use(
        after.uploads,
        after.uploads[id].file_path,
        id,
    ) by {
        if id != info.file_hash || world.uploads.contains_key(info.file_hash) {
            assert(world.uploads.contains_key(id));
            assert(!path_in_use(world.uploads, world.uploads[id].file_path, id));
        }
    }
}

/// The start of an upload keeps the constraints of the repository.
pub proof fn lemma_serve_init_keeps_constraints(
    storage_folder: Seq<char>,
    info: InitUploadRequestView,
    now: i64,
    world: World,
)
    requires
        world.wf(),
        listed_chunks(world.chunks, info.file_hash).len() <= usize::MAX,
    ensures
        serve_init(storage_folder, info, now, world).1.wf(),
{
    lemma_serve_init(storage_folder, info, now, world);
    if !world.uploads.contains_key(info.file_hash) {
        lemma_create_keeps_constraints(storage_folder, info, now, world);
    } else {
        let item = world.uploads[info.file_hash];
        match status_of_text(item.status) {
            None => {},
            Some(UploadStatus::Completed) => {
                if !world.file_has_digest(item.file_path, item.id) {
                    let deleted = World {
                        uploads: world.uploads.remove(item.id),
                        chunks: without_upload(world.chunks, item.id),
                        ..world
                    };
                    assert forall|id: Seq<char>| #[trigger]
                        deleted.uploads.contains_key(id) implies !path_in_use(
                        deleted.uploads,
                        deleted.uploads[id].file_path,
                        id,
                    ) by {
                        assert(world.uploads.contains_key(id));
                        assert(!path_in_use(world.uploads, world.uploads[id].file_path, id));
                    }
                    lemma_create_keeps_constraints(storage_folder, info, now, deleted);
                }
            },
            Some(UploadStatus::Uploading) => {
                lemma_cleanup_keeps_constraints(
                    storage_folder,
                    item,
                    listed_chunks(world.chunks, item.id),
                    0,
                    Seq::<ChunkView>::empty(),
                    world,
                );
            },
        }
    }
}

} // verus!
