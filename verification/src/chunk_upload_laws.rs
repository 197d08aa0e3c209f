use crate::chunk_upload::{request_chunk_path, upload_chunk_step, ChunkStageView};
use crate::digest::sha256_hex;
use crate::host::{ActionView, EventView};
use crate::paths::{lemma_chunk_files_distinct, upload_dir_path};
use crate::protocol::{MetadataView, ReplyView, UploadError};
use crate::records::{status_of_text, ChunkView, UploadStatus};
use crate::world::{
    chunk_id_unused, perform, rejection, unused_chunk_id, without_chunk_id, World,
};
use vstd::prelude::*;

verus! {

/// The handling of one chunk from a stage on, by a host that never fails:
/// the answer, if one is reached within `fuel` operations, and what the host
/// then holds.
pub open spec fn run_upload_chunk(
    storage_folder: Seq<char>,
    form: MetadataView,
    stage: ChunkStageView,
    event: EventView,
    world: World,
    body: Seq<u8>,
    fuel: nat,
) -> (Option<ReplyView>, World)
    decreases fuel,
{
    let (next, action) = upload_chunk_step(storage_folder, form, stage, event);
    match action {
        ActionView::Respond(reply) => (Some(reply), world),
        _ => if fuel == 0 {
            (None, world)
        } else {
            let (after, report) = perform(world, action, body);
            run_upload_chunk(storage_folder, form, next, report, after, body, (fuel - 1) as nat)
        },
    }
}

/// The handling of one chunk from the arrival of the request on.
pub open spec fn serve_chunk(
    storage_folder: Seq<char>,
    form: MetadataView,
    world: World,
    body: Seq<u8>,
) -> (Option<ReplyView>, World) {
    run_upload_chunk(
        storage_folder,
        form,
        ChunkStageView::Received,
        EventView::Start,
        world,
        body,
        16,
    )
}

/// What the upload of one chunk comes to, said at once: the answer, and what
/// the host holds afterwards.
pub open spec fn chunk_upload_outcome(
    storage_folder: Seq<char>,
    form: MetadataView,
    world: World,
    body: Seq<u8>,
) -> (ReplyView, World) {
    let path = request_chunk_path(storage_folder, form);
    let key = (form.file_id, form.chunk_number as int);
    if form.file_id.len() == 0 || form.chunk_number <= 0 {
        (rejection(UploadError::BadRequest, "Missing or invalid required fields"@), world)
    } else if !world.uploads.contains_key(form.file_id) {
        (rejection(UploadError::NotFound, "Upload item not found"@), world)
    } else if status_of_text(world.uploads[form.file_id].status) == Some(UploadStatus::Completed) {
        (rejection(UploadError::BadRequest, "File already completed"@), world)
    } else if world.chunks.contains_key(key) && world.file_has_digest(
        path,
        world.chunks[key].chunk_hash,
    ) {
        (ReplyView::ChunkAlreadyUploaded, world)
    } else {
        chunk_store_outcome(
            storage_folder,
            form,
            World { chunks: world.chunks.remove(key), files: world.files.remove(path), ..world },
            body,
        )
    }
}

/// What the writing of a chunk comes to once no record and no file of the
/// chunk is left.
pub open spec fn chunk_store_outcome(
    storage_folder: Seq<char>,
    form: MetadataView,
    cleared: World,
    body: Seq<u8>,
) -> (ReplyView, World) {
    let path = request_chunk_path(storage_folder, form);
    let key = (form.file_id, form.chunk_number as int);
    if body.len() > i64::MAX {
        (rejection(UploadError::IoError, "Failed to save chunk"@), cleared)
    } else if sha256_hex(body) != form.chunk_hash {
        (rejection(UploadError::BadRequest, "Chunk hash verification failed"@), cleared)
    } else {
        (
            ReplyView::ChunkUploaded,
            World {
                chunks: cleared.chunks.insert(
                    key,
                    ChunkView {
                        id: unused_chunk_id(cleared.chunks),
                        upload_id: form.file_id,
                        chunk_number: form.chunk_number,
                        chunk_size: body.len() as i64,
                        chunk_hash: form.chunk_hash,
                    },
                ),
                files: cleared.files.insert(path, body),
                ..cleared
            },
        )
    }
}

proof fn lemma_run_after_save(
    storage_folder: Seq<char>,
    form: MetadataView,
    cleared: World,
    body: Seq<u8>,
    fuel: nat,
)
    requires
        body.len() <= u64::MAX,
        fuel >= 3,
        cleared.uploads.contains_key(form.file_id),
        !cleared.chunks.contains_key((form.file_id, form.chunk_number as int)),
        !cleared.files.contains_key(request_chunk_path(storage_folder, form)),
    ensures
        ({
            let path = request_chunk_path(storage_folder, form);
            let saved = World { files: cleared.files.insert(path, body), ..cleared };
            let outcome = chunk_store_outcome(storage_folder, form, cleared, body);
            run_upload_chunk(
                storage_folder,
                form,
                ChunkStageView::SavingChunk,
                EventView::Saved(body.len() as u64),
                saved,
                body,
                fuel,
            ) == (Some(outcome.0), outcome.1)
        }),
{
    reveal_with_fuel(run_upload_chunk, 4);
    let path = request_chunk_path(storage_folder, form);
    assert(cleared.files.insert(path, body).remove(path) =~= cleared.files);
}

proof fn lemma_run_after_lookup(
    storage_folder: Seq<char>,
    form: MetadataView,
    world: World,
    body: Seq<u8>,
    fuel: nat,
)
    requires
        world.wf(),
        world.uploads.contains_key(form.file_id),
        body.len() <= u64::MAX,
        fuel >= 7,
    ensures
        ({
            let path = request_chunk_path(storage_folder, form);
            let key = (form.file_id, form.chunk_number as int);
            let found = if world.chunks.contains_key(key) {
                Some(world.chunks[key])
            } else {
                None
            };
            let cleared = World {
                chunks: world.chunks.remove(key),
                files: world.files.remove(path),
                ..world
            };
            let outcome = if world.chunks.contains_key(key) && world.file_has_digest(
                path,
                world.chunks[key].chunk_hash,
            ) {
                (ReplyView::ChunkAlreadyUploaded, world)
            } else {
                chunk_store_outcome(storage_folder, form, cleared, body)
            };
            run_upload_chunk(
                storage_folder,
                form,
                ChunkStageView::FindingChunk,
                EventView::Chunk(found),
                world,
                body,
                fuel,
            ) == (Some(outcome.0), outcome.1)
        }),
{
    reveal_with_fuel(run_upload_chunk, 5);
    let path = request_chunk_path(storage_folder, form);
    let key = (form.file_id, form.chunk_number as int);
    let cleared = World {
        chunks: world.chunks.remove(key),
        files: world.files.remove(path),
        ..world
    };
    let saved = World { files: cleared.files.insert(path, body), ..cleared };
    let found = if world.chunks.contains_key(key) {
        Some(world.chunks[key])
    } else {
        None
    };
    let whole = run_upload_chunk(
        storage_folder,
        form,
        ChunkStageView::FindingChunk,
        EventView::Chunk(found),
        world,
        body,
        fuel,
    );
    let stored = chunk_store_outcome(storage_folder, form, cleared, body);
    if world.chunks.contains_key(key) {
        let chunk = world.chunks[key];
        if world.file_has_digest(path, chunk.chunk_hash) {
            assert(whole == (Some(ReplyView::ChunkAlreadyUploaded), world));
        } else {
            assert(whole == run_upload_chunk(
                storage_folder,
                form,
                ChunkStageView::RemovingStaleRecord,
                EventView::Done,
                World {
                    files: world.files.remove(path),
                    chunks: without_chunk_id(world.chunks, chunk.id),
                    ..world
                },
                body,
                (fuel - 3) as nat,
            ));
        }
        assert(without_chunk_id(world.chunks, chunk.id) =~= world.chunks.remove(key));
        if !world.file_has_digest(path, chunk.chunk_hash) {
            lemma_run_after_save(storage_folder, form, cleared, body, (fuel - 3) as nat);
            let unfiled = World { files: world.files.remove(path), ..world };
            assert(perform(world, ActionView::HashFile { path }, body).0 == world);
            assert(perform(world, ActionView::DeleteFileIfExists { path }, body).0 == unfiled);
            assert(perform(unfiled, ActionView::DeleteChunkById { chunk_id: chunk.id }, body).0
                == cleared);
            assert(perform(cleared, ActionView::SaveChunk { path }, body) == (
                saved,
                EventView::Saved(body.len() as u64),
            ));
            assert(run_upload_chunk(
                storage_folder,
                form,
                ChunkStageView::RemovingStaleRecord,
                EventView::Done,
                cleared,
                body,
                (fuel - 2) as nat,
            ) == run_upload_chunk(
                storage_folder,
                form,
                ChunkStageView::SavingChunk,
                EventView::Saved(body.len() as u64),
                saved,
                body,
                (fuel - 3) as nat,
            ));
            assert(whole == (Some(stored.0), stored.1));
        }
    } else {
        assert(world.chunks.remove(key) =~= world.chunks);
        lemma_run_after_save(storage_folder, form, cleared, body, (fuel - 2) as nat);
        assert(perform(world, ActionView::DeleteFileIfExists { path }, body).0 == cleared);
        assert(perform(cleared, ActionView::SaveChunk { path }, body) == (
            saved,
            EventView::Saved(body.len() as u64),
        ));
        assert(run_upload_chunk(
            storage_folder,
            form,
            ChunkStageView::ClearingLeftover,
            EventView::Done,
            cleared,
            body,
            (fuel - 1) as nat,
        ) == run_upload_chunk(
            storage_folder,
            form,
            ChunkStageView::SavingChunk,
            EventView::Saved(body.len() as u64),
            saved,
            body,
            (fuel - 2) as nat,
        ));
        assert(whole == (Some(stored.0), stored.1));
    }
}

/// Run step by step against a host that never fails, the handling of a
/// chunk comes to what `chunk_upload_outcome` says.
pub proof fn lemma_serve_chunk(
    storage_folder: Seq<char>,
    form: MetadataView,
    world: World,
    body: Seq<u8>,
)
    requires
        world.wf(),
        body.len() <= u64::MAX,
    ensures
        serve_chunk(storage_folder, form, world, body).0 == Some(
            chunk_upload_outcome(storage_folder, form, world, body).0,
        ),
        serve_chunk(storage_folder, form, world, body).1 == chunk_upload_outcome(
            storage_folder,
            form,
            world,
            body,
        ).1,
{
    reveal_with_fuel(run_upload_chunk, 4);
    let path = request_chunk_path(storage_folder, form);
    assert(world.files.remove(path).insert(path, body) =~= world.files.insert(path, body));
    if world.uploads.contains_key(form.file_id) {
        lemma_run_after_lookup(storage_folder, form, world, body, 13);
    }
}

proof fn lemma_serve_chunk_present(
    storage_folder: Seq<char>,
    form: MetadataView,
    world: World,
    body: Seq<u8>,
)
    requires
        form.file_id.len() > 0,
        form.chunk_number > 0,
        world.uploads.contains_key(form.file_id),
        status_of_text(world.uploads[form.file_id].status) != Some(UploadStatus::Completed),
        world.chunks.contains_key((form.file_id, form.chunk_number as int)),
        world.file_has_digest(
            request_chunk_path(storage_folder, form),
            world.chunks[(form.file_id, form.chunk_number as int)].chunk_hash,
        ),
    ensures
        serve_chunk(storage_folder, form, world, body) == (
            Some(ReplyView::ChunkAlreadyUploaded),
            world,
        ),
{
    reveal_with_fuel(run_upload_chunk, 6);
}

/// A chunk that was taken in is not taken in twice: where the upload of a
/// chunk is answered with success, the same upload sent again is answered
/// with "already uploaded" and changes nothing. After the first upload the
/// chunk's file holds the bytes sent, the chunk is on record under its
/// session and number with the declared digest, and no record of another
/// chunk has come or gone.
pub proof fn lemma_upload_chunk_idempotent(
    storage_folder: Seq<char>,
    form: MetadataView,
    world: World,
    body: Seq<u8>,
)
    requires
        world.wf(),
        body.len() <= u64::MAX,
        serve_chunk(storage_folder, form, world, body).0 == Some(ReplyView::ChunkUploaded),
    ensures
        ({
            let after = serve_chunk(storage_folder, form, world, body).1;
            let key = (form.file_id, form.chunk_number as int);
            &&& serve_chunk(storage_folder, form, after, body) == (
                Some(ReplyView::ChunkAlreadyUploaded),
                after,
            )
            &&& after.files[request_chunk_path(storage_folder, form)] == body
            &&& after.chunks.contains_key(key)
            &&& after.chunks[key].chunk_hash == form.chunk_hash
            &&& after.chunks[key].chunk_size == body.len()
            &&& after.chunks.remove(key) == world.chunks.remove(key)
            &&& after.uploads == world.uploads
        }),
{
    lemma_serve_chunk(storage_folder, form, world, body);
    let after = serve_chunk(storage_folder, form, world, body).1;
    let key = (form.file_id, form.chunk_number as int);
    lemma_serve_chunk_present(storage_folder, form, after, body);
    assert(after.chunks.remove(key) =~= world.chunks.remove(key));
}

/// The uploads of two chunks of one session with different numbers do not
/// touch each other's files: whatever stage the upload of one chunk is at
/// and whatever is reported to it, the operation that it asks for next
/// leaves the file of the other chunk as it is.
pub proof fn lemma_upload_chunk_spares_other_files(
    storage_folder: Seq<char>,
    form: MetadataView,
    other: MetadataView,
    stage: ChunkStageView,
    event: EventView,
    world: World,
    body: Seq<u8>,
)
    requires
        form.file_id == other.file_id,
        form.chunk_number != other.chunk_number,
    ensures
        ({
            let action = upload_chunk_step(storage_folder, form, stage, event).1;
            let after = perform(world, action, body).0;
            let spared = request_chunk_path(storage_folder, other);
            &&& after.files.contains_key(spared) == world.files.contains_key(spared)
            &&& after.files[spared] == world.files[spared]
        }),
{
    lemma_chunk_files_distinct(
        upload_dir_path(storage_folder, form.file_id),
        form.chunk_number as int,
        other.chunk_number as int,
    );
}

/// The upload of one chunk under way: the stage it is at and the action it
/// has asked for, which is an answer once the upload has ended.
pub struct Upload {
    pub stage: ChunkStageView,
    pub action: ActionView,
}

/// The upload of a chunk as the arrival of its request leaves it.
pub open spec fn begin_upload(storage_folder: Seq<char>, form: MetadataView) -> Upload {
    let (stage, action) = upload_chunk_step(
        storage_folder,
        form,
        ChunkStageView::Received,
        EventView::Start,
    );
    Upload { stage, action }
}

/// One operation of a host that never fails for an upload under way, and the
/// upload's next step; an upload that has ended stays as it is.
pub open spec fn advance_upload(
    storage_folder: Seq<char>,
    form: MetadataView,
    body: Seq<u8>,
    upload: Upload,
    world: World,
) -> (Upload, World) {
    match upload.action {
        ActionView::Respond(reply) => (upload, world),
        _ => {
            let (after, report) = perform(world, upload.action, body);
            let (stage, action) = upload_chunk_step(storage_folder, form, upload.stage, report);
            (Upload { stage, action }, after)
        },
    }
}

/// Two uploads taking turns on one host: at each turn the first upload
/// advances where the turn says `true`, else the second.
pub open spec fn interleave(
    storage_folder: Seq<char>,
    first: MetadataView,
    first_body: Seq<u8>,
    second: MetadataView,
    second_body: Seq<u8>,
    world: World,
    turns: Seq<bool>,
) -> (Upload, Upload, World)
    decreases turns.len(),
{
    if turns.len() == 0 {
        (begin_upload(storage_folder, first), begin_upload(storage_folder, second), world)
    } else {
        let (a, b, before) = interleave(
            storage_folder,
            first,
            first_body,
            second,
            second_body,
            world,
            turns.drop_last(),
        );
        if turns.last() {
            let (next, after) = advance_upload(storage_folder, first, first_body, a, before);
            (next, b, after)
        } else {
            let (next, after) = advance_upload(storage_folder, second, second_body, b, before);
            (a, next, after)
        }
    }
}

/// Whether an action leaves every file alone but the file of the chunk that
/// a request is about.
pub open spec fn touches_own_file_only(
    storage_folder: Seq<char>,
    form: MetadataView,
    action: ActionView,
) -> bool {
    let own = request_chunk_path(storage_folder, form);
    match action {
        ActionView::DeleteFileIfExists { path } => path == own,
        ActionView::SaveChunk { path } => path == own,
        ActionView::CreateFile { path } => false,
        ActionView::AppendFile { source, target } => false,
        ActionView::RemoveDirAll { path } => false,
        _ => true,
    }
}

/// Whether an upload under way and the host agree on the chunk's file: the
/// upload asks for nothing that touches another file, and from the moment
/// its bytes are written until it ends otherwise than in success, the file
/// holds them.
pub open spec fn upload_in_step(
    storage_folder: Seq<char>,
    form: MetadataView,
    body: Seq<u8>,
    upload: Upload,
    world: World,
) -> bool {
    let own = request_chunk_path(storage_folder, form);
    let written = world.files.contains_key(own) && world.files[own] == body;
    &&& touches_own_file_only(storage_folder, form, upload.action)
    &&& match upload.stage {
        ChunkStageView::SavingChunk => upload.action == (ActionView::SaveChunk { path: own }),
        ChunkStageView::VerifyingChunk { chunk_size } => written && upload.action == (
            ActionView::HashFile { path: own }
        ),
        ChunkStageView::RecordingChunk => written && upload.action is InsertChunk,
        ChunkStageView::Finished => upload.action is Respond && (upload.action
            == ActionView::Respond(ReplyView::ChunkUploaded) ==> written),
        _ => !(upload.action is Respond),
    }
}

proof fn lemma_begin_in_step(
    storage_folder: Seq<char>,
    form: MetadataView,
    body: Seq<u8>,
    world: World,
)
    ensures
        upload_in_step(storage_folder, form, body, begin_upload(storage_folder, form), world),
{
}

proof fn lemma_advance_in_step(
    storage_folder: Seq<char>,
    form: MetadataView,
    body: Seq<u8>,
    upload: Upload,
    world: World,
)
    requires
        body.len() <= u64::MAX,
        upload_in_step(storage_folder, form, body, upload, world),
    ensures
        ({
            let (next, after) = advance_upload(storage_folder, form, body, upload, world);
            upload_in_step(storage_folder, form, body, next, after)
        }),
{
}

proof fn lemma_advance_spares_other(
    storage_folder: Seq<char>,
    form: MetadataView,
    body: Seq<u8>,
    upload: Upload,
    other: MetadataView,
    other_body: Seq<u8>,
    other_upload: Upload,
    world: World,
)
    requires
        form.file_id == other.file_id,
        form.chunk_number != other.chunk_number,
        upload_in_step(storage_folder, form, body, upload, world),
        upload_in_step(storage_folder, other, other_body, other_upload, world),
    ensures
        ({
            let (next, after) = advance_upload(storage_folder, form, body, upload, world);
            upload_in_step(storage_folder, other, other_body, other_upload, after)
        }),
{
    lemma_chunk_files_distinct(
        upload_dir_path(storage_folder, form.file_id),
        form.chunk_number as int,
        other.chunk_number as int,
    );
}

proof fn lemma_interleave_in_step(
    storage_folder: Seq<char>,
    first: MetadataView,
    first_body: Seq<u8>,
    second: MetadataView,
    second_body: Seq<u8>,
    world: World,
    turns: Seq<bool>,
)
    requires
        first.file_id == second.file_id,
        first.chunk_number != second.chunk_number,
        first_body.len() <= u64::MAX,
        second_body.len() <= u64::MAX,
    ensures
        ({
            let (a, b, after) = interleave(
                storage_folder,
                first,
                first_body,
                second,
                second_body,
                world,
                turns,
            );
            &&& upload_in_step(storage_folder, first, first_body, a, after)
            &&& upload_in_step(storage_folder, second, second_body, b, after)
        }),
    decreases turns.len(),
{
    if turns.len() == 0 {
        lemma_begin_in_step(storage_folder, first, first_body, world);
        lemma_begin_in_step(storage_folder, second, second_body, world);
    } else {
        lemma_interleave_in_step(
            storage_folder,
            first,
            first_body,
            second,
            second_body,
            world,
            turns.drop_last(),
        );
        let (a, b, before) = interleave(
            storage_folder,
            first,
            first_body,
            second,
            second_body,
            world,
            turns.drop_last(),
        );
        if turns.last() {
            lemma_advance_in_step(storage_folder, first, first_body, a, before);
            lemma_advance_spares_other(
                storage_folder,
                first,
                first_body,
                a,
                second,
                second_body,
                b,
                before,
            );
        } else {
            lemma_advance_in_step(storage_folder, second, second_body, b, before);
            lemma_advance_spares_other(
                storage_folder,
                second,
                second_body,
                b,
                first,
                first_body,
                a,
                before,
            );
        }
    }
}

/// Uploads of two chunks of one session with different numbers do not
/// corrupt each other's files, in whatever order the host gets to serve
/// them: whenever one of them has ended in success, the file of its chunk
/// holds exactly the bytes that came with it, whatever the other has done
/// before or since.
pub proof fn lemma_interleaved_uploads_keep_their_bytes(
    storage_folder: Seq<char>,
    first: MetadataView,
    first_body: Seq<u8>,
    second: MetadataView,
    second_body: Seq<u8>,
    world: World,
    turns: Seq<bool>,
)
    requires
        first.file_id == second.file_id,
        first.chunk_number != second.chunk_number,
        first_body.len() <= u64::MAX,
        second_body.len() <= u64::MAX,
    ensures
        ({
            let (a, b, after) = interleave(
                storage_folder,
                first,
                first_body,
                second,
                second_body,
                world,
                turns,
            );
            let first_path = request_chunk_path(storage_folder, first);
            let second_path = request_chunk_path(storage_folder, second);
            &&& first_path != second_path
            &&& a.action == ActionView::Respond(ReplyView::ChunkUploaded)
                ==> after.files.contains_key(first_path) && after.files[first_path] == first_body
            &&& b.action == ActionView::Respond(ReplyView::ChunkUploaded)
                ==> after.files.contains_key(second_path) && after.files[second_path]
                == second_body
        }),
{
    lemma_interleave_in_step(
        storage_folder,
        first,
        first_body,
        second,
        second_body,
        world,
        turns,
    );
    lemma_chunk_files_distinct(
        upload_dir_path(storage_folder, first.file_id),
        first.chunk_number as int,
        second.chunk_number as int,
    );
}

/// Whatever the host reports, an upload does not end in a rejection while
/// the bytes it wrote may still be in place: from the moment the writing is
/// asked for, every failure leads to the removal of the chunk's file first,
/// and only the step after that removal gives the rejection.
pub proof fn lemma_upload_chunk_discards_before_rejecting(
    storage_folder: Seq<char>,
    form: MetadataView,
    stage: ChunkStageView,
    event: EventView,
)
    ensures
        ({
            let (next, action) = upload_chunk_step(storage_folder, form, stage, event);
            let own = request_chunk_path(storage_folder, form);
            &&& (stage is SavingChunk || stage is VerifyingChunk || stage is RecordingChunk)
                ==> !(action is Respond && action->0 is Rejected)
            &&& next is DiscardingChunk ==> action == (ActionView::DeleteFileIfExists {
                path: own,
            })
            &&& stage is DiscardingChunk ==> action is Respond && action->0 is Rejected
            &&& (action is Respond) == (next is Finished)
        }),
{
}

/// The upload of a chunk keeps the constraints of the repository, as long
/// as an id is left for a new chunk record.
pub proof fn lemma_serve_chunk_keeps_constraints(
    storage_folder: Seq<char>,
    form: MetadataView,
    world: World,
    body: Seq<u8>,
)
    requires
        world.wf(),
        body.len() <= u64::MAX,
        exists|id: i32| chunk_id_unused(world.chunks, id),
    ensures
        serve_chunk(storage_folder, form, world, body).1.wf(),
{
    lemma_serve_chunk(storage_folder, form, world, body);
    let key = (form.file_id, form.chunk_number as int);
    let cleared = world.chunks.remove(key);
    let witness = choose|id: i32| chunk_id_unused(world.chunks, id);
    assert(chunk_id_unused(cleared, witness));
    assert(chunk_id_unused(cleared, unused_chunk_id(cleared)));
}

} // verus!
