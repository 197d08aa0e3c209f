use crate::chunk_list::{ascending, lemma_sort_by_number, sort_by_number, total_size};
use crate::complete::{
    complete_upload_step, completed_item, merge_next, merge_rejected, CompleteStageView,
};
use crate::digest::sha256_hex;
use crate::host::{ActionView, EventView};
use crate::paths::{chunk_file_path, upload_dir_path};
use crate::protocol::{ReplyView, UploadError};
use crate::records::{ChunkView, UploadItemView};
use crate::world::{
    lies_below, listed_chunks, path_in_use, perform, rejection, without_dir, World,
};
use vstd::prelude::*;

verus! {

/// The completion of an upload from a stage and a pending action on, by a
/// host that never fails: the answer, if one is reached within `fuel`
/// operations, and what the host then holds.
pub open spec fn run_complete_upload(
    storage_folder: Seq<char>,
    file_id: Seq<char>,
    stage: CompleteStageView,
    action: ActionView,
    world: World,
    fuel: nat,
) -> (Option<ReplyView>, World)
    decreases fuel,
{
    match action {
        ActionView::Respond(reply) => (Some(reply), world),
        _ => if fuel == 0 {
            (None, world)
        } else {
            let (after, report) = perform(world, action, Seq::<u8>::empty());
            let (next, then) = complete_upload_step(storage_folder, file_id, stage, report);
            run_complete_upload(storage_folder, file_id, next, then, after, (fuel - 1) as nat)
        },
    }
}

/// The completion of an upload from the arrival of the request on.
pub open spec fn serve_complete(storage_folder: Seq<char>, file_id: Seq<char>, world: World) -> (
    Option<ReplyView>,
    World,
) {
    let (stage, action) = complete_upload_step(
        storage_folder,
        file_id,
        CompleteStageView::Received,
        EventView::Start,
    );
    run_complete_upload(
        storage_folder,
        file_id,
        stage,
        action,
        world,
        listed_chunks(world.chunks, file_id).len() + 8,
    )
}

/// The rejection of a merge.
pub open spec fn merge_rejection(error: UploadError) -> ReplyView {
    rejection(error, "Failed to merge chunks"@)
}

/// The file of a chunk of a session.
pub open spec fn chunk_path_of(storage_folder: Seq<char>, item: UploadItemView, chunk: ChunkView)
    -> Seq<char> {
    chunk_file_path(upload_dir_path(storage_folder, item.id), chunk.chunk_number as int)
}

/// What the merge comes to from the point on at which `next` chunks of the
/// plan, `written` bytes in all, have been appended.
pub open spec fn merge_outcome(
    storage_folder: Seq<char>,
    item: UploadItemView,
    plan: Seq<ChunkView>,
    next: nat,
    written: nat,
    world: World,
) -> (ReplyView, World)
    decreases plan.len() - next,
{
    let target = item.file_path;
    if next < plan.len() {
        let source = chunk_path_of(storage_folder, item, plan[next as int]);
        if !world.files.contains_key(source) {
            (merge_rejection(UploadError::ChunkMissing), world)
        } else {
            let joined = World {
                files: world.files.insert(target, world.files[target] + world.files[source]),
                ..world
            };
            if written + world.files[source].len() > item.file_size {
                (merge_rejection(UploadError::SizeMismatch), joined)
            } else {
                merge_outcome(
                    storage_folder,
                    item,
                    plan,
                    next + 1,
                    written + world.files[source].len(),
                    joined,
                )
            }
        }
    } else if written != item.file_size {
        (merge_rejection(UploadError::SizeMismatch), world)
    } else if sha256_hex(world.files[target]) != item.id {
        (merge_rejection(UploadError::IntegrityFailure), world)
    } else {
        (
            ReplyView::UploadCompleted { file_path: target },
            World {
                uploads: world.uploads.insert(item.id, completed_item(item)),
                files: without_dir(world.files, upload_dir_path(storage_folder, item.id)),
                ..world
            },
        )
    }
}

/// What the completion of an upload comes to, said at once: the answer, and
/// what the host holds afterwards.
pub open spec fn complete_upload_outcome(
    storage_folder: Seq<char>,
    file_id: Seq<char>,
    world: World,
) -> (ReplyView, World) {
    if !world.uploads.contains_key(file_id) {
        (rejection(UploadError::NotFound, "File not found"@), world)
    } else {
        let item = world.uploads[file_id];
        let listed = listed_chunks(world.chunks, item.id);
        if total_size(listed) != item.file_size {
            (merge_rejection(UploadError::SizeMismatch), world)
        } else {
            merge_outcome(
                storage_folder,
                item,
                sort_by_number(listed),
                0,
                0,
                World { files: world.files.insert(item.file_path, Seq::<u8>::empty()), ..world },
            )
        }
    }
}

proof fn lemma_run_merge(
    storage_folder: Seq<char>,
    file_id: Seq<char>,
    item: UploadItemView,
    plan: Seq<ChunkView>,
    next: usize,
    written: u64,
    world: World,
    fuel: nat,
)
    requires
        world.measurable(),
        world.uploads.contains_key(item.id),
        !path_in_use(world.uploads, item.file_path, item.id),
        world.files.contains_key(item.file_path),
        world.files[item.file_path].len() == written,
        next <= plan.len() <= usize::MAX,
        fuel >= plan.len() - next + 3,
    ensures
        ({
            let (stage, action) = merge_next(storage_folder, item, plan, next, written);
            let outcome = merge_outcome(
                storage_folder,
                item,
                plan,
                next as nat,
                written as nat,
                world,
            );
            run_complete_upload(storage_folder, file_id, stage, action, world, fuel) == (
                Some(outcome.0),
                outcome.1,
            )
        }),
    decreases plan.len() - next,
{
    reveal_with_fuel(run_complete_upload, 4);
    let target = item.file_path;
    if next < plan.len() {
        let source = chunk_path_of(storage_folder, item, plan[next as int]);
        if world.files.contains_key(source) {
            let size = world.files[source].len();
            let joined = World {
                files: world.files.insert(target, world.files[target] + world.files[source]),
                ..world
            };
            if written + size <= item.file_size {
                assert(joined.measurable());
                lemma_run_merge(
                    storage_folder,
                    file_id,
                    item,
                    plan,
                    (next + 1) as usize,
                    (written + size) as u64,
                    joined,
                    (fuel - 1) as nat,
                );
            }
        }
    }
}

/// Run step by step against a host that never fails, the completion of an
/// upload comes to what `complete_upload_outcome` says.
pub proof fn lemma_serve_complete(storage_folder: Seq<char>, file_id: Seq<char>, world: World)
    requires
        world.wf(),
        world.measurable(),
        listed_chunks(world.chunks, file_id).len() <= usize::MAX,
    ensures
        serve_complete(storage_folder, file_id, world).0 == Some(
            complete_upload_outcome(storage_folder, file_id, world).0,
        ),
        serve_complete(storage_folder, file_id, world).1 == complete_upload_outcome(
            storage_folder,
            file_id,
            world,
        ).1,
{
    reveal_with_fuel(run_complete_upload, 4);
    if world.uploads.contains_key(file_id) {
        let item = world.uploads[file_id];
        let listed = listed_chunks(world.chunks, item.id);
        if total_size(listed) == item.file_size {
            let plan = sort_by_number(listed);
            lemma_sort_by_number(listed);
            let created = World {
                files: world.files.insert(item.file_path, Seq::<u8>::empty()),
                ..world
            };
            assert(created.measurable());
            lemma_run_merge(
                storage_folder,
                file_id,
                item,
                plan,
                0,
                0,
                created,
                (listed.len() + 5) as nat,
            );
        }
    }
}

/// A merge fails before anything is written where the sizes on record do not
/// add up to the size declared: the answer names the mismatch, and the
/// session, the chunk records and the files stay as they were.
pub proof fn lemma_complete_size_mismatch(
    storage_folder: Seq<char>,
    file_id: Seq<char>,
    world: World,
)
    requires
        world.wf(),
        world.measurable(),
        listed_chunks(world.chunks, file_id).len() <= usize::MAX,
        world.uploads.contains_key(file_id),
        total_size(listed_chunks(world.chunks, file_id)) != world.uploads[file_id].file_size,
    ensures
        serve_complete(storage_folder, file_id, world) == (
            Some(merge_rejection(UploadError::SizeMismatch)),
            world,
        ),
{
    lemma_serve_complete(storage_folder, file_id, world);
}

/// The contents of the chunk files of a plan, one after the other.
pub open spec fn joined_chunks(
    storage_folder: Seq<char>,
    item: UploadItemView,
    plan: Seq<ChunkView>,
    files: Map<Seq<char>, Seq<u8>>,
) -> Seq<u8>
    decreases plan.len(),
{
    if plan.len() == 0 {
        Seq::<u8>::empty()
    } else {
        joined_chunks(storage_folder, item, plan.drop_last(), files) + files[chunk_path_of(
            storage_folder,
            item,
            plan.last(),
        )]
    }
}

proof fn lemma_joined_grows(
    storage_folder: Seq<char>,
    item: UploadItemView,
    plan: Seq<ChunkView>,
    files: Map<Seq<char>, Seq<u8>>,
    taken: int,
)
    requires
        0 <= taken <= plan.len(),
    ensures
        joined_chunks(storage_folder, item, plan.subrange(0, taken), files).len() <= joined_chunks(
            storage_folder,
            item,
            plan,
            files,
        ).len(),
        taken < plan.len() ==> joined_chunks(
            storage_folder,
            item,
            plan.subrange(0, taken + 1),
            files,
        ) == joined_chunks(storage_folder, item, plan.subrange(0, taken), files)
            + files[chunk_path_of(storage_folder, item, plan[taken])],
    decreases plan.len() - taken,
{
    if taken < plan.len() {
        let longer = plan.subrange(0, taken + 1);
        assert(longer.drop_last() =~= plan.subrange(0, taken));
        assert(longer.last() == plan[taken]);
        lemma_joined_grows(storage_folder, item, plan, files, taken + 1);
    } else {
        assert(plan.subrange(0, taken) =~= plan);
    }
}

proof fn lemma_merge_joins(
    storage_folder: Seq<char>,
    item: UploadItemView,
    plan: Seq<ChunkView>,
    next: nat,
    world: World,
    files: Map<Seq<char>, Seq<u8>>,
)
    requires
        next <= plan.len(),
        world.files.contains_key(item.file_path),
        world.files[item.file_path] == joined_chunks(
            storage_folder,
            item,
            plan.subrange(0, next as int),
            files,
        ),
        forall|i: int|
            0 <= i < plan.len() ==> {
                let path = #[trigger] chunk_path_of(storage_folder, item, plan[i]);
                path != item.file_path && world.files.contains_key(path) && world.files[path]
                    == files[path]
            },
        joined_chunks(storage_folder, item, plan, files).len() == item.file_size,
        sha256_hex(joined_chunks(storage_folder, item, plan, files)) == item.id,
    ensures
        ({
            let outcome = merge_outcome(
                storage_folder,
                item,
                plan,
                next,
                world.files[item.file_path].len(),
                world,
            );
            let whole = joined_chunks(storage_folder, item, plan, files);
            &&& outcome.0 == ReplyView::UploadCompleted { file_path: item.file_path }
            &&& outcome.1.uploads == world.uploads.insert(item.id, completed_item(item))
            &&& outcome.1.chunks == world.chunks
            &&& outcome.1.files == without_dir(
                world.files.insert(item.file_path, whole),
                upload_dir_path(storage_folder, item.id),
            )
        }),
    decreases plan.len() - next,
{
    let target = item.file_path;
    let whole = joined_chunks(storage_folder, item, plan, files);
    if next < plan.len() {
        let source = chunk_path_of(storage_folder, item, plan[next as int]);
        lemma_joined_grows(storage_folder, item, plan, files, next as int);
        lemma_joined_grows(storage_folder, item, plan, files, next as int + 1);
        let joined = World {
            files: world.files.insert(target, world.files[target] + world.files[source]),
            ..world
        };
        assert forall|i: int| 0 <= i < plan.len() implies {
            let path = #[trigger] chunk_path_of(storage_folder, item, plan[i]);
            path != item.file_path && joined.files.contains_key(path) && joined.files[path]
                == files[path]
        } by {
            let path = chunk_path_of(storage_folder, item, plan[i]);
            assert(path != item.file_path && world.files.contains_key(path));
        }
        lemma_merge_joins(storage_folder, item, plan, next + 1, joined, files);
        assert(joined.files.insert(target, whole) =~= world.files.insert(target, whole));
    } else {
        assert(plan.subrange(0, next as int) =~= plan);
        assert(world.files.insert(target, whole) =~= world.files);
    }
}

/// A merge joins the chunk files in ascending order of the chunk numbers:
/// where every chunk on record has its file, the files are as long in all as
/// the size declared and on record, and the digest of their contents, one
/// after the other in that order, is the session's id, the completion
/// succeeds, the session's file holds exactly those contents, and the
/// session is stored as completed.
pub proof fn lemma_complete_joins_chunks(
    storage_folder: Seq<char>,
    file_id: Seq<char>,
    world: World,
)
    requires
        world.wf(),
        world.measurable(),
        listed_chunks(world.chunks, file_id).len() <= usize::MAX,
        world.uploads.contains_key(file_id),
        total_size(listed_chunks(world.chunks, file_id)) == world.uploads[file_id].file_size,
        forall|i: int|
            0 <= i < sort_by_number(listed_chunks(world.chunks, file_id)).len() ==> {
                let path = #[trigger] chunk_path_of(
                    storage_folder,
                    world.uploads[file_id],
                    sort_by_number(listed_chunks(world.chunks, file_id))[i],
                );
                path != world.uploads[file_id].file_path && world.files.contains_key(path)
            },
        joined_chunks(
            storage_folder,
            world.uploads[file_id],
            sort_by_number(listed_chunks(world.chunks, file_id)),
            world.files,
        ).len() == world.uploads[file_id].file_size,
        sha256_hex(
            joined_chunks(
                storage_folder,
                world.uploads[file_id],
                sort_by_number(listed_chunks(world.chunks, file_id)),
                world.files,
            ),
        ) == file_id,
        !lies_below(world.uploads[file_id].file_path, upload_dir_path(storage_folder, file_id)),
    ensures
        ({
            let item = world.uploads[file_id];
            let plan = sort_by_number(listed_chunks(world.chunks, file_id));
            let after = serve_complete(storage_folder, file_id, world).1;
            &&& ascending(plan)
            &&& plan.to_multiset() == listed_chunks(world.chunks, file_id).to_multiset()
            &&& serve_complete(storage_folder, file_id, world).0 == Some(
                ReplyView::UploadCompleted { file_path: item.file_path },
            )
            &&& after.files.contains_key(item.file_path)
            &&& after.files[item.file_path] == joined_chunks(
                storage_folder,
                item,
                plan,
                world.files,
            )
            &&& after.uploads == world.uploads.insert(file_id, completed_item(item))
            &&& after.chunks == world.chunks
        }),
{
    let item = world.uploads[file_id];
    let listed = listed_chunks(world.chunks, file_id);
    let plan = sort_by_number(listed);
    lemma_sort_by_number(listed);
    lemma_serve_complete(storage_folder, file_id, world);
    let created = World { files: world.files.insert(item.file_path, Seq::<u8>::empty()), ..world };
    assert(plan.subrange(0, 0) =~= Seq::<ChunkView>::empty());
    assert forall|i: int| 0 <= i < plan.len() implies {
        let path = #[trigger] chunk_path_of(storage_folder, item, plan[i]);
        path != item.file_path && created.files.contains_key(path) && created.files[path]
            == world.files[path]
    } by {
        let path = chunk_path_of(storage_folder, item, plan[i]);
        assert(path != item.file_path && world.files.contains_key(path));
    }
    lemma_merge_joins(storage_folder, item, plan, 0, created, world.files);
}

proof fn lemma_merge_keeps_constraints(
    storage_folder: Seq<char>,
    item: UploadItemView,
    plan: Seq<ChunkView>,
    next: nat,
    written: nat,
    world: World,
)
    requires
        world.wf(),
        world.uploads.contains_key(item.id),
        world.uploads[item.id].file_path == item.file_path,
    ensures
        merge_outcome(storage_folder, item, plan, next, written, world).1.wf(),
    decreases plan.len() - next,
{
    let target = item.file_path;
    if next < plan.len() {
        let source = chunk_path_of(storage_folder, item, plan[next as int]);
        if world.files.contains_key(source) {
            let joined = World {
                files: world.files.insert(target, world.files[target] + world.files[source]),
                ..world
            };
            if written + world.files[source].len() <= item.file_size {
                lemma_merge_keeps_constraints(
                    storage_folder,
                    item,
                    plan,
                    next + 1,
                    written + world.files[source].len(),
                    joined,
                );
            }
        }
    } else {
        let after = World {
            uploads: world.uploads.insert(item.id, completed_item(item)),
            files: without_dir(world.files, upload_dir_path(storage_folder, item.id)),
            ..world
        };
        assert forall|id: Seq<char>| #[trigger] after.uploads.contains_key(id) implies !path_in_use(
            after.uploads,
            after.uploads[id].file_path,
            id,
        ) by {
            assert(world.uploads.contains_key(id));
            assert(!path_in_use(world.uploads, world.uploads[id].file_path, id));
            assert(world.uploads.contains_key(item.id));
        }
    }
}

/// The completion of an upload keeps the constraints of the repository.
pub proof fn lemma_serve_complete_keeps_constraints(
    storage_folder: Seq<char>,
    file_id: Seq<char>,
    world: World,
)
    requires
        world.wf(),
        world.measurable(),
        listed_chunks(world.chunks, file_id).len() <= usize::MAX,
    ensures
        serve_complete(storage_folder, file_id, world).1.wf(),
{
    lemma_serve_complete(storage_folder, file_id, world);
    if world.uploads.contains_key(file_id) {
        let item = world.uploads[file_id];
        let created = World {
            files: world.files.insert(item.file_path, Seq::<u8>::empty()),
            ..world
        };
        lemma_merge_keeps_constraints(
            storage_folder,
            item,
            sort_by_number(listed_chunks(world.chunks, item.id)),
            0,
            0,
            created,
        );
    }
}

} // verus!
