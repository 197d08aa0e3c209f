use crate::records::{chunk_views, Chunk, ChunkView};
use vstd::prelude::*;

verus! {

/// A list of chunks with one more put in by its number: behind every chunk
/// whose number is not greater, before the others.
pub open spec fn insert_by_number(sorted: Seq<ChunkView>, chunk: ChunkView) -> Seq<ChunkView>
    decreases sorted.len(),
{
    if sorted.len() == 0 {
        seq![chunk]
    } else if sorted.last().chunk_number <= chunk.chunk_number {
        sorted.push(chunk)
    } else {
        insert_by_number(sorted.drop_last(), chunk).push(sorted.last())
    }
}

/// The chunks in ascending order of their numbers; chunks with the same
/// number keep their order.
pub open spec fn sort_by_number(chunks: Seq<ChunkView>) -> Seq<ChunkView>
    decreases chunks.len(),
{
    if chunks.len() == 0 {
        Seq::<ChunkView>::empty()
    } else {
        insert_by_number(sort_by_number(chunks.drop_last()), chunks.last())
    }
}

/// Whether the numbers of a list of chunks never fall.
pub open spec fn ascending(chunks: Seq<ChunkView>) -> bool {
    forall|i: int, j: int|
        0 <= i < j < chunks.len() ==> (#[trigger] chunks[i]).chunk_number <= (
        #[trigger] chunks[j]).chunk_number
}

/// The sum of the sizes on record.
pub open spec fn total_size(chunks: Seq<ChunkView>) -> int
    decreases chunks.len(),
{
    if chunks.len() == 0 {
        0
    } else {
        total_size(chunks.drop_last()) + chunks.last().chunk_size
    }
}

/// The numbers of the chunks, in the order of the list.
pub open spec fn chunk_numbers(chunks: Seq<ChunkView>) -> Seq<i32> {
    chunks.map_values(|chunk: ChunkView| chunk.chunk_number)
}

/// Putting a chunk into a list at the one place that its number allows is
/// what `insert_by_number` does.
pub proof fn lemma_insert_at(sorted: Seq<ChunkView>, chunk: ChunkView, at: int)
    requires
        0 <= at <= sorted.len(),
        at > 0 ==> sorted[at - 1].chunk_number <= chunk.chunk_number,
        forall|j: int| at <= j < sorted.len() ==> (#[trigger] sorted[j]).chunk_number
            > chunk.chunk_number,
    ensures
        insert_by_number(sorted, chunk) == sorted.insert(at, chunk),
    decreases sorted.len(),
{
    if sorted.len() == 0 {
        assert(sorted.insert(at, chunk) =~= seq![chunk]);
    } else if at == sorted.len() {
        assert(sorted.insert(at, chunk) =~= sorted.push(chunk));
    } else {
        let front = sorted.drop_last();
        assert(sorted[sorted.len() - 1].chunk_number > chunk.chunk_number);
        assert forall|j: int| at <= j < front.len() implies (#[trigger] front[j]).chunk_number
            > chunk.chunk_number by {
            assert(front[j] == sorted[j]);
        }
        lemma_insert_at(front, chunk, at);
        assert(front.insert(at, chunk).push(sorted.last()) =~= sorted.insert(at, chunk));
    }
}

/// A chunk put into an ascending list leaves it ascending, one longer, and
/// with the same chunks and the new one.
pub proof fn lemma_insert_by_number(sorted: Seq<ChunkView>, chunk: ChunkView)
    requires
        ascending(sorted),
    ensures
        ascending(insert_by_number(sorted, chunk)),
        insert_by_number(sorted, chunk).len() == sorted.len() + 1,
        insert_by_number(sorted, chunk).to_multiset() == sorted.to_multiset().insert(chunk),
    decreases sorted.len(),
{
    broadcast use vstd::seq_lib::group_to_multiset_ensures;

    let result = insert_by_number(sorted, chunk);
    if sorted.len() == 0 {
        assert(sorted =~= Seq::<ChunkView>::empty());
        assert(result =~= Seq::<ChunkView>::empty().push(chunk));
    } else if sorted.last().chunk_number <= chunk.chunk_number {
        assert forall|i: int, j: int| 0 <= i < j < result.len() implies (
        #[trigger] result[i]).chunk_number <= (#[trigger] result[j]).chunk_number by {
            if j == sorted.len() {
                if i < sorted.len() - 1 {
                    assert(sorted[i].chunk_number <= sorted[sorted.len() - 1].chunk_number);
                }
            } else {
                assert(sorted[i].chunk_number <= sorted[j].chunk_number);
            }
        }
    } else {
        let front = sorted.drop_last();
        let last = sorted.last();
        assert forall|i: int, j: int| 0 <= i < j < front.len() implies (
        #[trigger] front[i]).chunk_number <= (#[trigger] front[j]).chunk_number by {
            assert(sorted[i].chunk_number <= sorted[j].chunk_number);
        }
        lemma_insert_by_number(front, chunk);
        let inner = insert_by_number(front, chunk);
        assert(sorted =~= front.push(last));
        assert forall|i: int| 0 <= i < inner.len() implies (#[trigger] inner[i]).chunk_number
            <= last.chunk_number by {
            assert(inner.to_multiset().count(inner[i]) > 0);
            if inner[i] != chunk {
                assert(front.to_multiset().count(inner[i]) > 0);
                let k = choose|k: int| 0 <= k < front.len() && front[k] == inner[i];
                assert(sorted[k].chunk_number <= sorted[sorted.len() - 1].chunk_number);
            }
        }
        assert forall|i: int, j: int| 0 <= i < j < result.len() implies (
        #[trigger] result[i]).chunk_number <= (#[trigger] result[j]).chunk_number by {
            if j == inner.len() {
                assert(result[i] == inner[i]);
            } else {
                assert(inner[i].chunk_number <= inner[j].chunk_number);
            }
        }
        assert(result.to_multiset() =~= sorted.to_multiset().insert(chunk));
    }
}

/// Sorting gives an ascending list of the same chunks.
pub proof fn lemma_sort_by_number(chunks: Seq<ChunkView>)
    ensures
        ascending(sort_by_number(chunks)),
        sort_by_number(chunks).len() == chunks.len(),
        sort_by_number(chunks).to_multiset() == chunks.to_multiset(),
    decreases chunks.len(),
{
    broadcast use vstd::seq_lib::group_to_multiset_ensures;

    if chunks.len() == 0 {
        assert(chunks =~= Seq::<ChunkView>::empty());
    } else {
        let front = chunks.drop_last();
        lemma_sort_by_number(front);
        lemma_insert_by_number(sort_by_number(front), chunks.last());
        assert(chunks =~= front.push(chunks.last()));
    }
}

/// The sum of the sizes stays within the number of chunks times the
/// greatest size a record can hold.
pub proof fn lemma_total_size_bounds(chunks: Seq<ChunkView>)
    ensures
        -(chunks.len() * 0x8000_0000_0000_0000) <= total_size(chunks) <= chunks.len()
            * 0x8000_0000_0000_0000,
    decreases chunks.len(),
{
    if chunks.len() > 0 {
        lemma_total_size_bounds(chunks.drop_last());
        assert((chunks.len() - 1) * 0x8000_0000_0000_0000 + 0x8000_0000_0000_0000 == chunks.len()
            * 0x8000_0000_0000_0000) by (nonlinear_arith);
    }
}

/// Sorting keeps the sum of the sizes.
pub proof fn lemma_sort_keeps_total(chunks: Seq<ChunkView>)
    ensures
        total_size(sort_by_number(chunks)) == total_size(chunks),
    decreases chunks.len(),
{
    if chunks.len() > 0 {
        let front = chunks.drop_last();
        lemma_sort_keeps_total(front);
        lemma_insert_keeps_total(sort_by_number(front), chunks.last());
    }
}

/// Putting a chunk in by its number adds its size to the sum.
pub proof fn lemma_insert_keeps_total(sorted: Seq<ChunkView>, chunk: ChunkView)
    ensures
        total_size(insert_by_number(sorted, chunk)) == total_size(sorted) + chunk.chunk_size,
    decreases sorted.len(),
{
    if sorted.len() == 0 {
        let single = seq![chunk];
        assert(single.drop_last() =~= Seq::<ChunkView>::empty());
        assert(total_size(single.drop_last()) == 0);
        assert(single.last() == chunk);
        assert(total_size(single) == chunk.chunk_size);
        assert(total_size(sorted) == 0);
    } else if sorted.last().chunk_number <= chunk.chunk_number {
        assert(sorted.push(chunk).drop_last() =~= sorted);
    } else {
        let inner = insert_by_number(sorted.drop_last(), chunk);
        lemma_insert_keeps_total(sorted.drop_last(), chunk);
        assert(inner.push(sorted.last()).drop_last() =~= inner);
        assert(inner.push(sorted.last()).last() == sorted.last());
    }
}

/// Whether no two chunks of a list have the same number.
pub open spec fn distinct_numbers(chunks: Seq<ChunkView>) -> bool {
    forall|i: int, j: int|
        0 <= i < j < chunks.len() ==> (#[trigger] chunks[i]).chunk_number != (
        #[trigger] chunks[j]).chunk_number
}

/// Whether the numbers of a list of chunks always rise.
pub open spec fn strictly_ascending(chunks: Seq<ChunkView>) -> bool {
    forall|i: int, j: int|
        0 <= i < j < chunks.len() ==> (#[trigger] chunks[i]).chunk_number < (
        #[trigger] chunks[j]).chunk_number
}

/// Sorted, chunks with distinct numbers are in strictly ascending order.
pub proof fn lemma_sort_distinct(chunks: Seq<ChunkView>)
    requires
        distinct_numbers(chunks),
    ensures
        strictly_ascending(sort_by_number(chunks)),
{
    broadcast use vstd::seq_lib::group_to_multiset_ensures;

    let sorted = sort_by_number(chunks);
    lemma_sort_by_number(chunks);
    assert(chunks.no_duplicates()) by {
        assert forall|i: int, j: int|
            0 <= i < chunks.len() && 0 <= j < chunks.len() && i != j implies chunks[i]
            != chunks[j] by {
            if i < j {
                assert(chunks[i].chunk_number != chunks[j].chunk_number);
            } else {
                assert(chunks[j].chunk_number != chunks[i].chunk_number);
            }
        }
    }
    chunks.lemma_multiset_has_no_duplicates();
    sorted.lemma_multiset_has_no_duplicates_conv();
    assert forall|i: int, j: int| 0 <= i < j < sorted.len() implies (
    #[trigger] sorted[i]).chunk_number < (#[trigger] sorted[j]).chunk_number by {
        assert(sorted[i] != sorted[j]);
        assert(sorted.contains(sorted[i]));
        assert(sorted.contains(sorted[j]));
        assert(sorted.to_multiset().count(sorted[i]) > 0);
        assert(sorted.to_multiset().count(sorted[j]) > 0);
        assert(chunks.contains(sorted[i]));
        assert(chunks.contains(sorted[j]));
        let k = choose|k: int| 0 <= k < chunks.len() && chunks[k] == sorted[i];
        let l = choose|l: int| 0 <= l < chunks.len() && chunks[l] == sorted[j];
        if k < l {
            assert(chunks[k].chunk_number != chunks[l].chunk_number);
        } else {
            assert(chunks[l].chunk_number != chunks[k].chunk_number);
        }
    }
}

/// Two lists in strictly ascending order that hold the same chunks are the
/// same list.
pub proof fn lemma_strictly_ascending_unique(a: Seq<ChunkView>, b: Seq<ChunkView>)
    requires
        strictly_ascending(a),
        strictly_ascending(b),
        forall|chunk: ChunkView| a.contains(chunk) <==> b.contains(chunk),
    ensures
        a == b,
    decreases a.len(),
{
    if a.len() == 0 {
        if b.len() > 0 {
            assert(b.contains(b[0]));
        }
        assert(a =~= b);
    } else if b.len() == 0 {
        assert(a.contains(a[0]));
    } else {
        let top = a.last();
        assert(a.contains(top));
        assert(b.contains(top));
        let k = choose|k: int| 0 <= k < b.len() && b[k] == top;
        if k != b.len() - 1 {
            assert(b[k].chunk_number < b[b.len() - 1].chunk_number);
            assert(b.contains(b.last()));
            let j = choose|j: int| 0 <= j < a.len() && a[j] == b.last();
            if j < a.len() - 1 {
                assert(a[j].chunk_number < a[a.len() - 1].chunk_number);
            }
        }
        assert(b.last() == top);
        let front_a = a.drop_last();
        let front_b = b.drop_last();
        assert forall|chunk: ChunkView| front_a.contains(chunk) <==> front_b.contains(
            chunk,
        ) by {
            if front_a.contains(chunk) {
                let i = choose|i: int| 0 <= i < front_a.len() && front_a[i] == chunk;
                assert(a[i].chunk_number < a[a.len() - 1].chunk_number);
                assert(a.contains(chunk));
                let m = choose|m: int| 0 <= m < b.len() && b[m] == chunk;
                assert(front_b[m] == chunk);
            }
            if front_b.contains(chunk) {
                let i = choose|i: int| 0 <= i < front_b.len() && front_b[i] == chunk;
                assert(b[i].chunk_number < b[b.len() - 1].chunk_number);
                assert(b.contains(chunk));
                let m = choose|m: int| 0 <= m < a.len() && a[m] == chunk;
                assert(front_a[m] == chunk);
            }
        }
        assert forall|i: int, j: int| 0 <= i < j < front_a.len() implies (
        #[trigger] front_a[i]).chunk_number < (#[trigger] front_a[j]).chunk_number by {
            assert(a[i].chunk_number < a[j].chunk_number);
        }
        assert forall|i: int, j: int| 0 <= i < j < front_b.len() implies (
        #[trigger] front_b[i]).chunk_number < (#[trigger] front_b[j]).chunk_number by {
            assert(b[i].chunk_number < b[j].chunk_number);
        }
        lemma_strictly_ascending_unique(front_a, front_b);
        assert(a =~= front_a.push(top));
        assert(b =~= front_b.push(top));
    }
}

/// The order in which chunks with distinct numbers are listed does not
/// matter to the order in which they are merged: two lists of the same
/// chunks are sorted into the same list.
pub proof fn lemma_sort_ignores_order(a: Seq<ChunkView>, b: Seq<ChunkView>)
    requires
        distinct_numbers(a),
        distinct_numbers(b),
        a.to_multiset() == b.to_multiset(),
    ensures
        sort_by_number(a) == sort_by_number(b),
{
    broadcast use vstd::seq_lib::group_to_multiset_ensures;

    lemma_sort_by_number(a);
    lemma_sort_by_number(b);
    lemma_sort_distinct(a);
    lemma_sort_distinct(b);
    let x = sort_by_number(a);
    let y = sort_by_number(b);
    assert forall|chunk: ChunkView| x.contains(chunk) <==> y.contains(chunk) by {
        assert(x.contains(chunk) <==> x.to_multiset().count(chunk) > 0);
        assert(y.contains(chunk) <==> y.to_multiset().count(chunk) > 0);
    }
    lemma_strictly_ascending_unique(x, y);
}

/// Puts the chunks in ascending order of their numbers.
pub fn sort_chunks(chunks: &Vec<Chunk>) -> (sorted: Vec<Chunk>)
    ensures
        chunk_views(sorted@) == sort_by_number(chunk_views(chunks@)),
{
    let mut sorted: Vec<Chunk> = Vec::new();
    let mut taken: usize = 0;
    assert(chunk_views(chunks@).subrange(0, 0) =~= Seq::<ChunkView>::empty());
    assert(chunk_views(sorted@) =~= Seq::<ChunkView>::empty());
    while taken < chunks.len()
        invariant
            taken <= chunks.len(),
            chunk_views(sorted@) == sort_by_number(chunk_views(chunks@).subrange(0, taken as int)),
        decreases chunks.len() - taken,
    {
        let chunk = chunks[taken].clone();
        let ghost before = chunk_views(sorted@);
        let mut at: usize = sorted.len();
        while at > 0 && sorted[at - 1].chunk_number > chunk.chunk_number
            invariant
                at <= sorted.len(),
                before == chunk_views(sorted@),
                forall|j: int| at <= j < before.len() ==> (#[trigger] before[j]).chunk_number
                    > chunk.chunk_number,
            decreases at,
        {
            at = at - 1;
        }
        proof {
            lemma_insert_at(before, chunk@, at as int);
            let prefix = chunk_views(chunks@).subrange(0, taken + 1);
            assert(prefix.drop_last() =~= chunk_views(chunks@).subrange(0, taken as int));
            assert(prefix.last() == chunk@);
        }
        sorted.insert(at, chunk);
        assert(chunk_views(sorted@) =~= before.insert(at as int, chunk@));
        taken = taken + 1;
    }
    assert(chunk_views(chunks@).subrange(0, taken as int) =~= chunk_views(chunks@));
    sorted
}

/// Adds up the sizes on record.
pub fn total_chunk_size(chunks: &Vec<Chunk>) -> (total: i128)
    ensures
        total == total_size(chunk_views(chunks@)),
{
    let mut total: i128 = 0;
    let mut seen: usize = 0;
    assert(chunk_views(chunks@).subrange(0, 0) =~= Seq::<ChunkView>::empty());
    while seen < chunks.len()
        invariant
            seen <= chunks.len(),
            total == total_size(chunk_views(chunks@).subrange(0, seen as int)),
        decreases chunks.len() - seen,
    {
        proof {
            let prefix = chunk_views(chunks@).subrange(0, seen + 1);
            assert(prefix.drop_last() =~= chunk_views(chunks@).subrange(0, seen as int));
            assert(prefix.last() == chunks@[seen as int]@);
            lemma_total_size_bounds(prefix);
            lemma_total_size_bounds(prefix.drop_last());
            assert(prefix.len() * 0x8000_0000_0000_0000 <= 0xffff_ffff_ffff_ffff
                * 0x8000_0000_0000_0000) by (nonlinear_arith)
                requires
                    prefix.len() <= 0xffff_ffff_ffff_ffff,
            ;
        }
        total = total + chunks[seen].chunk_size as i128;
        seen = seen + 1;
    }
    assert(chunk_views(chunks@).subrange(0, seen as int) =~= chunk_views(chunks@));
    total
}

/// The numbers of the chunks, in the order of the list.
pub fn numbers_of(chunks: &Vec<Chunk>) -> (numbers: Vec<i32>)
    ensures
        numbers@ == chunk_numbers(chunk_views(chunks@)),
{
    let mut numbers: Vec<i32> = Vec::new();
    let mut seen: usize = 0;
    while seen < chunks.len()
        invariant
            seen <= chunks.len(),
            numbers@ == chunk_numbers(chunk_views(chunks@)).subrange(0, seen as int),
        decreases chunks.len() - seen,
    {
        numbers.push(chunks[seen].chunk_number);
        assert(numbers@ =~= chunk_numbers(chunk_views(chunks@)).subrange(0, seen + 1));
        seen = seen + 1;
    }
    assert(numbers@ =~= chunk_numbers(chunk_views(chunks@)));
    numbers
}

} // verus!
