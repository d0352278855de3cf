//! How an artifact is cut into the ordered chunks of one upload stream.
use vstd::prelude::*;

verus! {

/// Bytes in one chunk of an upload stream.
pub const CHUNK_SIZE: u64 = 1_048_576;

/// The bytes of one chunk: `len` bytes from `offset`.
#[derive(PartialEq, Eq, Structural, Clone, Copy, Debug)]
pub struct ChunkRange {
    pub offset: u64,
    pub len: u64,
}

/// Number of chunks of an artifact of `total` bytes.
pub open spec fn chunk_count(total: nat) -> nat {
    if total == 0 {
        0
    } else {
        ((total - 1) as nat / CHUNK_SIZE as nat) + 1
    }
}

/// Chunk `i` of an artifact of `total` bytes: full chunks in order, the
/// last one holding what remains.
pub open spec fn chunk_at(total: nat, i: int) -> ChunkRange {
    let offset = i * CHUNK_SIZE;
    ChunkRange {
        offset: offset as u64,
        len: (if total - offset < CHUNK_SIZE {
            total - offset
        } else {
            CHUNK_SIZE as int
        }) as u64,
    }
}

/// The chunks of an artifact of `total` bytes, in stream order. Each starts
/// where the one before ended, none is empty, all but the last are full, and
/// together they cover the artifact.
pub fn chunk_plan(total: u64) -> (r: Vec<ChunkRange>)
    ensures
        r@.len() == chunk_count(total as nat),
        forall|i: int| 0 <= i < r@.len() ==> #[trigger] r@[i] == chunk_at(total as nat, i),
{
    let mut r: Vec<ChunkRange> = Vec::new();
    let mut offset: u64 = 0;
    while offset < total
        invariant
            offset <= total,
            offset < total ==> offset == r@.len() * CHUNK_SIZE,
            offset == total ==> r@.len() * CHUNK_SIZE >= total,
            forall|i: int| 0 <= i < r@.len() ==> #[trigger] r@[i] == chunk_at(total as nat, i),
            r@.len() > 0 ==> (r@.len() - 1) * CHUNK_SIZE < total,
        decreases total - offset,
    {
        let rest = total - offset;
        let len = if rest < CHUNK_SIZE {
            rest
        } else {
            CHUNK_SIZE
        };
        r.push(ChunkRange { offset, len });
        offset = offset + len;
    }
    let n = r.len();
    proof {
        let k = n as int;
        if total > 0 {
            assert(k > 0);
            assert((total - 1) as nat / CHUNK_SIZE as nat == k - 1) by (nonlinear_arith)
                requires
                    (k - 1) * 1_048_576 < total,
                    k * 1_048_576 >= total,
                    total > 0,
            ;
        }
    }
    r
}

/// One message of an upload stream.
#[derive(PartialEq, Eq, Structural, Clone, Copy, Debug)]
pub enum StreamItem {
    /// The bytes of this range of the artifact.
    Chunk(ChunkRange),
    /// The artifact is complete.
    EndOfFile,
}

/// The messages of one upload stream for an artifact of `total` bytes: its
/// chunks in order, then the end-of-file signal.
pub open spec fn stream_of(total: nat) -> Seq<StreamItem> {
    Seq::new(chunk_count(total), |i: int| StreamItem::Chunk(chunk_at(total, i))).push(
        StreamItem::EndOfFile,
    )
}

/// The messages of one upload stream.
pub fn stream_plan(total: u64) -> (r: Vec<StreamItem>)
    ensures
        r@ == stream_of(total as nat),
{
    let chunks = chunk_plan(total);
    let mut r: Vec<StreamItem> = Vec::new();
    let mut i: usize = 0;
    while i < chunks.len()
        invariant
            i <= chunks@.len() == chunk_count(total as nat),
            forall|j: int| 0 <= j < chunks@.len() ==> #[trigger] chunks@[j] == chunk_at(total as nat, j),
            r@ == Seq::new(i as nat, |j: int| StreamItem::Chunk(chunk_at(total as nat, j))),
        decreases chunks@.len() - i,
    {
        r.push(StreamItem::Chunk(chunks[i]));
        i = i + 1;
        assert(r@ =~= Seq::new(i as nat, |j: int| StreamItem::Chunk(chunk_at(total as nat, j))));
    }
    r.push(StreamItem::EndOfFile);
    r
}

} // verus!
