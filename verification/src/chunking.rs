//! Splitting a payload into pieces that each fit one ledger message.
//!
//! A payload of `len` bytes cut at `size` bytes gives `ceil(len / size)` pieces. Piece
//! `i` starts at offset `i * size`; every piece but the last is `size` bytes long.

use vstd::arithmetic::div_mod::{lemma_fundamental_div_mod, lemma_fundamental_div_mod_converse, lemma_mod_bound};
use vstd::prelude::*;
use vstd::slice::{slice_subrange, slice_to_vec};

verus! {

/// Piece size used for uploads: well below the ledger's message ceiling, so that the
/// instruction's own fields and the signatures fit beside the bytes.
pub const CHUNK_SIZE: usize = 900;

/// Number of pieces of `size` bytes that a payload of `len` bytes is cut into.
pub open spec fn chunk_count(len: nat, size: nat) -> nat
    recommends
        size > 0,
{
    ((len + size - 1) / (size as int)) as nat
}

/// Offset in the payload at which piece `index` starts.
pub open spec fn chunk_offset(index: nat, size: nat) -> nat {
    index * size
}

/// Offset in the payload, of `len` bytes, just behind piece `index`.
pub open spec fn chunk_end(len: nat, index: nat, size: nat) -> nat {
    if (index + 1) * size <= len {
        (index + 1) * size
    } else {
        len
    }
}

/// The bytes of piece `index`.
pub open spec fn chunk_bytes(payload: Seq<u8>, index: nat, size: nat) -> Seq<u8> {
    payload.subrange(chunk_offset(index, size) as int, chunk_end(payload.len(), index, size) as int)
}

/// The first `n` pieces, put together in offset order.
pub open spec fn joined_chunks(payload: Seq<u8>, size: nat, n: nat) -> Seq<u8>
    decreases n,
{
    if n == 0 {
        Seq::empty()
    } else {
        joined_chunks(payload, size, (n - 1) as nat) + chunk_bytes(payload, (n - 1) as nat, size)
    }
}

/// One piece of a payload with the offset at which it belongs.
#[derive(Clone, Debug, PartialEq, Eq)]
pub struct Chunk {
    pub offset: usize,
    pub data: Vec<u8>,
}

/// The pieces cover the payload and none is empty: `(n - 1) * size < len <= n * size`
/// for `n = chunk_count(len, size)`, and there is no piece if and only if the payload
/// is empty.
pub proof fn lemma_chunk_count_bounds(len: nat, size: nat)
    requires
        size > 0,
    ensures
        len <= chunk_count(len, size) * size,
        (chunk_count(len, size) - 1) * size < len || len == 0,
        chunk_count(len, size) == 0 <==> len == 0,
        chunk_count(len, size) <= len,
{
    let x: int = len + size - 1;
    let d: int = size as int;
    let n: int = x / d;
    lemma_fundamental_div_mod(x, d);
    lemma_mod_bound(x, d);
    assert(x == d * n + x % d);
    assert(0 <= x % d < d);
    assert(d * n == n * d) by (nonlinear_arith);
    assert(n >= 0) by (nonlinear_arith)
        requires
            x >= 0,
            d > 0,
            x == d * n + x % d,
            0 <= x % d < d,
    ;
    assert(chunk_count(len, size) == n);
    assert((n - 1) * d == n * d - d) by (nonlinear_arith);
    if len == 0 {
        assert(n == 0) by (nonlinear_arith)
            requires
                d * n + x % d == d - 1,
                0 <= x % d,
                n >= 0,
                d > 0,
        ;
    } else {
        assert(n >= 1) by (nonlinear_arith)
            requires
                d * n + x % d >= d,
                x % d < d,
                d > 0,
        ;
    }
    assert(n <= len) by (nonlinear_arith)
        requires
            n * d - d < len || len == 0,
            n >= 0,
            d >= 1,
            len == 0 ==> n == 0,
    ;
}

/// Every piece lies inside the payload and starts where the one before it ended.
pub proof fn lemma_chunk_range(len: nat, index: nat, size: nat)
    requires
        size > 0,
        index < chunk_count(len, size),
    ensures
        chunk_offset(index, size) < len,
        chunk_offset(index, size) < chunk_end(len, index, size) <= len,
        chunk_end(len, index, size) - chunk_offset(index, size) <= size,
        chunk_end(len, index, size) == chunk_offset(index + 1, size) || index + 1 == chunk_count(
            len,
            size,
        ),
        index + 1 == chunk_count(len, size) ==> chunk_end(len, index, size) == len,
{
    lemma_chunk_count_bounds(len, size);
    let n: int = chunk_count(len, size) as int;
    let i: int = index as int;
    let d: int = size as int;
    assert(i * d <= (n - 1) * d) by (nonlinear_arith)
        requires
            i <= n - 1,
            d > 0,
    ;
    assert((i + 1) * d == i * d + d) by (nonlinear_arith);
    if i + 1 < n {
        assert((i + 1) * d <= (n - 1) * d) by (nonlinear_arith)
            requires
                i + 1 <= n - 1,
                d > 0,
        ;
    } else {
        assert((i + 1) * d == n * d);
    }
}

/// Put together in offset order, the first `n` pieces are the payload up to the end of
/// piece `n - 1`.
pub proof fn lemma_joined_prefix(payload: Seq<u8>, size: nat, n: nat)
    requires
        size > 0,
        n <= chunk_count(payload.len(), size),
    ensures
        n > 0 ==> joined_chunks(payload, size, n) == payload.subrange(
            0,
            chunk_end(payload.len(), (n - 1) as nat, size) as int,
        ),
        n == 0 ==> joined_chunks(payload, size, n) == Seq::<u8>::empty(),
    decreases n,
{
    if n > 0 {
        let last = (n - 1) as nat;
        lemma_chunk_range(payload.len(), last, size);
        lemma_joined_prefix(payload, size, last);
        if last > 0 {
            lemma_chunk_range(payload.len(), (last - 1) as nat, size);
        }
        let before = joined_chunks(payload, size, last);
        let start = chunk_offset(last, size) as int;
        let end = chunk_end(payload.len(), last, size) as int;
        assert(before =~= payload.subrange(0, start));
        assert(before + payload.subrange(start, end) =~= payload.subrange(0, end));
    }
}

/// Cutting a payload into pieces loses nothing: the pieces, put together in offset
/// order, are the payload.
pub proof fn lemma_chunks_rebuild_payload(payload: Seq<u8>, size: nat)
    requires
        size > 0,
    ensures
        joined_chunks(payload, size, chunk_count(payload.len(), size)) == payload,
{
    let n = chunk_count(payload.len(), size);
    lemma_chunk_count_bounds(payload.len(), size);
    lemma_joined_prefix(payload, size, n);
    if n > 0 {
        lemma_chunk_range(payload.len(), (n - 1) as nat, size);
        assert(payload.subrange(0, payload.len() as int) =~= payload);
    } else {
        assert(payload =~= Seq::<u8>::empty());
    }
}

/// Number of pieces of `size` bytes needed for `len` bytes.
pub fn count_chunks(len: usize, size: usize) -> (n: usize)
    requires
        size > 0,
    ensures
        n == chunk_count(len as nat, size as nat),
{
    let q = len / size;
    let r = len % size;
    proof {
        let d: int = size as int;
        lemma_fundamental_div_mod(len as int, d);
        assert(d * (q as int) == (q as int) * d) by (nonlinear_arith);
        if r == 0 {
            lemma_fundamental_div_mod_converse(len + size - 1, d, q as int, d - 1);
        } else {
            assert(((q as int) + 1) * d == (q as int) * d + d) by (nonlinear_arith);
            lemma_fundamental_div_mod_converse(len + size - 1, d, (q as int) + 1, (r as int) - 1);
            lemma_chunk_count_bounds(len as nat, size as nat);
        }
    }
    if r == 0 {
        q
    } else {
        q + 1
    }
}

/// Piece `index` of `payload`, cut at `size` bytes.
pub fn chunk_at(payload: &[u8], index: usize, size: usize) -> (chunk: Chunk)
    requires
        size > 0,
        index < chunk_count(payload@.len(), size as nat),
    ensures
        chunk.offset == chunk_offset(index as nat, size as nat),
        chunk.data@ == chunk_bytes(payload@, index as nat, size as nat),
{
    let len = payload.len();
    proof {
        lemma_chunk_range(payload@.len(), index as nat, size as nat);
        assert((index + 1) * size == index * size + size) by (nonlinear_arith);
        assert(index * size == chunk_offset(index as nat, size as nat));
        assert(index * size < payload@.len());
    }
    let start = index * size;
    let end = if len - start > size {
        start + size
    } else {
        len
    };
    let data = slice_to_vec(slice_subrange(payload, start, end));
    Chunk { offset: start, data }
}

/// All pieces of `payload`, cut at `size` bytes, in offset order.
pub fn split_chunks(payload: &[u8], size: usize) -> (chunks: Vec<Chunk>)
    requires
        size > 0,
    ensures
        chunks@.len() == chunk_count(payload@.len(), size as nat),
        forall|i: int|
            0 <= i < chunks@.len() ==> (#[trigger] chunks@[i]).offset == chunk_offset(
                i as nat,
                size as nat,
            ) && chunks@[i].data@ == chunk_bytes(payload@, i as nat, size as nat),
{
    let total = count_chunks(payload.len(), size);
    let mut chunks: Vec<Chunk> = Vec::new();
    let mut index: usize = 0;
    while index < total
        invariant
            size > 0,
            index <= total,
            total == chunk_count(payload@.len(), size as nat),
            chunks@.len() == index,
            forall|i: int|
                0 <= i < chunks@.len() ==> (#[trigger] chunks@[i]).offset == chunk_offset(
                    i as nat,
                    size as nat,
                ) && chunks@[i].data@ == chunk_bytes(payload@, i as nat, size as nat),
        decreases total - index,
    {
        let chunk = chunk_at(payload, index, size);
        chunks.push(chunk);
        index = index + 1;
    }
    chunks
}

} // verus!
