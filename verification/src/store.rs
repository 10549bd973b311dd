//! The backing store as a mathematical object: an append-only sequence of
//! bytes, read by position.

use vstd::prelude::*;

verus! {

/// `earlier` is what the store held at some moment and `later` what it holds
/// afterwards: the store only grows at its end.
pub open spec fn grows_to(earlier: Seq<u8>, later: Seq<u8>) -> bool {
    earlier.len() <= later.len() && later.subrange(0, earlier.len() as int) == earlier
}

/// `chunk` is what a positional read at `offset` may return from `store`: as
/// many of the bytes that stand there as the read cared to take, and none
/// beyond the end. An empty chunk is a read at any offset.
pub open spec fn is_read_at(store: Seq<u8>, offset: nat, chunk: Seq<u8>) -> bool {
    chunk.len() == 0 || {
        &&& offset + chunk.len() <= store.len()
        &&& chunk == store.subrange(offset as int, (offset + chunk.len()) as int)
    }
}

/// The first `n` bytes of the store.
pub open spec fn head(store: Seq<u8>, n: nat) -> Seq<u8>
    recommends
        n <= store.len(),
{
    store.subrange(0, n as int)
}

/// Growth is transitive, and every store grows to itself.
pub proof fn grows_to_is_a_preorder(a: Seq<u8>, b: Seq<u8>, c: Seq<u8>)
    requires
        grows_to(a, b),
        grows_to(b, c),
    ensures
        grows_to(a, a),
        grows_to(a, c),
{
    assert(a.subrange(0, a.len() as int) =~= a);
    assert(c.subrange(0, a.len() as int) =~= b.subrange(0, a.len() as int));
}

/// A read that was made of the store at an earlier moment is still a read of
/// the store as it is later: appending never changes what was written.
pub proof fn read_survives_growth(
    earlier: Seq<u8>,
    later: Seq<u8>,
    offset: nat,
    chunk: Seq<u8>,
)
    requires
        grows_to(earlier, later),
        is_read_at(earlier, offset, chunk),
    ensures
        is_read_at(later, offset, chunk),
{
    if chunk.len() > 0 {
        let end = (offset + chunk.len()) as int;
        assert forall|i: int| offset <= i < end implies later[i] == earlier[i] by {
            assert(later.subrange(0, earlier.len() as int)[i] == later[i]);
        }
        assert(later.subrange(offset as int, end) =~= earlier.subrange(offset as int, end));
    }
}

/// Writing appends: the store after a write is the store before it followed
/// by the bytes written, whichever handle they came through, and so the store
/// before grows to the store after.
pub proof fn writing_grows_the_store(store: Seq<u8>, written: Seq<u8>)
    ensures
        grows_to(store, store + written),
{
    assert((store + written).subrange(0, store.len() as int) =~= store);
}

/// What the store held at an earlier moment is the head of what it holds
/// later, as long as the store was then.
pub proof fn earlier_store_is_head_of_later(earlier: Seq<u8>, later: Seq<u8>)
    requires
        grows_to(earlier, later),
    ensures
        head(later, earlier.len()) == earlier,
{
}

} // verus!
