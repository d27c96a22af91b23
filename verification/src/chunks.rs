//! The mathematical backbone of byte fidelity: concatenation of byte chunks.
//!
//! A copy run consumes a sequence of chunks from a source and must emit their
//! concatenation, in order. The spec function here defines that concatenation;
//! the lemmas give the algebra the engine and driver proofs lean on.

use vstd::prelude::*;

verus! {

/// The concatenation of a sequence of byte chunks, in order.
pub open spec fn concat_all(chunks: Seq<Seq<u8>>) -> Seq<u8>
    decreases chunks.len(),
{
    if chunks.len() == 0 {
        Seq::empty()
    } else {
        chunks.first() + concat_all(chunks.drop_first())
    }
}

/// Appending one more chunk extends the concatenation by exactly that chunk.
pub proof fn lemma_concat_all_push(chunks: Seq<Seq<u8>>, tail: Seq<u8>)
    ensures
        concat_all(chunks.push(tail)) == concat_all(chunks) + tail,
    decreases chunks.len(),
{
    if chunks.len() == 0 {
        reveal_with_fuel(concat_all, 2);
        let pushed = chunks.push(tail);
        assert(pushed.first() == tail);
        assert(pushed.drop_first() =~= Seq::<Seq<u8>>::empty());
        assert(concat_all(pushed) =~= tail);
        assert(concat_all(chunks) + tail =~= tail);
    } else {
        assert(chunks.push(tail).first() == chunks.first());
        assert(chunks.push(tail).drop_first() =~= chunks.drop_first().push(tail));
        lemma_concat_all_push(chunks.drop_first(), tail);
        assert(concat_all(chunks.push(tail)) =~= concat_all(chunks) + tail);
    }
}

/// Concatenation distributes over appending two runs of chunks: the bytes of
/// the first run stand, unchanged and in order, before the bytes of the second.
pub proof fn lemma_concat_all_append(left: Seq<Seq<u8>>, right: Seq<Seq<u8>>)
    ensures
        concat_all(left + right) == concat_all(left) + concat_all(right),
    decreases left.len(),
{
    if left.len() == 0 {
        assert(left + right =~= right);
        assert(concat_all(left) + concat_all(right) =~= concat_all(right));
    } else {
        assert((left + right).first() == left.first());
        assert((left + right).drop_first() =~= left.drop_first() + right);
        lemma_concat_all_append(left.drop_first(), right);
        assert(concat_all(left + right) =~= concat_all(left) + concat_all(right));
    }
}

/// A run whose chunks are all empty concatenates to the empty byte sequence.
pub proof fn lemma_concat_all_empty(chunks: Seq<Seq<u8>>)
    requires
        forall|i: int| 0 <= i < chunks.len() ==> chunks[i].len() == 0,
    ensures
        concat_all(chunks).len() == 0,
    decreases chunks.len(),
{
    if chunks.len() > 0 {
        lemma_concat_all_empty(chunks.drop_first());
    }
}

} // verus!
