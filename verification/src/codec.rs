//! Encoding of embedding vectors as byte blobs.
//!
//! A stored vector is the concatenation of the little-endian four-byte
//! encodings of its 32-bit components. Components are carried as `u32` bit
//! patterns; the process that produced them fixes their interpretation.
//! The decoder accepts only blobs whose length is a multiple of four.

use vstd::bytes::lemma_auto_spec_u32_to_from_le_bytes;
use vstd::bytes::spec_u32_from_le_bytes;
use vstd::bytes::spec_u32_to_le_bytes;
use vstd::bytes::u32_from_le_bytes;
use vstd::bytes::u32_to_le_bytes;
use vstd::prelude::*;

verus! {

/// The blob encoding a vector of 32-bit words: each word contributes its
/// four little-endian bytes, in vector order.
pub open spec fn blob_of_vector(v: Seq<u32>) -> Seq<u8>
    decreases v.len(),
{
    if v.len() == 0 {
        Seq::empty()
    } else {
        spec_u32_to_le_bytes(v.first()) + blob_of_vector(v.drop_first())
    }
}

/// The vector read back from a blob of four-byte groups.
pub open spec fn vector_of_blob(b: Seq<u8>) -> Seq<u32>
    recommends
        b.len() % 4 == 0,
    decreases b.len(),
{
    if b.len() < 4 {
        Seq::empty()
    } else {
        seq![spec_u32_from_le_bytes(b.take(4))] + vector_of_blob(b.skip(4))
    }
}

/// Appending one word to a vector appends its four bytes to the blob.
pub proof fn lemma_blob_push(v: Seq<u32>, w: u32)
    ensures
        blob_of_vector(v.push(w)) == blob_of_vector(v) + spec_u32_to_le_bytes(w),
    decreases v.len(),
{
    lemma_auto_spec_u32_to_from_le_bytes();
    if v.len() == 0 {
        let s = v.push(w);
        assert(s.len() == 1);
        assert(s.first() == w);
        assert(s.drop_first() =~= Seq::<u32>::empty());
        assert(blob_of_vector(s.drop_first()) == Seq::<u8>::empty());
        assert(blob_of_vector(s) == spec_u32_to_le_bytes(w) + Seq::<u8>::empty());
        assert(blob_of_vector(v) == Seq::<u8>::empty());
        assert(spec_u32_to_le_bytes(w) + Seq::<u8>::empty() =~= Seq::<u8>::empty()
            + spec_u32_to_le_bytes(w));
    } else {
        let s = v.push(w);
        assert(s.len() == v.len() + 1);
        assert(s.first() == v.first());
        assert(s.drop_first() =~= v.drop_first().push(w));
        lemma_blob_push(v.drop_first(), w);
        assert(blob_of_vector(s) == spec_u32_to_le_bytes(v.first()) + (blob_of_vector(
            v.drop_first(),
        ) + spec_u32_to_le_bytes(w)));
        assert(spec_u32_to_le_bytes(v.first()) + (blob_of_vector(v.drop_first())
            + spec_u32_to_le_bytes(w)) =~= (spec_u32_to_le_bytes(v.first()) + blob_of_vector(
            v.drop_first(),
        )) + spec_u32_to_le_bytes(w));
    }
}

/// The length of the blob is four bytes per word.
pub proof fn lemma_blob_len(v: Seq<u32>)
    ensures
        blob_of_vector(v).len() == 4 * v.len(),
    decreases v.len(),
{
    lemma_auto_spec_u32_to_from_le_bytes();
    if v.len() > 0 {
        lemma_blob_len(v.drop_first());
    }
}

/// Round trip: decoding the encoding of a vector gives the vector back,
/// component for component, bit for bit.
pub proof fn lemma_vector_blob_round_trip(v: Seq<u32>)
    ensures
        blob_of_vector(v).len() % 4 == 0,
        vector_of_blob(blob_of_vector(v)) == v,
    decreases v.len(),
{
    lemma_auto_spec_u32_to_from_le_bytes();
    lemma_blob_len(v);
    if v.len() == 0 {
        assert(vector_of_blob(blob_of_vector(v)) =~= v);
    } else {
        let b = blob_of_vector(v);
        let head = spec_u32_to_le_bytes(v.first());
        let tail = blob_of_vector(v.drop_first());
        lemma_blob_len(v.drop_first());
        assert(b.take(4) =~= head);
        assert(b.skip(4) =~= tail);
        lemma_vector_blob_round_trip(v.drop_first());
        assert(spec_u32_from_le_bytes(b.take(4)) == v.first());
        assert(vector_of_blob(b) =~= v);
    }
}

/// Encodes a vector of 32-bit words as a little-endian byte blob.
pub fn vector_to_blob(v: &Vec<u32>) -> (r: Vec<u8>)
    ensures
        r@ == blob_of_vector(v@),
        r@.len() == 4 * v@.len(),
{
    let mut out: Vec<u8> = Vec::new();
    let mut i: usize = 0;
    proof {
        assert(v@.take(0) =~= Seq::<u32>::empty());
    }
    while i < v.len()
        invariant
            i <= v@.len(),
            out@ == blob_of_vector(v@.take(i as int)),
            out@.len() == 4 * i,
        decreases v@.len() - i,
    {
        let w = v[i];
        let mut group = u32_to_le_bytes(w);
        out.append(&mut group);
        proof {
            lemma_blob_push(v@.take(i as int), w);
            assert(v@.take(i + 1) =~= v@.take(i as int).push(w));
        }
        i = i + 1;
    }
    proof {
        assert(v@.take(v@.len() as int) =~= v@);
        lemma_blob_len(v@);
    }
    out
}

/// Decodes a little-endian byte blob into its 32-bit words. A blob whose
/// length is not a multiple of four is rejected.
pub fn blob_to_vector(b: &Vec<u8>) -> (r: Option<Vec<u32>>)
    ensures
        r is Some <==> b@.len() % 4 == 0,
        r is Some ==> r->0@ == vector_of_blob(b@),
{
    if b.len() % 4 != 0 {
        return None;
    }
    let mut out: Vec<u32> = Vec::new();
    let mut i: usize = 0;
    while i < b.len()
        invariant
            b@.len() % 4 == 0,
            i % 4 == 0,
            i <= b@.len(),
            out@ == vector_of_blob(b@.take(i as int)),
            out@.len() == i / 4,
        decreases b@.len() - i,
    {
        let mut group: Vec<u8> = Vec::new();
        group.push(b[i]);
        group.push(b[i + 1]);
        group.push(b[i + 2]);
        group.push(b[i + 3]);
        let w = u32_from_le_bytes(group.as_slice());
        out.push(w);
        proof {
            assert(group@ =~= b@.subrange(i as int, i + 4));
            lemma_vector_of_blob_push(b@.take(i as int), b@.subrange(i as int, i + 4));
            assert(b@.take(i + 4) =~= b@.take(i as int) + b@.subrange(i as int, i + 4));
        }
        i = i + 4;
    }
    proof {
        assert(b@.take(b@.len() as int) =~= b@);
    }
    Some(out)
}

/// Extending a whole-word blob by one four-byte group appends the word it
/// encodes to the decoded vector.
proof fn lemma_vector_of_blob_push(b: Seq<u8>, g: Seq<u8>)
    requires
        b.len() % 4 == 0,
        g.len() == 4,
    ensures
        vector_of_blob(b + g) == vector_of_blob(b).push(spec_u32_from_le_bytes(g)),
    decreases b.len(),
{
    if b.len() == 0 {
        assert((b + g).take(4) =~= g);
        assert((b + g).skip(4) =~= Seq::<u8>::empty());
        assert(vector_of_blob((b + g).skip(4)) == Seq::<u32>::empty());
        assert(vector_of_blob(b + g) == seq![spec_u32_from_le_bytes(g)] + Seq::<u32>::empty());
        assert(vector_of_blob(b) == Seq::<u32>::empty());
        assert(seq![spec_u32_from_le_bytes(g)] + Seq::<u32>::empty() =~= Seq::<u32>::empty().push(
            spec_u32_from_le_bytes(g),
        ));
    } else {
        assert((b + g).len() >= 4);
        assert((b + g).take(4) =~= b.take(4));
        assert((b + g).skip(4) =~= b.skip(4) + g);
        lemma_vector_of_blob_push(b.skip(4), g);
        assert(vector_of_blob(b + g) == seq![spec_u32_from_le_bytes(b.take(4))] + (vector_of_blob(
            b.skip(4),
        ).push(spec_u32_from_le_bytes(g))));
        assert(seq![spec_u32_from_le_bytes(b.take(4))] + (vector_of_blob(b.skip(4)).push(
            spec_u32_from_le_bytes(g),
        )) =~= (seq![spec_u32_from_le_bytes(b.take(4))] + vector_of_blob(b.skip(4))).push(
            spec_u32_from_le_bytes(g),
        ));
    }
}

} // verus!
