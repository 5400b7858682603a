//! Byte-level encoding of agreement content.
//!
//! The signing protocol commits to an agreement by feeding a byte encoding
//! of its content into the key-derivation and hashing primitives. The
//! encoding is length-prefixed so that a seed is a pure function of the
//! fields it covers, and its length bounds the serialized size of an
//! agreement.

use vstd::prelude::*;
use vstd::utf8::encode_utf8;

verus! {

/// The little-endian encoding of `x` in `n` bytes (low byte first).
pub open spec fn le_bytes(x: u64, n: nat) -> Seq<u8>
    decreases n,
{
    if n == 0 {
        Seq::empty()
    } else {
        seq![(x % 256) as u8] + le_bytes(x / 256, (n - 1) as nat)
    }
}

/// The 8-byte little-endian encoding of `x`.
pub open spec fn le8(x: u64) -> Seq<u8> {
    le_bytes(x, 8)
}

/// A byte block prefixed with its length.
pub open spec fn length_prefixed(b: Seq<u8>) -> Seq<u8> {
    le8(b.len() as u64) + b
}

/// The views of a sequence of strings.
pub open spec fn views_of_strings(v: Seq<String>) -> Seq<Seq<char>> {
    Seq::new(v.len(), |i: int| v[i]@)
}

/// The views of a sequence of byte blocks.
pub open spec fn views_of_blocks(v: Seq<Vec<u8>>) -> Seq<Seq<u8>> {
    Seq::new(v.len(), |i: int| v[i]@)
}

/// The concatenation of the UTF-8 bytes of `terms`, in sequence order:
/// the message a signature commits to.
pub open spec fn terms_message(terms: Seq<Seq<char>>) -> Seq<u8>
    decreases terms.len(),
{
    if terms.len() == 0 {
        Seq::empty()
    } else {
        terms_message(terms.drop_last()) + encode_utf8(terms.last())
    }
}

/// The terms encoded one after another, each length-prefixed.
pub open spec fn terms_blob(terms: Seq<Seq<char>>) -> Seq<u8>
    decreases terms.len(),
{
    if terms.len() == 0 {
        Seq::empty()
    } else {
        terms_blob(terms.drop_last()) + length_prefixed(encode_utf8(terms.last()))
    }
}

/// Byte blocks encoded one after another, each length-prefixed.
pub open spec fn blocks_blob(blocks: Seq<Seq<u8>>) -> Seq<u8>
    decreases blocks.len(),
{
    if blocks.len() == 0 {
        Seq::empty()
    } else {
        blocks_blob(blocks.drop_last()) + length_prefixed(blocks.last())
    }
}

/// Appends the bytes of `src` to `dst`.
pub(crate) fn push_bytes(dst: &mut Vec<u8>, src: &[u8])
    ensures
        final(dst)@ == old(dst)@ + src@,
{
    let mut j: usize = 0;
    while j < src.len()
        invariant
            j <= src@.len(),
            dst@ == old(dst)@ + src@.take(j as int),
        decreases src@.len() - j,
    {
        dst.push(src[j]);
        proof {
            assert(old(dst)@ + src@.take(j as int) + seq![src@[j as int]]
                =~= old(dst)@ + src@.take(j + 1 as int));
        }
        j = j + 1;
    }
    proof {
        assert(src@.take(src@.len() as int) =~= src@);
    }
}

/// A fresh copy of a byte vector.
pub fn clone_bytes(v: &Vec<u8>) -> (r: Vec<u8>)
    ensures
        r@ == v@,
{
    let mut r: Vec<u8> = Vec::new();
    push_bytes(&mut r, v.as_slice());
    r
}

/// Appends the 8-byte little-endian encoding of `x` to `dst`.
pub(crate) fn push_le8(dst: &mut Vec<u8>, x: u64)
    ensures
        final(dst)@ == old(dst)@ + le8(x),
{
    let mut v: u64 = x;
    let mut i: usize = 0;
    while i < 8
        invariant
            i <= 8,
            le8(x) == dst@.skip(old(dst)@.len() as int) + le_bytes(v, (8 - i) as nat),
            dst@.len() == old(dst)@.len() + i,
            dst@.take(old(dst)@.len() as int) == old(dst)@,
        decreases 8 - i,
    {
        let ghost pre = dst@;
        dst.push((v % 256) as u8);
        proof {
            assert(dst@.take(old(dst)@.len() as int) =~= old(dst)@);
            assert(dst@.skip(old(dst)@.len() as int)
                =~= pre.skip(old(dst)@.len() as int) + seq![(v % 256) as u8]);
            assert(le_bytes(v, (8 - i) as nat)
                == seq![(v % 256) as u8] + le_bytes(v / 256, (8 - (i + 1)) as nat));
            assert(pre.skip(old(dst)@.len() as int) + le_bytes(v, (8 - i) as nat)
                =~= dst@.skip(old(dst)@.len() as int)
                    + le_bytes(v / 256, (8 - (i + 1)) as nat));
        }
        v = v / 256;
        i = i + 1;
    }
    proof {
        assert(le_bytes(v, 0) =~= Seq::<u8>::empty());
        assert(dst@ =~= dst@.take(old(dst)@.len() as int) + dst@.skip(old(dst)@.len() as int));
        assert(dst@.skip(old(dst)@.len() as int) + Seq::<u8>::empty()
            =~= dst@.skip(old(dst)@.len() as int));
    }
}

/// Concatenates the UTF-8 bytes of all terms, in sequence order: the
/// message that a signature over the agreement commits to.
pub fn concat_terms_bytes(terms: &Vec<String>) -> (r: Vec<u8>)
    ensures
        r@ == terms_message(views_of_strings(terms@)),
{
    let ghost tv = views_of_strings(terms@);
    let mut r: Vec<u8> = Vec::new();
    let mut i: usize = 0;
    while i < terms.len()
        invariant
            i <= terms@.len(),
            tv == views_of_strings(terms@),
            r@ == terms_message(tv.take(i as int)),
        decreases terms@.len() - i,
    {
        push_bytes(&mut r, terms[i].as_str().as_bytes());
        proof {
            assert(tv.take(i + 1 as int).drop_last() =~= tv.take(i as int));
            assert(tv.take(i + 1 as int).last() == terms@[i as int]@);
        }
        i = i + 1;
    }
    proof {
        assert(tv.take(terms@.len() as int) =~= tv);
    }
    r
}

/// Appends a length-prefixed byte block to `dst`.
pub(crate) fn push_length_prefixed(dst: &mut Vec<u8>, src: &[u8])
    ensures
        final(dst)@ == old(dst)@ + length_prefixed(src@),
{
    push_le8(dst, src.len() as u64);
    push_bytes(dst, src);
    proof {
        assert(old(dst)@ + le8(src@.len() as u64) + src@
            =~= old(dst)@ + length_prefixed(src@));
    }
}

} // verus!
