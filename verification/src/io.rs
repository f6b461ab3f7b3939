//! The byte-level forwarding primitive, modelled on byte buffers.
//!
//! A spliced pair of sockets is modelled by two [`Duplex`] values:
//! `incoming` holds the bytes the peer delivers until EOF, `outgoing` the
//! bytes written to the peer so far. [`forward`] splices the two: each
//! side's incoming bytes are appended, unmodified and in order, to the other
//! side's outgoing bytes. The unverified glue performs the same transfer on
//! real sockets, one copy buffer per direction.

use vstd::prelude::*;

verus! {

/// A full-duplex byte stream as `forward` sees it: the bytes its peer will
/// deliver until EOF, and the bytes written to the peer so far.
pub struct Duplex {
    pub incoming: Vec<u8>,
    pub outgoing: Vec<u8>,
}

/// The two transfers a splice of `p1` and `p2` performs: what is appended
/// to `p1`'s outgoing bytes, and what is appended to `p2`'s.
pub open spec fn forward_transfers(p1: Duplex, p2: Duplex) -> (Seq<u8>, Seq<u8>) {
    (p2.incoming@, p1.incoming@)
}

/// Copy one direction: append all of `src` to `dst`, unmodified and in
/// order.
pub fn pump(src: &Vec<u8>, dst: &mut Vec<u8>)
    ensures
        final(dst)@ == old(dst)@ + src@,
{
    let mut i: usize = 0;
    while i < src.len()
        invariant
            i <= src@.len(),
            dst@ == old(dst)@ + src@.subrange(0, i as int),
        decreases src@.len() - i,
    {
        dst.push(src[i]);
        i += 1;
        proof {
            assert(old(dst)@ + src@.subrange(0, i as int) =~= (old(dst)@ + src@.subrange(
                0,
                i - 1,
            )).push(src@[i - 1]));
        }
    }
    proof {
        assert(src@.subrange(0, i as int) =~= src@);
    }
}

/// Splice two full-duplex streams until both directions are drained: the
/// bytes each side delivered appear unmodified, in order and without any
/// framing, appended to the other side's outgoing bytes.
pub fn forward(p1: &mut Duplex, p2: &mut Duplex)
    ensures
        final(p1).outgoing@ == old(p1).outgoing@ + forward_transfers(*old(p1), *old(p2)).0,
        final(p2).outgoing@ == old(p2).outgoing@ + forward_transfers(*old(p1), *old(p2)).1,
        final(p1).incoming@ == old(p1).incoming@,
        final(p2).incoming@ == old(p2).incoming@,
{
    pump(&p1.incoming, &mut p2.outgoing);
    pump(&p2.incoming, &mut p1.outgoing);
}

/// Law: `forward` is symmetric. Splicing with the arguments swapped
/// performs the same byte transfer in each direction, with the two
/// directions exchanging roles.
pub proof fn lemma_forward_symmetric(p1: Duplex, p2: Duplex)
    ensures
        forward_transfers(p1, p2).0 == forward_transfers(p2, p1).1,
        forward_transfers(p1, p2).1 == forward_transfers(p2, p1).0,
{
}

} // verus!
