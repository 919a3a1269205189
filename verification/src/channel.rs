//! Framing of protocol messages: a 4-byte little-endian length, then the
//! serialized message.
use vstd::prelude::*;
use crate::aok::{AdaptedShuffleProof, BatchedDDHProof};
use crate::field::{le_bytes, le_nat, lemma_le_nat_le_bytes, pow256};

verus! {

/// The messages of the protocols; points travel as their 32-byte encodings.
pub enum Message {
    /// The commitment sigma of the two-sided protocol.
    Round1([u8; 32]),
    /// The public key and the points H(x)^k.
    Round2(([u8; 32], Vec<[u8; 32]>)),
    /// The adapted shuffle proof and the shuffled points.
    Round3((AdaptedShuffleProof, Vec<[u8; 32]>)),
    /// The batched DDH proof, the unblinded points, and their positions.
    Round4((BatchedDDHProof, Vec<[u8; 32]>, Vec<u32>)),
    /// Montgomery points of the semi-honest one-sided protocol.
    HashDH(Vec<[u8; 32]>),
    /// Edwards points of the sender-malicious one-sided protocol.
    HashDH2(Vec<[u8; 32]>),
}

/// The frame of a payload: its length in 4 little-endian bytes, then the payload.
pub open spec fn spec_frame(payload: Seq<u8>) -> Seq<u8> {
    le_bytes(payload.len(), 4) + payload
}

/// The frame of a payload; `None` when its length does not fit in 4 bytes.
pub fn frame_message(payload: &[u8]) -> (r: Option<Vec<u8>>)
    ensures
        r is Some <==> payload.len() <= u32::MAX,
        r matches Some(v) ==> v@ == spec_frame(payload@),
{
    if payload.len() > 0xffff_ffff {
        return None;
    }
    let len = payload.len() as u64;
    let mut out: Vec<u8> = Vec::new();
    out.push((len % 256) as u8);
    out.push(((len / 256) % 256) as u8);
    out.push(((len / 65536) % 256) as u8);
    out.push(((len / 16777216) % 256) as u8);
    proof {
        reveal_with_fuel(le_bytes, 5);
        assert(len / 256 / 256 == len / 65536);
        assert(len / 65536 / 256 == len / 16777216);
        assert(out@ =~= le_bytes(payload.len() as nat, 4));
    }
    let mut i: usize = 0;
    while i < payload.len()
        invariant
            i <= payload.len(),
            out@ == le_bytes(payload.len() as nat, 4) + payload@.subrange(0, i as int),
        decreases payload.len() - i,
    {
        out.push(payload[i]);
        i = i + 1;
        assert(out@ =~= le_bytes(payload.len() as nat, 4) + payload@.subrange(0, i as int));
    }
    assert(payload@.subrange(0, payload.len() as int) =~= payload@);
    Some(out)
}

/// The payload length that a 4-byte header announces.
pub fn frame_length(header: &[u8; 4]) -> (r: u32)
    ensures
        r == le_nat(header@),
{
    proof {
        reveal_with_fuel(le_nat, 5);
        assert(header@.drop_first().drop_first().drop_first().drop_first().len() == 0);
    }
    let len: u32 = header[0] as u32 + 256 * (header[1] as u32 + 256 * (header[2] as u32 + 256
        * header[3] as u32));
    len
}

/// Law: reading the header of a frame gives back the payload's length.
pub proof fn lemma_frame_length_round_trip(payload: Seq<u8>)
    requires
        payload.len() <= u32::MAX,
    ensures
        le_nat(spec_frame(payload).subrange(0, 4)) == payload.len(),
{
    crate::field::lemma_le_bytes_len(payload.len(), 4);
    assert(spec_frame(payload).subrange(0, 4) =~= le_bytes(payload.len(), 4));
    assert(pow256(4) == 0x1_0000_0000) by {
        reveal_with_fuel(pow256, 5);
    }
    lemma_le_nat_le_bytes(payload.len(), 4);
}

} // verus!
