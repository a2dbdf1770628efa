//! Length-prefixed message framing: a 4-byte big-endian length, then exactly
//! that many payload bytes. Both directions of the protocol use it.

use vstd::prelude::*;
use crate::encoding::{
    append_bytes, be32_bytes, be32_val, be_bytes_to_u32, lemma_be32_round_trip, u32_to_be_bytes,
};
use crate::messages::OprfError;

verus! {

/// A frame as the wire carries it: the payload's length in 4 big-endian
/// bytes, then the payload.
pub open spec fn spec_frame(payload: Seq<u8>) -> Seq<u8> {
    be32_bytes(payload.len() as nat) + payload
}

/// Wraps a payload in its length prefix. Total for every payload whose
/// length fits the 4-byte prefix.
pub fn encode_frame(payload: &Vec<u8>) -> (r: Vec<u8>)
    requires
        payload@.len() <= u32::MAX,
    ensures
        r@ == spec_frame(payload@),
        r@.len() == payload@.len() + 4,
{
    let len = payload.len() as u32;
    let mut frame = u32_to_be_bytes(len);
    append_bytes(&mut frame, payload.as_slice());
    frame
}

/// Takes a complete frame apart: checks that the buffer holds a 4-byte
/// prefix and exactly the declared number of payload bytes, and returns the
/// payload. A short or over-long buffer is a transport fault.
pub fn decode_frame(data: &Vec<u8>) -> (r: Result<Vec<u8>, OprfError>)
    ensures
        r is Ok <==> (data@.len() >= 4 && data@.len() - 4 == be32_val(data@.take(4))),
        r matches Ok(p) ==> p@ == data@.skip(4),
        r matches Err(e) ==> e is Transport,
{
    if data.len() < 4 {
        return Err(OprfError::Transport("frame shorter than its length prefix".to_owned()));
    }
    let header = vstd::slice::slice_subrange(data.as_slice(), 0, 4);
    proof {
        assert(header@ =~= data@.take(4));
    }
    let declared = be_bytes_to_u32(header);
    if data.len() - 4 != declared as usize {
        return Err(OprfError::Transport("frame length does not match its prefix".to_owned()));
    }
    let body = vstd::slice::slice_subrange(data.as_slice(), 4, data.len());
    let mut payload: Vec<u8> = Vec::new();
    append_bytes(&mut payload, body);
    proof {
        assert(payload@ =~= data@.skip(4));
    }
    Ok(payload)
}

/// Framing fidelity: a frame built from a payload decodes back to exactly
/// that payload.
pub fn frame_round_trip(payload: &Vec<u8>) -> (r: Vec<u8>)
    requires
        payload@.len() <= u32::MAX,
    ensures
        r@ == payload@,
{
    let frame = encode_frame(payload);
    proof {
        lemma_be32_round_trip(payload@.len() as nat);
        assert(frame@.take(4) =~= be32_bytes(payload@.len() as nat));
        assert(frame@.skip(4) =~= payload@);
    }
    decode_frame(&frame).unwrap()
}

} // verus!
