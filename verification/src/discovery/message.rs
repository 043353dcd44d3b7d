//! Discovery message framing: a 2-byte little-endian length, then the protobuf body.
use vstd::prelude::*;
use crate::error::{Error, Result};

verus! {

/// Maximum body size of a discovery frame (u16::MAX bytes).
pub const MAX_FRAME_SIZE: usize = 65535;

/// The frame of `body`: its length as two little-endian bytes, then the body.
pub open spec fn frame_of(body: Seq<u8>) -> Seq<u8> {
    seq![(body.len() % 256) as u8, (body.len() / 256) as u8] + body
}

/// The body length that a frame announces in its first two bytes.
pub open spec fn announced_len(data: Seq<u8>) -> int {
    data[0] + 256 * data[1]
}

/// Encode a discovery frame around a protobuf body.
///
/// Returns `MessageTooLarge` if the body exceeds `MAX_FRAME_SIZE` bytes.
pub fn encode_frame(body: &[u8]) -> (r: Result<Vec<u8>>)
    ensures
        match r {
            Ok(f) => body@.len() <= MAX_FRAME_SIZE && f@ == frame_of(body@),
            Err(e) => body@.len() > MAX_FRAME_SIZE && (e matches Error::MessageTooLarge { size, max }
                && size == body@.len() && max == MAX_FRAME_SIZE),
        },
{
    let len: usize = body.len();
    if len > MAX_FRAME_SIZE {
        return Err(Error::MessageTooLarge { size: len, max: MAX_FRAME_SIZE });
    }
    let mut out: Vec<u8> = Vec::with_capacity(len + 2);
    out.push((len % 256) as u8);
    out.push((len / 256) as u8);
    let mut i: usize = 0;
    while i < len
        invariant
            len == body@.len(),
            len <= MAX_FRAME_SIZE,
            i <= len,
            out@ == seq![(len % 256) as u8, (len / 256) as u8] + body@.take(i as int),
        decreases len - i,
    {
        out.push(body[i]);
        i = i + 1;
        assert(body@.take(i as int) =~= body@.take(i - 1).push(body@[i - 1]));
    }
    assert(body@.take(len as int) =~= body@);
    Ok(out)
}

/// Decode a discovery frame: the body that its length prefix announces.
///
/// Bytes after the announced body are ignored.
pub fn decode_frame(data: &[u8]) -> (r: Result<Vec<u8>>)
    ensures
        match r {
            Ok(b) => {
                &&& data@.len() >= 2
                &&& data@.len() - 2 >= announced_len(data@)
                &&& b@ == data@.subrange(2, 2 + announced_len(data@))
            },
            Err(e) => if data@.len() < 2 {
                e matches Error::InvalidFrame { expected, actual } && expected == 2 && actual
                    == data@.len()
            } else {
                &&& data@.len() - 2 < announced_len(data@)
                &&& e matches Error::InvalidFrame { expected, actual }
                &&& expected == announced_len(data@)
                &&& actual == data@.len() - 2
            },
        },
{
    let n: usize = data.len();
    if n < 2 {
        return Err(Error::InvalidFrame { expected: 2, actual: n });
    }
    let len: usize = (data[0] as usize) + 256 * (data[1] as usize);
    let remaining: usize = n - 2;
    if remaining < len {
        return Err(Error::InvalidFrame { expected: len, actual: remaining });
    }
    let mut out: Vec<u8> = Vec::with_capacity(len);
    let mut i: usize = 0;
    while i < len
        invariant
            n == data@.len(),
            len + 2 <= n,
            i <= len,
            out@ == data@.subrange(2, 2 + i),
        decreases len - i,
    {
        out.push(data[2 + i]);
        i = i + 1;
        assert(data@.subrange(2, 2 + i) =~= data@.subrange(2, 2 + i - 1).push(data@[2 + i - 1]));
    }
    Ok(out)
}

/// A frame made from a body of at most `MAX_FRAME_SIZE` bytes announces that body,
/// and decoding it gives the body back, whatever bytes follow the frame.
pub proof fn lemma_frame_roundtrip(body: Seq<u8>, trailing: Seq<u8>)
    requires
        body.len() <= MAX_FRAME_SIZE,
    ensures
        (frame_of(body) + trailing).len() >= 2,
        announced_len(frame_of(body) + trailing) == body.len(),
        (frame_of(body) + trailing).len() - 2 >= announced_len(frame_of(body) + trailing),
        (frame_of(body) + trailing).subrange(2, 2 + body.len() as int) == body,
{
    let d = frame_of(body) + trailing;
    let n = body.len() as int;
    assert(d[0] == (n % 256) as u8);
    assert(d[1] == (n / 256) as u8);
    assert((n % 256) as u8 == n % 256);
    assert((n / 256) as u8 == n / 256);
    assert(d.subrange(2, 2 + n) =~= body);
}

} // verus!
