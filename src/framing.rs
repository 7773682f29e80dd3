use vstd::prelude::*;

verus! {

/// The four big-endian bytes of `n`, for `n < 2^32`.
pub open spec fn be32(n: nat) -> Seq<u8> {
    seq![
        (n / 0x1000000 % 256) as u8,
        (n / 0x10000 % 256) as u8,
        (n / 0x100 % 256) as u8,
        (n % 256) as u8,
    ]
}

/// The number that four big-endian bytes stand for.
pub open spec fn be32_value(b: Seq<u8>) -> nat {
    (b[0] as nat) * 0x1000000 + (b[1] as nat) * 0x10000 + (b[2] as nat) * 0x100 + (b[3] as nat)
}

/// A frame on the wire: the payload's length as four big-endian bytes, then
/// the payload.
pub open spec fn framed(payload: Seq<u8>) -> Seq<u8> {
    be32(payload.len()) + payload
}

/// Whether `buffer` begins with a whole frame.
pub open spec fn holds_frame(buffer: Seq<u8>) -> bool {
    buffer.len() >= 4 && buffer.len() >= 4 + be32_value(buffer.take(4))
}

/// The payload of the frame at the start of `buffer`.
pub open spec fn first_payload(buffer: Seq<u8>) -> Seq<u8> {
    buffer.subrange(4, 4 + be32_value(buffer.take(4)) as int)
}

/// What follows the frame at the start of `buffer`.
pub open spec fn after_first_frame(buffer: Seq<u8>) -> Seq<u8> {
    buffer.subrange(4 + be32_value(buffer.take(4)) as int, buffer.len() as int)
}

proof fn lemma_be32_value(n: nat)
    requires
        n < 0x100000000,
    ensures
        be32(n).len() == 4,
        be32_value(be32(n)) == n,
{
    let b = be32(n);
    assert(b[0] as nat == n / 0x1000000 % 256);
    assert(b[1] as nat == n / 0x10000 % 256);
    assert(b[2] as nat == n / 0x100 % 256);
    assert(b[3] as nat == n % 256);
}

/// Decoding the front of a stream that starts with the frame of `payload`
/// gives back `payload`, and leaves what followed the frame.
pub proof fn lemma_frame_round_trip(payload: Seq<u8>, rest: Seq<u8>)
    requires
        payload.len() < 0x100000000,
    ensures
        holds_frame(framed(payload) + rest),
        first_payload(framed(payload) + rest) == payload,
        after_first_frame(framed(payload) + rest) == rest,
{
    let s = framed(payload) + rest;
    lemma_be32_value(payload.len());
    assert(s.take(4) =~= be32(payload.len()));
    assert(first_payload(s) =~= payload);
    assert(after_first_frame(s) =~= rest);
}

/// Frames `payload`: `None` when its length does not fit in four bytes.
pub fn encode_frame(payload: &Vec<u8>) -> (r: Option<Vec<u8>>)
    ensures
        match r {
            Some(f) => payload@.len() < 0x100000000 && f@ == framed(payload@),
            None => payload@.len() >= 0x100000000,
        },
{
    let len = payload.len();
    if len as u64 >= 0x100000000u64 {
        return None;
    }
    let n: u64 = len as u64;
    let mut out: Vec<u8> = Vec::new();
    out.push((n / 0x1000000 % 256) as u8);
    out.push((n / 0x10000 % 256) as u8);
    out.push((n / 0x100 % 256) as u8);
    out.push((n % 256) as u8);
    assert(out@ =~= be32(payload@.len()));
    let mut i: usize = 0;
    while i < len
        invariant
            len == payload@.len(),
            i <= len,
            out@ =~= be32(payload@.len()) + payload@.take(i as int),
        decreases len - i,
    {
        out.push(payload[i]);
        i += 1;
        assert(payload@.take(i as int) =~= payload@.take(i - 1).push(payload@[i - 1]));
    }
    assert(payload@.take(len as int) =~= payload@);
    Some(out)
}

/// Takes the first whole frame off the front of `buffer` and returns its
/// payload; `None`, with `buffer` unchanged, while no whole frame is there.
pub fn decode_frame(buffer: &mut Vec<u8>) -> (r: Option<Vec<u8>>)
    ensures
        match r {
            Some(p) => holds_frame(old(buffer)@) && p@ == first_payload(old(buffer)@)
                && final(buffer)@ == after_first_frame(old(buffer)@),
            None => !holds_frame(old(buffer)@) && final(buffer)@ == old(buffer)@,
        },
{
    let total = buffer.len();
    if total < 4 {
        return None;
    }
    let n: u64 = (buffer[0] as u64) * 0x1000000 + (buffer[1] as u64) * 0x10000 + (buffer[2] as u64)
        * 0x100 + (buffer[3] as u64);
    assert(n == be32_value(buffer@.take(4)));
    if (total as u64) - 4 < n {
        return None;
    }
    let end = 4 + n as usize;
    let mut payload: Vec<u8> = Vec::new();
    let mut i: usize = 4;
    while i < end
        invariant
            4 <= i <= end,
            end <= buffer@.len(),
            payload@ =~= buffer@.subrange(4, i as int),
        decreases end - i,
    {
        payload.push(buffer[i]);
        i += 1;
    }
    let mut rest: Vec<u8> = Vec::new();
    let mut j: usize = end;
    while j < total
        invariant
            end <= j <= total,
            total == buffer@.len(),
            rest@ =~= buffer@.subrange(end as int, j as int),
        decreases total - j,
    {
        rest.push(buffer[j]);
        j += 1;
    }
    *buffer = rest;
    Some(payload)
}

} // verus!
