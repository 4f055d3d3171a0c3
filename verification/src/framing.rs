//! Length-delimited frames: an unsigned LEB128 varint that gives the length
//! of the payload, then the payload. Encoding and decoding are done by
//! `unsigned_varint`'s `UviBytes`; this module states what it does.
use vstd::prelude::*;
use asynchronous_codec::{Decoder, Encoder};
use bytes::{Bytes, BytesMut};
use unsigned_varint::codec::UviBytes;

verus! {

#[verifier::external_type_specification]
#[verifier::external_body]
#[verifier::reject_recursive_types(T)]
pub struct ExUviBytes<T>(UviBytes<T>);

#[verifier::external_type_specification]
#[verifier::external_body]
pub struct ExBytes(Bytes);

#[verifier::external_type_specification]
#[verifier::external_body]
pub struct ExIoError(std::io::Error);

/// The bytes of the unsigned LEB128 encoding of `n`: seven bits a byte, least
/// significant first, the high bit set on every byte but the last.
pub open spec fn varint_bytes(n: usize) -> Seq<u8>
    decreases n,
{
    if n >> 7usize == 0 {
        seq![(n & 0x7f) as u8]
    } else {
        proof {
            lemma_shift_decreases(n);
        }
        seq![((n & 0x7f) | 0x80) as u8] + varint_bytes(n >> 7usize)
    }
}

pub proof fn lemma_shift_decreases(n: usize)
    requires
        n >> 7usize != 0,
    ensures
        n >> 7usize < n,
{
    assert(n >> 7usize != 0 ==> n >> 7usize < n) by (bit_vector);
}

/// The index of the last byte that a varint of a `usize` may have: the tenth
/// byte where `usize` has 64 bits, the fifth where it has 32.
pub open spec fn varint_last_index() -> nat {
    if usize::BITS == 64 {
        9
    } else {
        4
    }
}

/// The outcome of reading a varint at the front of some bytes.
pub enum VarintRead {
    /// The value and the number of bytes that it took.
    Parsed(usize, nat),
    /// The bytes end before the varint does.
    Insufficient,
    /// The varint runs over the last byte that it may have.
    Overflow,
    /// The varint ends in a zero byte that a shorter encoding would drop.
    NotMinimal,
}

/// Reads the varint whose byte `i` is the next one, where `acc` holds the
/// bits of the bytes before it.
pub open spec fn varint_read_from(s: Seq<u8>, i: nat, acc: usize) -> VarintRead
    decreases s.len() - i,
{
    if i >= s.len() {
        VarintRead::Insufficient
    } else {
        let b = s[i as int];
        let acc2 = acc | (((b & 0x7f) as usize) << ((7 * i) as usize));
        if b & 0x80 == 0 {
            if b == 0 && i > 0 {
                VarintRead::NotMinimal
            } else {
                VarintRead::Parsed(acc2, i + 1)
            }
        } else if i == varint_last_index() {
            VarintRead::Overflow
        } else {
            varint_read_from(s, i + 1, acc2)
        }
    }
}

/// Reads the varint of a `usize` at the front of `s`.
pub open spec fn varint_read(s: Seq<u8>) -> VarintRead {
    varint_read_from(s, 0, 0)
}

/// Reading the varint bytes of `m`, placed at byte `i` after bytes whose bits
/// are `acc`, adds the bits of `m` above them.
proof fn lemma_read_varint_bytes(prefix: Seq<u8>, m: usize, tail: Seq<u8>, acc: usize)
    requires
        prefix.len() <= varint_last_index(),
        acc >> ((7 * prefix.len()) as usize) == 0,
        (m << ((7 * prefix.len()) as usize)) >> ((7 * prefix.len()) as usize) == m,
        prefix.len() > 0 ==> m != 0,
    ensures
        varint_read_from(prefix + varint_bytes(m) + tail, prefix.len(), acc) == VarintRead::Parsed(
            acc | (m << ((7 * prefix.len()) as usize)),
            prefix.len() + varint_bytes(m).len(),
        ),
    decreases m,
{
    let i = prefix.len();
    let sh = (7 * i) as usize;
    let s = prefix + varint_bytes(m) + tail;
    assert(s[i as int] == varint_bytes(m)[0]);
    if m >> 7usize == 0 {
        let b = (m & 0x7f) as u8;
        assert(b & 0x80 == 0 && ((b & 0x7f) as usize) == m && (b == 0 ==> m == 0)) by (bit_vector)
            requires
                m >> 7usize == 0,
                b == (m & 0x7f) as u8,
        ;
    } else {
        let b = ((m & 0x7f) | 0x80) as u8;
        assert(b & 0x80 != 0 && ((b & 0x7f) as usize) == m & 0x7f) by (bit_vector)
            requires
                b == ((m & 0x7f) | 0x80) as u8,
        ;
        if i == varint_last_index() {
            assert(false) by (bit_vector)
                requires
                    (m << sh) >> sh == m,
                    m >> 7usize != 0,
                    sh == if usize::BITS == 64 { 63usize } else { 28usize },
            ;
        }
        let m2 = m >> 7usize;
        let acc2 = acc | ((m & 0x7f) << sh);
        let sh2 = (7 * (i + 1)) as usize;
        assert(sh2 == sh + 7);
        assert(sh + 7 < usize::BITS && acc2 >> sh2 == 0 && (m2 << sh2) >> sh2 == m2 && acc2 | (m2
            << sh2) == acc | (m << sh)) by (bit_vector)
            requires
                acc >> sh == 0,
                (m << sh) >> sh == m,
                m >> 7usize != 0,
                m2 == m >> 7usize,
                acc2 == acc | ((m & 0x7f) << sh),
                sh2 == sh + 7,
        ;
        assert(m2 < m) by (bit_vector)
            requires
                m >> 7usize != 0,
                m2 == m >> 7usize,
        ;
        let prefix2 = prefix.push(b);
        assert(varint_bytes(m) == seq![b] + varint_bytes(m2));
        assert(s =~= prefix2 + varint_bytes(m2) + tail);
        assert(prefix2.len() == i + 1);
        lemma_read_varint_bytes(prefix2, m2, tail, acc2);
    }
}

/// A varint reads back as the value that it encodes, whatever follows it.
pub proof fn lemma_varint_roundtrip(n: usize, tail: Seq<u8>)
    ensures
        varint_read(varint_bytes(n) + tail) == VarintRead::Parsed(n, varint_bytes(n).len()),
{
    let empty = Seq::<u8>::empty();
    assert(0usize >> 0usize == 0 && (n << 0usize) >> 0usize == n && (0usize | (n << 0usize)) == n)
        by (bit_vector);
    lemma_read_varint_bytes(empty, n, tail, 0);
    assert(empty + varint_bytes(n) + tail =~= varint_bytes(n) + tail);
}

/// A frame that was written for a payload within the limit reads back as that
/// payload, and leaves what follows it to read.
pub proof fn lemma_frame_roundtrip(max: usize, payload: Seq<u8>, rest: Seq<u8>)
    requires
        payload.len() <= max,
    ensures
        read_frame(None, max, varint_bytes(payload.len() as usize) + payload + rest) == (
            ReadOutcome::Frame(payload),
            rest,
            None::<usize>,
        ),
{
    let n = payload.len() as usize;
    let s = varint_bytes(n) + payload + rest;
    lemma_varint_roundtrip(n, payload + rest);
    assert(s =~= varint_bytes(n) + (payload + rest));
    let after = s.skip(varint_bytes(n).len() as int);
    assert(after =~= payload + rest);
    assert(after.take(n as int) =~= payload);
    assert(after.skip(n as int) =~= rest);
}

/// Why a frame could not be read or written.
#[derive(Debug)]
pub enum FrameError {
    /// The length of the payload is above the limit.
    TooLong,
    /// The length prefix is malformed.
    Invalid(std::io::Error),
}

/// What reading a frame gives: its payload, or `None` while the bytes do not
/// hold all of it yet.
pub enum ReadOutcome {
    Frame(Seq<u8>),
    NotYet,
    TooLong,
    Invalid,
}

/// Reading a frame from `s`, given the length of a frame whose prefix was
/// already read (`pending`) and the limit `max`: what it gives, the bytes left
/// to read, and the length that remains pending.
pub open spec fn read_frame(pending: Option<usize>, max: usize, s: Seq<u8>) -> (
    ReadOutcome,
    Seq<u8>,
    Option<usize>,
) {
    let (len, rest): (Option<usize>, Seq<u8>) = match pending {
        Some(n) => (Some(n), s),
        None => match varint_read(s) {
            VarintRead::Parsed(n, used) => (Some(n), s.skip(used as int)),
            _ => (None, s),
        },
    };
    match len {
        Some(n) => if n > max {
            (ReadOutcome::TooLong, rest, None)
        } else if n <= rest.len() {
            (ReadOutcome::Frame(rest.take(n as int)), rest.skip(n as int), None)
        } else {
            (ReadOutcome::NotYet, rest, Some(n))
        },
        None => match varint_read(s) {
            VarintRead::Insufficient => (ReadOutcome::NotYet, s, None),
            _ => (ReadOutcome::Invalid, s, None),
        },
    }
}

/// The limit on the payload length that a codec enforces.
pub uninterp spec fn uvi_max(c: UviBytes) -> usize;

/// The payload length that a codec has read the prefix of but not the payload.
pub uninterp spec fn uvi_pending(c: UviBytes) -> Option<usize>;

/// `UviBytes::default`: a codec with the limit 128 MiB and no pending length.
#[verifier::external_body]
pub(crate) fn uvi_new() -> (r: UviBytes)
    ensures
        uvi_max(r) == 128 * 1024 * 1024,
        uvi_pending(r) is None,
{
    UviBytes::default()
}

/// `UviBytes::set_max_len`: sets the limit.
#[verifier::external_body]
pub(crate) fn uvi_set_max_len(c: &mut UviBytes, val: usize)
    ensures
        uvi_max(*final(c)) == val,
        uvi_pending(*final(c)) == uvi_pending(*old(c)),
{
    c.set_max_len(val)
}

/// `Encoder::encode` of `UviBytes`: appends to `dst` the varint of the length
/// of `item` and then `item`, unless the length is above the limit, which is
/// refused (an error of kind `PermissionDenied`, here `TooLong`) with `dst`
/// unchanged. The codec's state is unchanged.
#[verifier::external_body]
pub(crate) fn uvi_encode(c: &mut UviBytes, item: Vec<u8>, dst: &mut Vec<u8>) -> (r: Result<(), FrameError>)
    ensures
        uvi_max(*final(c)) == uvi_max(*old(c)),
        uvi_pending(*final(c)) == uvi_pending(*old(c)),
        r is Ok <==> item@.len() <= uvi_max(*old(c)),
        r is Ok ==> final(dst)@ == old(dst)@ + varint_bytes(item@.len() as usize) + item@,
        r is Err ==> final(dst)@ == old(dst)@ && r matches Err(FrameError::TooLong),
{
    let mut buf = BytesMut::from(&dst[..]);
    let res = c.encode(Bytes::from(item), &mut buf);
    *dst = Vec::from(buf);
    match res {
        Ok(()) => Ok(()),
        Err(_) => Err(FrameError::TooLong),
    }
}

/// `Decoder::decode` of `UviBytes`: reads a frame from the front of `src` as
/// `read_frame` says. A refused length (an error of kind `PermissionDenied`)
/// is `TooLong`; a malformed prefix is `Invalid` with the error.
#[verifier::external_body]
pub(crate) fn uvi_decode(c: &mut UviBytes, src: &mut Vec<u8>) -> (r: Result<Option<Vec<u8>>, FrameError>)
    ensures
        ({
            let (outcome, rest, pending) = read_frame(uvi_pending(*old(c)), uvi_max(*old(c)), old(src)@);
            &&& match outcome {
                ReadOutcome::Frame(p) => r matches Ok(Some(v)) && v@ == p,
                ReadOutcome::NotYet => r matches Ok(None),
                ReadOutcome::TooLong => r matches Err(FrameError::TooLong),
                ReadOutcome::Invalid => r matches Err(FrameError::Invalid(_)),
            }
            &&& final(src)@ == rest
            &&& uvi_pending(*final(c)) == pending
            &&& uvi_max(*final(c)) == uvi_max(*old(c))
        }),
{
    let mut buf = BytesMut::from(&src[..]);
    let res = c.decode(&mut buf);
    *src = Vec::from(buf);
    match res {
        Ok(frame) => Ok(frame.map(Vec::from)),
        Err(e) if e.kind() == std::io::ErrorKind::PermissionDenied => Err(FrameError::TooLong),
        Err(e) => Err(FrameError::Invalid(e)),
    }
}

} // verus!
