//! Bitswap protocol identifiers, the protocol configuration, and the codec
//! that frames bitswap messages on a stream.
use vstd::prelude::*;
use unsigned_varint::codec::UviBytes;
use crate::framing::{
    read_frame, uvi_decode, uvi_encode, uvi_max, uvi_new, uvi_pending, uvi_set_max_len,
    varint_bytes, FrameError, ReadOutcome,
};

verus! {

/// The versions of the bitswap protocol, in increasing order.
#[derive(Clone, Debug, Copy, PartialEq, Eq, PartialOrd, Ord, Hash)]
pub enum ProtocolId {
    Legacy,
    Bitswap100,
    Bitswap110,
    Bitswap120,
}

/// The protocol name that a version is negotiated under.
pub open spec fn protocol_name(p: ProtocolId) -> Seq<char> {
    match p {
        ProtocolId::Legacy => "/ipfs/bitswap"@,
        ProtocolId::Bitswap100 => "/ipfs/bitswap/1.0.0"@,
        ProtocolId::Bitswap110 => "/ipfs/bitswap/1.1.0"@,
        ProtocolId::Bitswap120 => "/ipfs/bitswap/1.2.0"@,
    }
}

/// The bytes of the protocol name of a version.
pub open spec fn name_bytes(p: ProtocolId) -> Seq<u8> {
    protocol_name(p).map_values(|c: char| c as u8)
}

/// The largest message that the default configuration lets through: 2 MiB.
pub const MAX_BUF_SIZE: usize = 2097152;

/// Whether `value` holds the bytes of the ASCII text `name`.
fn ascii_eq(value: &[u8], name: &str) -> (r: bool)
    requires
        name.is_ascii(),
    ensures
        r == (value@ == name@.map_values(|c: char| c as u8)),
{
    let n = name.unicode_len();
    if value.len() != n {
        return false;
    }
    let mut i: usize = 0;
    while i < n
        invariant
            n == name@.len(),
            value@.len() == n,
            name.is_ascii(),
            i <= n,
            forall|j: int| 0 <= j < i ==> value@[j] == name@[j] as u8,
        decreases n - i,
    {
        if value[i] != name.get_ascii(i) {
            return false;
        }
        i = i + 1;
    }
    assert(value@ =~= name@.map_values(|c: char| c as u8));
    true
}

/// Which protobuf layout a version exchanges messages in.
#[derive(Clone, Debug, Copy, PartialEq, Eq)]
pub enum MessageFormat {
    /// The layout of bitswap 1.0.0 and before.
    V0,
    /// The layout of bitswap 1.1.0 and after.
    V1,
}

impl ProtocolId {
    /// The version named `value`, if any.
    pub fn try_from(value: &[u8]) -> (r: Option<ProtocolId>)
        ensures
            forall|p: ProtocolId| (r == Some(p)) <==> value@ == name_bytes(p),
    {
        proof {
            reveal_strlit("/ipfs/bitswap");
            reveal_strlit("/ipfs/bitswap/1.0.0");
            reveal_strlit("/ipfs/bitswap/1.1.0");
            reveal_strlit("/ipfs/bitswap/1.2.0");
            lemma_names_differ();
        }
        let legacy = ascii_eq(value, "/ipfs/bitswap");
        let v100 = ascii_eq(value, "/ipfs/bitswap/1.0.0");
        let v110 = ascii_eq(value, "/ipfs/bitswap/1.1.0");
        let v120 = ascii_eq(value, "/ipfs/bitswap/1.2.0");
        assert(legacy == (value@ == name_bytes(ProtocolId::Legacy)));
        assert(v100 == (value@ == name_bytes(ProtocolId::Bitswap100)));
        assert(v110 == (value@ == name_bytes(ProtocolId::Bitswap110)));
        assert(v120 == (value@ == name_bytes(ProtocolId::Bitswap120)));
        let r = if legacy {
            Some(ProtocolId::Legacy)
        } else if v100 {
            Some(ProtocolId::Bitswap100)
        } else if v110 {
            Some(ProtocolId::Bitswap110)
        } else if v120 {
            Some(ProtocolId::Bitswap120)
        } else {
            None
        };
        proof {
            assert forall|p: ProtocolId| (r == Some(p)) <==> value@ == name_bytes(p) by {
                match p {
                    ProtocolId::Legacy => {},
                    ProtocolId::Bitswap100 => {},
                    ProtocolId::Bitswap110 => {},
                    ProtocolId::Bitswap120 => {},
                }
            }
        }
        r
    }

    /// The message layout that this version uses.
    pub fn message_format(self) -> (r: MessageFormat)
        ensures
            r == (if self == ProtocolId::Legacy || self == ProtocolId::Bitswap100 {
                MessageFormat::V0
            } else {
                MessageFormat::V1
            }),
    {
        match self {
            ProtocolId::Legacy | ProtocolId::Bitswap100 => MessageFormat::V0,
            ProtocolId::Bitswap110 | ProtocolId::Bitswap120 => MessageFormat::V1,
        }
    }

    /// The protocol name of this version.
    pub fn as_str(&self) -> (r: &'static str)
        ensures
            r@ == protocol_name(*self),
    {
        match self {
            ProtocolId::Legacy => "/ipfs/bitswap",
            ProtocolId::Bitswap100 => "/ipfs/bitswap/1.0.0",
            ProtocolId::Bitswap110 => "/ipfs/bitswap/1.1.0",
            ProtocolId::Bitswap120 => "/ipfs/bitswap/1.2.0",
        }
    }

    /// Whether this version knows the `Have` / `DontHave` messages.
    pub fn supports_have(self) -> (r: bool)
        ensures
            r <==> self == ProtocolId::Bitswap120,
    {
        match self {
            ProtocolId::Bitswap120 => true,
            _ => false,
        }
    }
}

/// The protocol versions to offer and the largest message to let through.
#[derive(Debug, Clone, PartialEq, Eq)]
pub struct ProtocolConfig {
    /// The bitswap protocols to listen on.
    pub protocol_ids: Vec<ProtocolId>,
    /// Maximum size of a packet.
    pub max_transmit_size: usize,
}

impl Default for ProtocolConfig {
    /// All versions, newest first, and messages of up to 2 MiB.
    fn default() -> (r: Self)
        ensures
            r.protocol_ids@ == seq![
                ProtocolId::Bitswap120,
                ProtocolId::Bitswap110,
                ProtocolId::Bitswap100,
                ProtocolId::Legacy,
            ],
            r.max_transmit_size == MAX_BUF_SIZE,
    {
        let mut ids: Vec<ProtocolId> = Vec::new();
        ids.push(ProtocolId::Bitswap120);
        ids.push(ProtocolId::Bitswap110);
        ids.push(ProtocolId::Bitswap100);
        ids.push(ProtocolId::Legacy);
        ProtocolConfig { protocol_ids: ids, max_transmit_size: MAX_BUF_SIZE }
    }
}

impl ProtocolConfig {
    /// The versions to offer, in order of preference.
    pub fn protocol_info(&self) -> (r: Vec<ProtocolId>)
        ensures
            r@ == self.protocol_ids@,
    {
        let mut r: Vec<ProtocolId> = Vec::new();
        let mut i: usize = 0;
        while i < self.protocol_ids.len()
            invariant
                i <= self.protocol_ids@.len(),
                r@ == self.protocol_ids@.take(i as int),
            decreases self.protocol_ids@.len() - i,
        {
            r.push(self.protocol_ids[i]);
            assert(self.protocol_ids@.take(i + 1) =~= self.protocol_ids@.take(i as int).push(
                self.protocol_ids@[i as int],
            ));
            i = i + 1;
        }
        assert(self.protocol_ids@.take(self.protocol_ids@.len() as int) =~= self.protocol_ids@);
        r
    }

    /// The codec for a stream on which `protocol_id` was negotiated, in
    /// either direction: frames of at most the configured size.
    pub fn codec(&self, protocol_id: ProtocolId) -> (r: BitswapCodec)
        ensures
            uvi_max(r.length_codec) == self.max_transmit_size,
            uvi_pending(r.length_codec) is None,
            r.protocol == protocol_id,
    {
        let mut length_codec = uvi_new();
        uvi_set_max_len(&mut length_codec, self.max_transmit_size);
        BitswapCodec::new(length_codec, protocol_id)
    }
}

/// Errors of a bitswap stream.
#[derive(Debug)]
pub enum BitswapHandlerError {
    /// A message longer than the limit was sent or received.
    MaxTransmissionSize,
    /// The stream held bytes that are not a frame.
    Io(std::io::Error),
}

/// The codec of a bitswap stream: messages framed by their length.
pub struct BitswapCodec {
    /// Codec to encode/decode the Unsigned varint length prefix of the frames.
    pub length_codec: UviBytes,
    pub protocol: ProtocolId,
}

impl BitswapCodec {
    pub fn new(length_codec: UviBytes, protocol: ProtocolId) -> (r: Self)
        ensures
            r.length_codec == length_codec,
            r.protocol == protocol,
    {
        BitswapCodec { length_codec, protocol }
    }

    /// Writes the encoded `message` to `dst` as a frame, unless it is longer
    /// than the limit.
    pub fn encode(&mut self, message: Vec<u8>, dst: &mut Vec<u8>) -> (r: Result<(), BitswapHandlerError>)
        ensures
            final(self).protocol == old(self).protocol,
            uvi_max(final(self).length_codec) == uvi_max(old(self).length_codec),
            uvi_pending(final(self).length_codec) == uvi_pending(old(self).length_codec),
            r is Ok <==> message@.len() <= uvi_max(old(self).length_codec),
            r is Ok ==> final(dst)@ == old(dst)@ + varint_bytes(message@.len() as usize) + message@,
            r is Err ==> final(dst)@ == old(dst)@ && r matches Err(
                BitswapHandlerError::MaxTransmissionSize,
            ),
    {
        match uvi_encode(&mut self.length_codec, message, dst) {
            Ok(()) => Ok(()),
            Err(_) => Err(BitswapHandlerError::MaxTransmissionSize),
        }
    }

    /// Reads a frame from the front of `src`: its payload with the protocol of
    /// the stream, or `None` while `src` does not hold all of it.
    pub fn decode(&mut self, src: &mut Vec<u8>) -> (r: Result<Option<(Vec<u8>, ProtocolId)>, BitswapHandlerError>)
        ensures
            final(self).protocol == old(self).protocol,
            uvi_max(final(self).length_codec) == uvi_max(old(self).length_codec),
            ({
                let (outcome, rest, pending) = read_frame(
                    uvi_pending(old(self).length_codec),
                    uvi_max(old(self).length_codec),
                    old(src)@,
                );
                &&& match outcome {
                    ReadOutcome::Frame(p) => r matches Ok(Some((v, q))) && v@ == p && q
                        == old(self).protocol,
                    ReadOutcome::NotYet => r matches Ok(None),
                    ReadOutcome::TooLong => r matches Err(BitswapHandlerError::MaxTransmissionSize),
                    ReadOutcome::Invalid => r matches Err(BitswapHandlerError::Io(_)),
                }
                &&& final(src)@ == rest
                &&& uvi_pending(final(self).length_codec) == pending
            }),
    {
        match uvi_decode(&mut self.length_codec, src) {
            Ok(Some(packet)) => Ok(Some((packet, self.protocol))),
            Ok(None) => Ok(None),
            Err(FrameError::TooLong) => Err(BitswapHandlerError::MaxTransmissionSize),
            Err(FrameError::Invalid(e)) => Err(BitswapHandlerError::Io(e)),
        }
    }
}

/// The text that every bitswap protocol name starts with.
pub open spec fn bitswap_prefix() -> Seq<char> {
    seq!['/', 'i', 'p', 'f', 's', '/', 'b', 'i', 't', 's', 'w', 'a', 'p']
}

/// The suffix `/1.<minor>.0` of a versioned protocol name.
pub open spec fn version_suffix(minor: char) -> Seq<char> {
    seq!['/', '1', '.', minor, '.', '0']
}

/// Each version is negotiated under the name of its own version number: the
/// legacy protocol under `/ipfs/bitswap`, and version 1.x.0 under
/// `/ipfs/bitswap/1.x.0`.
pub proof fn lemma_names_carry_their_version()
    ensures
        protocol_name(ProtocolId::Legacy) == bitswap_prefix(),
        protocol_name(ProtocolId::Bitswap100) == bitswap_prefix() + version_suffix('0'),
        protocol_name(ProtocolId::Bitswap110) == bitswap_prefix() + version_suffix('1'),
        protocol_name(ProtocolId::Bitswap120) == bitswap_prefix() + version_suffix('2'),
{
    reveal_strlit("/ipfs/bitswap");
    reveal_strlit("/ipfs/bitswap/1.0.0");
    reveal_strlit("/ipfs/bitswap/1.1.0");
    reveal_strlit("/ipfs/bitswap/1.2.0");
    assert(protocol_name(ProtocolId::Legacy) =~= bitswap_prefix());
    assert(protocol_name(ProtocolId::Bitswap100) =~= bitswap_prefix() + version_suffix('0'));
    assert(protocol_name(ProtocolId::Bitswap110) =~= bitswap_prefix() + version_suffix('1'));
    assert(protocol_name(ProtocolId::Bitswap120) =~= bitswap_prefix() + version_suffix('2'));
}

/// Distinct versions have distinct names.
pub proof fn lemma_names_differ()
    ensures
        forall|p: ProtocolId, q: ProtocolId| p != q ==> name_bytes(p) != name_bytes(q),
{
    reveal_strlit("/ipfs/bitswap");
    reveal_strlit("/ipfs/bitswap/1.0.0");
    reveal_strlit("/ipfs/bitswap/1.1.0");
    reveal_strlit("/ipfs/bitswap/1.2.0");
    assert(name_bytes(ProtocolId::Legacy).len() != name_bytes(ProtocolId::Bitswap100).len());
    assert(name_bytes(ProtocolId::Bitswap100)[16] != name_bytes(ProtocolId::Bitswap110)[16]);
    assert(name_bytes(ProtocolId::Bitswap100)[16] != name_bytes(ProtocolId::Bitswap120)[16]);
    assert(name_bytes(ProtocolId::Bitswap110)[16] != name_bytes(ProtocolId::Bitswap120)[16]);
}

/// A version's name reads back as that version, and only a version's name
/// reads as a version.
pub proof fn lemma_name_roundtrip(p: ProtocolId, value: Seq<u8>)
    ensures
        value == name_bytes(p) <==> (forall|q: ProtocolId| value == name_bytes(q) ==> q == p) && (
        exists|q: ProtocolId| value == name_bytes(q)),
{
    lemma_names_differ();
}

} // verus!
