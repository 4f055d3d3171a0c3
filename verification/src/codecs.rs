//! Multicodec codes: the identifiers of formats, hash functions and
//! protocols that self-describing content names carry.
use vstd::prelude::*;

verus! {

/// Multicodecs, as defined in <https://github.com/multiformats/multicodec/blob/master/table.csv>.
#[derive(Debug, Clone, Copy, PartialEq, Eq, Hash)]
pub enum Codec {
    Identity,
    Cidv1,
    Cidv2,
    Cidv3,
    Ip4,
    Tcp,
    Sha1,
    Sha2256,
    Sha2512,
    Sha3512,
    Sha3384,
    Sha3256,
    Sha3224,
    Shake128,
    Shake256,
    Keccak224,
    Keccak256,
    Keccak384,
    Keccak512,
    Blake3,
    Sha2384,
    Dccp,
    Murmur3X6464,
    Murmur332,
    Ip6,
    Ip6zone,
    Path,
    Multicodec,
    Multihash,
    Multiaddr,
    Multibase,
    Dns,
    Dns4,
    Dns6,
    Dnsaddr,
    Protobuf,
    Cbor,
    Raw,
    DblSha2256,
    Rlp,
    Bencode,
    DagPb,
    DagCbor,
    Libp2pKey,
    GitRaw,
    TorrentInfo,
    TorrentFile,
    LeofcoinBlock,
    LeofcoinTx,
    LeofcoinPr,
    Sctp,
    DagJose,
    DagCose,
    EthBlock,
    EthBlockList,
    EthTxTrie,
    EthTx,
    EthTxReceiptTrie,
    EthTxReceipt,
    EthStateTrie,
    EthAccountSnapshot,
    EthStorageTrie,
    EthReceiptLogTrie,
    EthRecieptLog,
    Aes128,
    Aes192,
    Aes256,
    Chacha128,
    Chacha256,
    BitcoinBlock,
    BitcoinTx,
    BitcoinWitnessCommitment,
    ZcashBlock,
    ZcashTx,
    Caip50,
    Streamid,
    StellarBlock,
    StellarTx,
    Md4,
    Md5,
    Bmt,
    DecredBlock,
    DecredTx,
    IpldNs,
    IpfsNs,
    SwarmNs,
    IpnsNs,
    Zeronet,
    Secp256k1Pub,
    Bls12_381G1Pub,
    Bls12_381G2Pub,
    X25519Pub,
    Ed25519Pub,
    Bls12_381G1g2Pub,
    DashBlock,
    DashTx,
    SwarmManifest,
    SwarmFeed,
    Udp,
    P2pWebrtcStar,
    P2pWebrtcDirect,
    P2pStardust,
    P2pCircuit,
    DagJson,
    Udt,
    Utp,
    Unix,
    Thread,
    P2p,
    Https,
    Onion,
    Onion3,
    Garlic64,
    Garlic32,
    Tls,
    Noise,
    Quic,
    Webtransport,
    Ws,
    Wss,
    P2pWebsocketStar,
    Http,
    Swhid1Snp,
    Json,
    Messagepack,
    Car,
    Libp2pPeerRecord,
    Libp2pRelayRsvp,
    CarIndexSorted,
    CarMultihashIndexSorted,
    TransportBitswap,
    TransportGraphsyncFilecoinv1,
    Sha2256Trunc254Padded,
    Sha2224,
    Sha2512224,
    Sha2512256,
    Murmur3X64128,
    Ripemd128,
    Ripemd160,
    Ripemd256,
    Ripemd320,
    X11,
    P256Pub,
    P384Pub,
    P521Pub,
    Ed448Pub,
    X448Pub,
    RsaPub,
    Ed25519Priv,
    Secp256k1Priv,
    X25519Priv,
    Kangarootwelve,
    Sm3256,
    Blake2b8,
    Blake2b16,
    Blake2b24,
    Blake2b32,
    Blake2b40,
    Blake2b48,
    Blake2b56,
    Blake2b64,
    Blake2b72,
    Blake2b80,
    Blake2b88,
    Blake2b96,
    Blake2b104,
    Blake2b112,
    Blake2b120,
    Blake2b128,
    Blake2b136,
    Blake2b144,
    Blake2b152,
    Blake2b160,
    Blake2b168,
    Blake2b176,
    Blake2b184,
    Blake2b192,
    Blake2b200,
    Blake2b208,
    Blake2b216,
    Blake2b224,
    Blake2b232,
    Blake2b240,
    Blake2b248,
    Blake2b256,
    Blake2b264,
    Blake2b272,
    Blake2b280,
    Blake2b288,
    Blake2b296,
    Blake2b304,
    Blake2b312,
    Blake2b320,
    Blake2b328,
    Blake2b336,
    Blake2b344,
    Blake2b352,
    Blake2b360,
    Blake2b368,
    Blake2b376,
    Blake2b384,
    Blake2b392,
    Blake2b400,
    Blake2b408,
    Blake2b416,
    Blake2b424,
    Blake2b432,
    Blake2b440,
    Blake2b448,
    Blake2b456,
    Blake2b464,
    Blake2b472,
    Blake2b480,
    Blake2b488,
    Blake2b496,
    Blake2b504,
    Blake2b512,
    Blake2s8,
    Blake2s16,
    Blake2s24,
    Blake2s32,
    Blake2s40,
    Blake2s48,
    Blake2s56,
    Blake2s64,
    Blake2s72,
    Blake2s80,
    Blake2s88,
    Blake2s96,
    Blake2s104,
    Blake2s112,
    Blake2s120,
    Blake2s128,
    Blake2s136,
    Blake2s144,
    Blake2s152,
    Blake2s160,
    Blake2s168,
    Blake2s176,
    Blake2s184,
    Blake2s192,
    Blake2s200,
    Blake2s208,
    Blake2s216,
    Blake2s224,
    Blake2s232,
    Blake2s240,
    Blake2s248,
    Blake2s256,
    Skein2568,
    Skein25616,
    Skein25624,
    Skein25632,
    Skein25640,
    Skein25648,
    Skein25656,
    Skein25664,
    Skein25672,
    Skein25680,
    Skein25688,
    Skein25696,
    Skein256104,
    Skein256112,
    Skein256120,
    Skein256128,
    Skein256136,
    Skein256144,
    Skein256152,
    Skein256160,
    Skein256168,
    Skein256176,
    Skein256184,
    Skein256192,
    Skein256200,
    Skein256208,
    Skein256216,
    Skein256224,
    Skein256232,
    Skein256240,
    Skein256248,
    Skein256256,
    Skein5128,
    Skein51216,
    Skein51224,
    Skein51232,
    Skein51240,
    Skein51248,
    Skein51256,
    Skein51264,
    Skein51272,
    Skein51280,
    Skein51288,
    Skein51296,
    Skein512104,
    Skein512112,
    Skein512120,
    Skein512128,
    Skein512136,
    Skein512144,
    Skein512152,
    Skein512160,
    Skein512168,
    Skein512176,
    Skein512184,
    Skein512192,
    Skein512200,
    Skein512208,
    Skein512216,
    Skein512224,
    Skein512232,
    Skein512240,
    Skein512248,
    Skein512256,
    Skein512264,
    Skein512272,
    Skein512280,
    Skein512288,
    Skein512296,
    Skein512304,
    Skein512312,
    Skein512320,
    Skein512328,
    Skein512336,
    Skein512344,
    Skein512352,
    Skein512360,
    Skein512368,
    Skein512376,
    Skein512384,
    Skein512392,
    Skein512400,
    Skein512408,
    Skein512416,
    Skein512424,
    Skein512432,
    Skein512440,
    Skein512448,
    Skein512456,
    Skein512464,
    Skein512472,
    Skein512480,
    Skein512488,
    Skein512496,
    Skein512504,
    Skein512512,
    Skein10248,
    Skein102416,
    Skein102424,
    Skein102432,
    Skein102440,
    Skein102448,
    Skein102456,
    Skein102464,
    Skein102472,
    Skein102480,
    Skein102488,
    Skein102496,
    Skein1024104,
    Skein1024112,
    Skein1024120,
    Skein1024128,
    Skein1024136,
    Skein1024144,
    Skein1024152,
    Skein1024160,
    Skein1024168,
    Skein1024176,
    Skein1024184,
    Skein1024192,
    Skein1024200,
    Skein1024208,
    Skein1024216,
    Skein1024224,
    Skein1024232,
    Skein1024240,
    Skein1024248,
    Skein1024256,
    Skein1024264,
    Skein1024272,
    Skein1024280,
    Skein1024288,
    Skein1024296,
    Skein1024304,
    Skein1024312,
    Skein1024320,
    Skein1024328,
    Skein1024336,
    Skein1024344,
    Skein1024352,
    Skein1024360,
    Skein1024368,
    Skein1024376,
    Skein1024384,
    Skein1024392,
    Skein1024400,
    Skein1024408,
    Skein1024416,
    Skein1024424,
    Skein1024432,
    Skein1024440,
    Skein1024448,
    Skein1024456,
    Skein1024464,
    Skein1024472,
    Skein1024480,
    Skein1024488,
    Skein1024496,
    Skein1024504,
    Skein1024512,
    Skein1024520,
    Skein1024528,
    Skein1024536,
    Skein1024544,
    Skein1024552,
    Skein1024560,
    Skein1024568,
    Skein1024576,
    Skein1024584,
    Skein1024592,
    Skein1024600,
    Skein1024608,
    Skein1024616,
    Skein1024624,
    Skein1024632,
    Skein1024640,
    Skein1024648,
    Skein1024656,
    Skein1024664,
    Skein1024672,
    Skein1024680,
    Skein1024688,
    Skein1024696,
    Skein1024704,
    Skein1024712,
    Skein1024720,
    Skein1024728,
    Skein1024736,
    Skein1024744,
    Skein1024752,
    Skein1024760,
    Skein1024768,
    Skein1024776,
    Skein1024784,
    Skein1024792,
    Skein1024800,
    Skein1024808,
    Skein1024816,
    Skein1024824,
    Skein1024832,
    Skein1024840,
    Skein1024848,
    Skein1024856,
    Skein1024864,
    Skein1024872,
    Skein1024880,
    Skein1024888,
    Skein1024896,
    Skein1024904,
    Skein1024912,
    Skein1024920,
    Skein1024928,
    Skein1024936,
    Skein1024944,
    Skein1024952,
    Skein1024960,
    Skein1024968,
    Skein1024976,
    Skein1024984,
    Skein1024992,
    Skein10241000,
    Skein10241008,
    Skein10241016,
    Skein10241024,
    PoseidonBls12_381A2Fc1,
    PoseidonBls12_381A2Fc1Sc,
    Iscc,
    ZeroxcertImprint256,
    FilCommitmentUnsealed,
    FilCommitmentSealed,
    Plaintextv2,
    HolochainAdrV0,
    HolochainAdrV1,
    HolochainKeyV0,
    HolochainKeyV1,
    HolochainSigV0,
    HolochainSigV1,
    SkynetNs,
    ArweaveNs,
    SubspaceNs,
    KumandraNs,
}

/// The number that stands for a codec.
pub open spec fn codec_code(c: Codec) -> u64 {
    match c {
        Codec::Identity => 0x0,
        Codec::Cidv1 => 0x1,
        Codec::Cidv2 => 0x2,
        Codec::Cidv3 => 0x3,
        Codec::Ip4 => 0x4,
        Codec::Tcp => 0x6,
        Codec::Sha1 => 0x11,
        Codec::Sha2256 => 0x12,
        Codec::Sha2512 => 0x13,
        Codec::Sha3512 => 0x14,
        Codec::Sha3384 => 0x15,
        Codec::Sha3256 => 0x16,
        Codec::Sha3224 => 0x17,
        Codec::Shake128 => 0x18,
        Codec::Shake256 => 0x19,
        Codec::Keccak224 => 0x1a,
        Codec::Keccak256 => 0x1b,
        Codec::Keccak384 => 0x1c,
        Codec::Keccak512 => 0x1d,
        Codec::Blake3 => 0x1e,
        Codec::Sha2384 => 0x20,
        Codec::Dccp => 0x21,
        Codec::Murmur3X6464 => 0x22,
        Codec::Murmur332 => 0x23,
        Codec::Ip6 => 0x29,
        Codec::Ip6zone => 0x2a,
        Codec::Path => 0x2f,
        Codec::Multicodec => 0x30,
        Codec::Multihash => 0x31,
        Codec::Multiaddr => 0x32,
        Codec::Multibase => 0x33,
        Codec::Dns => 0x35,
        Codec::Dns4 => 0x36,
        Codec::Dns6 => 0x37,
        Codec::Dnsaddr => 0x38,
        Codec::Protobuf => 0x50,
        Codec::Cbor => 0x51,
        Codec::Raw => 0x55,
        Codec::DblSha2256 => 0x56,
        Codec::Rlp => 0x60,
        Codec::Bencode => 0x63,
        Codec::DagPb => 0x70,
        Codec::DagCbor => 0x71,
        Codec::Libp2pKey => 0x72,
        Codec::GitRaw => 0x78,
        Codec::TorrentInfo => 0x7b,
        Codec::TorrentFile => 0x7c,
        Codec::LeofcoinBlock => 0x81,
        Codec::LeofcoinTx => 0x82,
        Codec::LeofcoinPr => 0x83,
        Codec::Sctp => 0x84,
        Codec::DagJose => 0x85,
        Codec::DagCose => 0x86,
        Codec::EthBlock => 0x90,
        Codec::EthBlockList => 0x91,
        Codec::EthTxTrie => 0x92,
        Codec::EthTx => 0x93,
        Codec::EthTxReceiptTrie => 0x94,
        Codec::EthTxReceipt => 0x95,
        Codec::EthStateTrie => 0x96,
        Codec::EthAccountSnapshot => 0x97,
        Codec::EthStorageTrie => 0x98,
        Codec::EthReceiptLogTrie => 0x99,
        Codec::EthRecieptLog => 0x9a,
        Codec::Aes128 => 0xa0,
        Codec::Aes192 => 0xa1,
        Codec::Aes256 => 0xa2,
        Codec::Chacha128 => 0xa3,
        Codec::Chacha256 => 0xa4,
        Codec::BitcoinBlock => 0xb0,
        Codec::BitcoinTx => 0xb1,
        Codec::BitcoinWitnessCommitment => 0xb2,
        Codec::ZcashBlock => 0xc0,
        Codec::ZcashTx => 0xc1,
        Codec::Caip50 => 0xca,
        Codec::Streamid => 0xce,
        Codec::StellarBlock => 0xd0,
        Codec::StellarTx => 0xd1,
        Codec::Md4 => 0xd4,
        Codec::Md5 => 0xd5,
        Codec::Bmt => 0xd6,
        Codec::DecredBlock => 0xe0,
        Codec::DecredTx => 0xe1,
        Codec::IpldNs => 0xe2,
        Codec::IpfsNs => 0xe3,
        Codec::SwarmNs => 0xe4,
        Codec::IpnsNs => 0xe5,
        Codec::Zeronet => 0xe6,
        Codec::Secp256k1Pub => 0xe7,
        Codec::Bls12_381G1Pub => 0xea,
        Codec::Bls12_381G2Pub => 0xeb,
        Codec::X25519Pub => 0xec,
        Codec::Ed25519Pub => 0xed,
        Codec::Bls12_381G1g2Pub => 0xee,
        Codec::DashBlock => 0xf0,
        Codec::DashTx => 0xf1,
        Codec::SwarmManifest => 0xfa,
        Codec::SwarmFeed => 0xfb,
        Codec::Udp => 0x111,
        Codec::P2pWebrtcStar => 0x113,
        Codec::P2pWebrtcDirect => 0x114,
        Codec::P2pStardust => 0x115,
        Codec::P2pCircuit => 0x122,
        Codec::DagJson => 0x129,
        Codec::Udt => 0x12d,
        Codec::Utp => 0x12e,
        Codec::Unix => 0x190,
        Codec::Thread => 0x196,
        Codec::P2p => 0x1a5,
        Codec::Https => 0x1bb,
        Codec::Onion => 0x1bc,
        Codec::Onion3 => 0x1bd,
        Codec::Garlic64 => 0x1be,
        Codec::Garlic32 => 0x1bf,
        Codec::Tls => 0x1c0,
        Codec::Noise => 0x1c6,
        Codec::Quic => 0x1cc,
        Codec::Webtransport => 0x1d1,
        Codec::Ws => 0x1dd,
        Codec::Wss => 0x1de,
        Codec::P2pWebsocketStar => 0x1df,
        Codec::Http => 0x1e0,
        Codec::Swhid1Snp => 0x1f0,
        Codec::Json => 0x200,
        Codec::Messagepack => 0x201,
        Codec::Car => 0x202,
        Codec::Libp2pPeerRecord => 0x301,
        Codec::Libp2pRelayRsvp => 0x302,
        Codec::CarIndexSorted => 0x400,
        Codec::CarMultihashIndexSorted => 0x401,
        Codec::TransportBitswap => 0x900,
        Codec::TransportGraphsyncFilecoinv1 => 0x910,
        Codec::Sha2256Trunc254Padded => 0x1012,
        Codec::Sha2224 => 0x1013,
        Codec::Sha2512224 => 0x1014,
        Codec::Sha2512256 => 0x1015,
        Codec::Murmur3X64128 => 0x1022,
        Codec::Ripemd128 => 0x1052,
        Codec::Ripemd160 => 0x1053,
        Codec::Ripemd256 => 0x1054,
        Codec::Ripemd320 => 0x1055,
        Codec::X11 => 0x1100,
        Codec::P256Pub => 0x1200,
        Codec::P384Pub => 0x1201,
        Codec::P521Pub => 0x1202,
        Codec::Ed448Pub => 0x1203,
        Codec::X448Pub => 0x1204,
        Codec::RsaPub => 0x1205,
        Codec::Ed25519Priv => 0x1300,
        Codec::Secp256k1Priv => 0x1301,
        Codec::X25519Priv => 0x1302,
        Codec::Kangarootwelve => 0x1d01,
        Codec::Sm3256 => 0x534d,
        Codec::Blake2b8 => 0xb201,
        Codec::Blake2b16 => 0xb202,
        Codec::Blake2b24 => 0xb203,
        Codec::Blake2b32 => 0xb204,
        Codec::Blake2b40 => 0xb205,
        Codec::Blake2b48 => 0xb206,
        Codec::Blake2b56 => 0xb207,
        Codec::Blake2b64 => 0xb208,
        Codec::Blake2b72 => 0xb209,
        Codec::Blake2b80 => 0xb20a,
        Codec::Blake2b88 => 0xb20b,
        Codec::Blake2b96 => 0xb20c,
        Codec::Blake2b104 => 0xb20d,
        Codec::Blake2b112 => 0xb20e,
        Codec::Blake2b120 => 0xb20f,
        Codec::Blake2b128 => 0xb210,
        Codec::Blake2b136 => 0xb211,
        Codec::Blake2b144 => 0xb212,
        Codec::Blake2b152 => 0xb213,
        Codec::Blake2b160 => 0xb214,
        Codec::Blake2b168 => 0xb215,
        Codec::Blake2b176 => 0xb216,
        Codec::Blake2b184 => 0xb217,
        Codec::Blake2b192 => 0xb218,
        Codec::Blake2b200 => 0xb219,
        Codec::Blake2b208 => 0xb21a,
        Codec::Blake2b216 => 0xb21b,
        Codec::Blake2b224 => 0xb21c,
        Codec::Blake2b232 => 0xb21d,
        Codec::Blake2b240 => 0xb21e,
        Codec::Blake2b248 => 0xb21f,
        Codec::Blake2b256 => 0xb220,
        Codec::Blake2b264 => 0xb221,
        Codec::Blake2b272 => 0xb222,
        Codec::Blake2b280 => 0xb223,
        Codec::Blake2b288 => 0xb224,
        Codec::Blake2b296 => 0xb225,
        Codec::Blake2b304 => 0xb226,
        Codec::Blake2b312 => 0xb227,
        Codec::Blake2b320 => 0xb228,
        Codec::Blake2b328 => 0xb229,
        Codec::Blake2b336 => 0xb22a,
        Codec::Blake2b344 => 0xb22b,
        Codec::Blake2b352 => 0xb22c,
        Codec::Blake2b360 => 0xb22d,
        Codec::Blake2b368 => 0xb22e,
        Codec::Blake2b376 => 0xb22f,
        Codec::Blake2b384 => 0xb230,
        Codec::Blake2b392 => 0xb231,
        Codec::Blake2b400 => 0xb232,
        Codec::Blake2b408 => 0xb233,
        Codec::Blake2b416 => 0xb234,
        Codec::Blake2b424 => 0xb235,
        Codec::Blake2b432 => 0xb236,
        Codec::Blake2b440 => 0xb237,
        Codec::Blake2b448 => 0xb238,
        Codec::Blake2b456 => 0xb239,
        Codec::Blake2b464 => 0xb23a,
        Codec::Blake2b472 => 0xb23b,
        Codec::Blake2b480 => 0xb23c,
        Codec::Blake2b488 => 0xb23d,
        Codec::Blake2b496 => 0xb23e,
        Codec::Blake2b504 => 0xb23f,
        Codec::Blake2b512 => 0xb240,
        Codec::Blake2s8 => 0xb241,
        Codec::Blake2s16 => 0xb242,
        Codec::Blake2s24 => 0xb243,
        Codec::Blake2s32 => 0xb244,
        Codec::Blake2s40 => 0xb245,
        Codec::Blake2s48 => 0xb246,
        Codec::Blake2s56 => 0xb247,
        Codec::Blake2s64 => 0xb248,
        Codec::Blake2s72 => 0xb249,
        Codec::Blake2s80 => 0xb24a,
        Codec::Blake2s88 => 0xb24b,
        Codec::Blake2s96 => 0xb24c,
        Codec::Blake2s104 => 0xb24d,
        Codec::Blake2s112 => 0xb24e,
        Codec::Blake2s120 => 0xb24f,
        Codec::Blake2s128 => 0xb250,
        Codec::Blake2s136 => 0xb251,
        Codec::Blake2s144 => 0xb252,
        Codec::Blake2s152 => 0xb253,
        Codec::Blake2s160 => 0xb254,
        Codec::Blake2s168 => 0xb255,
        Codec::Blake2s176 => 0xb256,
        Codec::Blake2s184 => 0xb257,
        Codec::Blake2s192 => 0xb258,
        Codec::Blake2s200 => 0xb259,
        Codec::Blake2s208 => 0xb25a,
        Codec::Blake2s216 => 0xb25b,
        Codec::Blake2s224 => 0xb25c,
        Codec::Blake2s232 => 0xb25d,
        Codec::Blake2s240 => 0xb25e,
        Codec::Blake2s248 => 0xb25f,
        Codec::Blake2s256 => 0xb260,
        Codec::Skein2568 => 0xb301,
        Codec::Skein25616 => 0xb302,
        Codec::Skein25624 => 0xb303,
        Codec::Skein25632 => 0xb304,
        Codec::Skein25640 => 0xb305,
        Codec::Skein25648 => 0xb306,
        Codec::Skein25656 => 0xb307,
        Codec::Skein25664 => 0xb308,
        Codec::Skein25672 => 0xb309,
        Codec::Skein25680 => 0xb30a,
        Codec::Skein25688 => 0xb30b,
        Codec::Skein25696 => 0xb30c,
        Codec::Skein256104 => 0xb30d,
        Codec::Skein256112 => 0xb30e,
        Codec::Skein256120 => 0xb30f,
        Codec::Skein256128 => 0xb310,
        Codec::Skein256136 => 0xb311,
        Codec::Skein256144 => 0xb312,
        Codec::Skein256152 => 0xb313,
        Codec::Skein256160 => 0xb314,
        Codec::Skein256168 => 0xb315,
        Codec::Skein256176 => 0xb316,
        Codec::Skein256184 => 0xb317,
        Codec::Skein256192 => 0xb318,
        Codec::Skein256200 => 0xb319,
        Codec::Skein256208 => 0xb31a,
        Codec::Skein256216 => 0xb31b,
        Codec::Skein256224 => 0xb31c,
        Codec::Skein256232 => 0xb31d,
        Codec::Skein256240 => 0xb31e,
        Codec::Skein256248 => 0xb31f,
        Codec::Skein256256 => 0xb320,
        Codec::Skein5128 => 0xb321,
        Codec::Skein51216 => 0xb322,
        Codec::Skein51224 => 0xb323,
        Codec::Skein51232 => 0xb324,
        Codec::Skein51240 => 0xb325,
        Codec::Skein51248 => 0xb326,
        Codec::Skein51256 => 0xb327,
        Codec::Skein51264 => 0xb328,
        Codec::Skein51272 => 0xb329,
        Codec::Skein51280 => 0xb32a,
        Codec::Skein51288 => 0xb32b,
        Codec::Skein51296 => 0xb32c,
        Codec::Skein512104 => 0xb32d,
        Codec::Skein512112 => 0xb32e,
        Codec::Skein512120 => 0xb32f,
        Codec::Skein512128 => 0xb330,
        Codec::Skein512136 => 0xb331,
        Codec::Skein512144 => 0xb332,
        Codec::Skein512152 => 0xb333,
        Codec::Skein512160 => 0xb334,
        Codec::Skein512168 => 0xb335,
        Codec::Skein512176 => 0xb336,
        Codec::Skein512184 => 0xb337,
        Codec::Skein512192 => 0xb338,
        Codec::Skein512200 => 0xb339,
        Codec::Skein512208 => 0xb33a,
        Codec::Skein512216 => 0xb33b,
        Codec::Skein512224 => 0xb33c,
        Codec::Skein512232 => 0xb33d,
        Codec::Skein512240 => 0xb33e,
        Codec::Skein512248 => 0xb33f,
        Codec::Skein512256 => 0xb340,
        Codec::Skein512264 => 0xb341,
        Codec::Skein512272 => 0xb342,
        Codec::Skein512280 => 0xb343,
        Codec::Skein512288 => 0xb344,
        Codec::Skein512296 => 0xb345,
        Codec::Skein512304 => 0xb346,
        Codec::Skein512312 => 0xb347,
        Codec::Skein512320 => 0xb348,
        Codec::Skein512328 => 0xb349,
        Codec::Skein512336 => 0xb34a,
        Codec::Skein512344 => 0xb34b,
        Codec::Skein512352 => 0xb34c,
        Codec::Skein512360 => 0xb34d,
        Codec::Skein512368 => 0xb34e,
        Codec::Skein512376 => 0xb34f,
        Codec::Skein512384 => 0xb350,
        Codec::Skein512392 => 0xb351,
        Codec::Skein512400 => 0xb352,
        Codec::Skein512408 => 0xb353,
        Codec::Skein512416 => 0xb354,
        Codec::Skein512424 => 0xb355,
        Codec::Skein512432 => 0xb356,
        Codec::Skein512440 => 0xb357,
        Codec::Skein512448 => 0xb358,
        Codec::Skein512456 => 0xb359,
        Codec::Skein512464 => 0xb35a,
        Codec::Skein512472 => 0xb35b,
        Codec::Skein512480 => 0xb35c,
        Codec::Skein512488 => 0xb35d,
        Codec::Skein512496 => 0xb35e,
        Codec::Skein512504 => 0xb35f,
        Codec::Skein512512 => 0xb360,
        Codec::Skein10248 => 0xb361,
        Codec::Skein102416 => 0xb362,
        Codec::Skein102424 => 0xb363,
        Codec::Skein102432 => 0xb364,
        Codec::Skein102440 => 0xb365,
        Codec::Skein102448 => 0xb366,
        Codec::Skein102456 => 0xb367,
        Codec::Skein102464 => 0xb368,
        Codec::Skein102472 => 0xb369,
        Codec::Skein102480 => 0xb36a,
        Codec::Skein102488 => 0xb36b,
        Codec::Skein102496 => 0xb36c,
        Codec::Skein1024104 => 0xb36d,
        Codec::Skein1024112 => 0xb36e,
        Codec::Skein1024120 => 0xb36f,
        Codec::Skein1024128 => 0xb370,
        Codec::Skein1024136 => 0xb371,
        Codec::Skein1024144 => 0xb372,
        Codec::Skein1024152 => 0xb373,
        Codec::Skein1024160 => 0xb374,
        Codec::Skein1024168 => 0xb375,
        Codec::Skein1024176 => 0xb376,
        Codec::Skein1024184 => 0xb377,
        Codec::Skein1024192 => 0xb378,
        Codec::Skein1024200 => 0xb379,
        Codec::Skein1024208 => 0xb37a,
        Codec::Skein1024216 => 0xb37b,
        Codec::Skein1024224 => 0xb37c,
        Codec::Skein1024232 => 0xb37d,
        Codec::Skein1024240 => 0xb37e,
        Codec::Skein1024248 => 0xb37f,
        Codec::Skein1024256 => 0xb380,
        Codec::Skein1024264 => 0xb381,
        Codec::Skein1024272 => 0xb382,
        Codec::Skein1024280 => 0xb383,
        Codec::Skein1024288 => 0xb384,
        Codec::Skein1024296 => 0xb385,
        Codec::Skein1024304 => 0xb386,
        Codec::Skein1024312 => 0xb387,
        Codec::Skein1024320 => 0xb388,
        Codec::Skein1024328 => 0xb389,
        Codec::Skein1024336 => 0xb38a,
        Codec::Skein1024344 => 0xb38b,
        Codec::Skein1024352 => 0xb38c,
        Codec::Skein1024360 => 0xb38d,
        Codec::Skein1024368 => 0xb38e,
        Codec::Skein1024376 => 0xb38f,
        Codec::Skein1024384 => 0xb390,
        Codec::Skein1024392 => 0xb391,
        Codec::Skein1024400 => 0xb392,
        Codec::Skein1024408 => 0xb393,
        Codec::Skein1024416 => 0xb394,
        Codec::Skein1024424 => 0xb395,
        Codec::Skein1024432 => 0xb396,
        Codec::Skein1024440 => 0xb397,
        Codec::Skein1024448 => 0xb398,
        Codec::Skein1024456 => 0xb399,
        Codec::Skein1024464 => 0xb39a,
        Codec::Skein1024472 => 0xb39b,
        Codec::Skein1024480 => 0xb39c,
        Codec::Skein1024488 => 0xb39d,
        Codec::Skein1024496 => 0xb39e,
        Codec::Skein1024504 => 0xb39f,
        Codec::Skein1024512 => 0xb3a0,
        Codec::Skein1024520 => 0xb3a1,
        Codec::Skein1024528 => 0xb3a2,
        Codec::Skein1024536 => 0xb3a3,
        Codec::Skein1024544 => 0xb3a4,
        Codec::Skein1024552 => 0xb3a5,
        Codec::Skein1024560 => 0xb3a6,
        Codec::Skein1024568 => 0xb3a7,
        Codec::Skein1024576 => 0xb3a8,
        Codec::Skein1024584 => 0xb3a9,
        Codec::Skein1024592 => 0xb3aa,
        Codec::Skein1024600 => 0xb3ab,
        Codec::Skein1024608 => 0xb3ac,
        Codec::Skein1024616 => 0xb3ad,
        Codec::Skein1024624 => 0xb3ae,
        Codec::Skein1024632 => 0xb3af,
        Codec::Skein1024640 => 0xb3b0,
        Codec::Skein1024648 => 0xb3b1,
        Codec::Skein1024656 => 0xb3b2,
        Codec::Skein1024664 => 0xb3b3,
        Codec::Skein1024672 => 0xb3b4,
        Codec::Skein1024680 => 0xb3b5,
        Codec::Skein1024688 => 0xb3b6,
        Codec::Skein1024696 => 0xb3b7,
        Codec::Skein1024704 => 0xb3b8,
        Codec::Skein1024712 => 0xb3b9,
        Codec::Skein1024720 => 0xb3ba,
        Codec::Skein1024728 => 0xb3bb,
        Codec::Skein1024736 => 0xb3bc,
        Codec::Skein1024744 => 0xb3bd,
        Codec::Skein1024752 => 0xb3be,
        Codec::Skein1024760 => 0xb3bf,
        Codec::Skein1024768 => 0xb3c0,
        Codec::Skein1024776 => 0xb3c1,
        Codec::Skein1024784 => 0xb3c2,
        Codec::Skein1024792 => 0xb3c3,
        Codec::Skein1024800 => 0xb3c4,
        Codec::Skein1024808 => 0xb3c5,
        Codec::Skein1024816 => 0xb3c6,
        Codec::Skein1024824 => 0xb3c7,
        Codec::Skein1024832 => 0xb3c8,
        Codec::Skein1024840 => 0xb3c9,
        Codec::Skein1024848 => 0xb3ca,
        Codec::Skein1024856 => 0xb3cb,
        Codec::Skein1024864 => 0xb3cc,
        Codec::Skein1024872 => 0xb3cd,
        Codec::Skein1024880 => 0xb3ce,
        Codec::Skein1024888 => 0xb3cf,
        Codec::Skein1024896 => 0xb3d0,
        Codec::Skein1024904 => 0xb3d1,
        Codec::Skein1024912 => 0xb3d2,
        Codec::Skein1024920 => 0xb3d3,
        Codec::Skein1024928 => 0xb3d4,
        Codec::Skein1024936 => 0xb3d5,
        Codec::Skein1024944 => 0xb3d6,
        Codec::Skein1024952 => 0xb3d7,
        Codec::Skein1024960 => 0xb3d8,
        Codec::Skein1024968 => 0xb3d9,
        Codec::Skein1024976 => 0xb3da,
        Codec::Skein1024984 => 0xb3db,
        Codec::Skein1024992 => 0xb3dc,
        Codec::Skein10241000 => 0xb3dd,
        Codec::Skein10241008 => 0xb3de,
        Codec::Skein10241016 => 0xb3df,
        Codec::Skein10241024 => 0xb3e0,
        Codec::PoseidonBls12_381A2Fc1 => 0xb401,
        Codec::PoseidonBls12_381A2Fc1Sc => 0xb402,
        Codec::Iscc => 0xcc01,
        Codec::ZeroxcertImprint256 => 0xce11,
        Codec::FilCommitmentUnsealed => 0xf101,
        Codec::FilCommitmentSealed => 0xf102,
        Codec::Plaintextv2 => 0x706c61,
        Codec::HolochainAdrV0 => 0x807124,
        Codec::HolochainAdrV1 => 0x817124,
        Codec::HolochainKeyV0 => 0x947124,
        Codec::HolochainKeyV1 => 0x957124,
        Codec::HolochainSigV0 => 0xa27124,
        Codec::HolochainSigV1 => 0xa37124,
        Codec::SkynetNs => 0xb19910,
        Codec::ArweaveNs => 0xb29910,
        Codec::SubspaceNs => 0xb39910,
        Codec::KumandraNs => 0xb49910,
    }
}

/// The codec that a number stands for, if any.
pub open spec fn codec_of(n: u64) -> Option<Codec> {
    if n < 0xb25d {
        if n < 0x1f0 {
            if n < 0x98 {
                if n < 0x33 {
                    if n < 0x1a {
                        if n < 0x12 {
                            match n {
                                0x0 => Some(Codec::Identity),
                                0x1 => Some(Codec::Cidv1),
                                0x2 => Some(Codec::Cidv2),
                                0x3 => Some(Codec::Cidv3),
                                0x4 => Some(Codec::Ip4),
                                0x6 => Some(Codec::Tcp),
                                0x11 => Some(Codec::Sha1),
                                _ => None,
                            }
                        } else {
                            match n {
                                0x12 => Some(Codec::Sha2256),
                                0x13 => Some(Codec::Sha2512),
                                0x14 => Some(Codec::Sha3512),
                                0x15 => Some(Codec::Sha3384),
                                0x16 => Some(Codec::Sha3256),
                                0x17 => Some(Codec::Sha3224),
                                0x18 => Some(Codec::Shake128),
                                0x19 => Some(Codec::Shake256),
                                _ => None,
                            }
                        }
                    } else {
                        if n < 0x22 {
                            match n {
                                0x1a => Some(Codec::Keccak224),
                                0x1b => Some(Codec::Keccak256),
                                0x1c => Some(Codec::Keccak384),
                                0x1d => Some(Codec::Keccak512),
                                0x1e => Some(Codec::Blake3),
                                0x20 => Some(Codec::Sha2384),
                                0x21 => Some(Codec::Dccp),
                                _ => None,
                            }
                        } else {
                            match n {
                                0x22 => Some(Codec::Murmur3X6464),
                                0x23 => Some(Codec::Murmur332),
                                0x29 => Some(Codec::Ip6),
                                0x2a => Some(Codec::Ip6zone),
                                0x2f => Some(Codec::Path),
                                0x30 => Some(Codec::Multicodec),
                                0x31 => Some(Codec::Multihash),
                                0x32 => Some(Codec::Multiaddr),
                                _ => None,
                            }
                        }
                    }
                } else {
                    if n < 0x7b {
                        if n < 0x55 {
                            match n {
                                0x33 => Some(Codec::Multibase),
                                0x35 => Some(Codec::Dns),
                                0x36 => Some(Codec::Dns4),
                                0x37 => Some(Codec::Dns6),
                                0x38 => Some(Codec::Dnsaddr),
                                0x50 => Some(Codec::Protobuf),
                                0x51 => Some(Codec::Cbor),
                                _ => None,
                            }
                        } else {
                            match n {
                                0x55 => Some(Codec::Raw),
                                0x56 => Some(Codec::DblSha2256),
                                0x60 => Some(Codec::Rlp),
                                0x63 => Some(Codec::Bencode),
                                0x70 => Some(Codec::DagPb),
                                0x71 => Some(Codec::DagCbor),
                                0x72 => Some(Codec::Libp2pKey),
                                0x78 => Some(Codec::GitRaw),
                                _ => None,
                            }
                        }
                    } else {
                        if n < 0x90 {
                            match n {
                                0x7b => Some(Codec::TorrentInfo),
                                0x7c => Some(Codec::TorrentFile),
                                0x81 => Some(Codec::LeofcoinBlock),
                                0x82 => Some(Codec::LeofcoinTx),
                                0x83 => Some(Codec::LeofcoinPr),
                                0x84 => Some(Codec::Sctp),
                                0x85 => Some(Codec::DagJose),
                                0x86 => Some(Codec::DagCose),
                                _ => None,
                            }
                        } else {
                            match n {
                                0x90 => Some(Codec::EthBlock),
                                0x91 => Some(Codec::EthBlockList),
                                0x92 => Some(Codec::EthTxTrie),
                                0x93 => Some(Codec::EthTx),
                                0x94 => Some(Codec::EthTxReceiptTrie),
                                0x95 => Some(Codec::EthTxReceipt),
                                0x96 => Some(Codec::EthStateTrie),
                                0x97 => Some(Codec::EthAccountSnapshot),
                                _ => None,
                            }
                        }
                    }
                }
            } else {
                if n < 0xec {
                    if n < 0xd0 {
                        if n < 0xa4 {
                            match n {
                                0x98 => Some(Codec::EthStorageTrie),
                                0x99 => Some(Codec::EthReceiptLogTrie),
                                0x9a => Some(Codec::EthRecieptLog),
                                0xa0 => Some(Codec::Aes128),
                                0xa1 => Some(Codec::Aes192),
                                0xa2 => Some(Codec::Aes256),
                                0xa3 => Some(Codec::Chacha128),
                                _ => None,
                            }
                        } else {
                            match n {
                                0xa4 => Some(Codec::Chacha256),
                                0xb0 => Some(Codec::BitcoinBlock),
                                0xb1 => Some(Codec::BitcoinTx),
                                0xb2 => Some(Codec::BitcoinWitnessCommitment),
                                0xc0 => Some(Codec::ZcashBlock),
                                0xc1 => Some(Codec::ZcashTx),
                                0xca => Some(Codec::Caip50),
                                0xce => Some(Codec::Streamid),
                                _ => None,
                            }
                        }
                    } else {
                        if n < 0xe2 {
                            match n {
                                0xd0 => Some(Codec::StellarBlock),
                                0xd1 => Some(Codec::StellarTx),
                                0xd4 => Some(Codec::Md4),
                                0xd5 => Some(Codec::Md5),
                                0xd6 => Some(Codec::Bmt),
                                0xe0 => Some(Codec::DecredBlock),
                                0xe1 => Some(Codec::DecredTx),
                                _ => None,
                            }
                        } else {
                            match n {
                                0xe2 => Some(Codec::IpldNs),
                                0xe3 => Some(Codec::IpfsNs),
                                0xe4 => Some(Codec::SwarmNs),
                                0xe5 => Some(Codec::IpnsNs),
                                0xe6 => Some(Codec::Zeronet),
                                0xe7 => Some(Codec::Secp256k1Pub),
                                0xea => Some(Codec::Bls12_381G1Pub),
                                0xeb => Some(Codec::Bls12_381G2Pub),
                                _ => None,
                            }
                        }
                    }
                } else {
                    if n < 0x190 {
                        if n < 0x111 {
                            match n {
                                0xec => Some(Codec::X25519Pub),
                                0xed => Some(Codec::Ed25519Pub),
                                0xee => Some(Codec::Bls12_381G1g2Pub),
                                0xf0 => Some(Codec::DashBlock),
                                0xf1 => Some(Codec::DashTx),
                                0xfa => Some(Codec::SwarmManifest),
                                0xfb => Some(Codec::SwarmFeed),
                                _ => None,
                            }
                        } else {
                            match n {
                                0x111 => Some(Codec::Udp),
                                0x113 => Some(Codec::P2pWebrtcStar),
                                0x114 => Some(Codec::P2pWebrtcDirect),
                                0x115 => Some(Codec::P2pStardust),
                                0x122 => Some(Codec::P2pCircuit),
                                0x129 => Some(Codec::DagJson),
                                0x12d => Some(Codec::Udt),
                                0x12e => Some(Codec::Utp),
                                _ => None,
                            }
                        }
                    } else {
                        if n < 0x1c0 {
                            match n {
                                0x190 => Some(Codec::Unix),
                                0x196 => Some(Codec::Thread),
                                0x1a5 => Some(Codec::P2p),
                                0x1bb => Some(Codec::Https),
                                0x1bc => Some(Codec::Onion),
                                0x1bd => Some(Codec::Onion3),
                                0x1be => Some(Codec::Garlic64),
                                0x1bf => Some(Codec::Garlic32),
                                _ => None,
                            }
                        } else {
                            match n {
                                0x1c0 => Some(Codec::Tls),
                                0x1c6 => Some(Codec::Noise),
                                0x1cc => Some(Codec::Quic),
                                0x1d1 => Some(Codec::Webtransport),
                                0x1dd => Some(Codec::Ws),
                                0x1de => Some(Codec::Wss),
                                0x1df => Some(Codec::P2pWebsocketStar),
                                0x1e0 => Some(Codec::Http),
                                _ => None,
                            }
                        }
                    }
                }
            }
        } else {
            if n < 0xb21f {
                if n < 0x534d {
                    if n < 0x1052 {
                        if n < 0x401 {
                            match n {
                                0x1f0 => Some(Codec::Swhid1Snp),
                                0x200 => Some(Codec::Json),
                                0x201 => Some(Codec::Messagepack),
                                0x202 => Some(Codec::Car),
                                0x301 => Some(Codec::Libp2pPeerRecord),
                                0x302 => Some(Codec::Libp2pRelayRsvp),
                                0x400 => Some(Codec::CarIndexSorted),
                                _ => None,
                            }
                        } else {
                            match n {
                                0x401 => Some(Codec::CarMultihashIndexSorted),
                                0x900 => Some(Codec::TransportBitswap),
                                0x910 => Some(Codec::TransportGraphsyncFilecoinv1),
                                0x1012 => Some(Codec::Sha2256Trunc254Padded),
                                0x1013 => Some(Codec::Sha2224),
                                0x1014 => Some(Codec::Sha2512224),
                                0x1015 => Some(Codec::Sha2512256),
                                0x1022 => Some(Codec::Murmur3X64128),
                                _ => None,
                            }
                        }
                    } else {
                        if n < 0x1202 {
                            match n {
                                0x1052 => Some(Codec::Ripemd128),
                                0x1053 => Some(Codec::Ripemd160),
                                0x1054 => Some(Codec::Ripemd256),
                                0x1055 => Some(Codec::Ripemd320),
                                0x1100 => Some(Codec::X11),
                                0x1200 => Some(Codec::P256Pub),
                                0x1201 => Some(Codec::P384Pub),
                                _ => None,
                            }
                        } else {
                            match n {
                                0x1202 => Some(Codec::P521Pub),
                                0x1203 => Some(Codec::Ed448Pub),
                                0x1204 => Some(Codec::X448Pub),
                                0x1205 => Some(Codec::RsaPub),
                                0x1300 => Some(Codec::Ed25519Priv),
                                0x1301 => Some(Codec::Secp256k1Priv),
                                0x1302 => Some(Codec::X25519Priv),
                                0x1d01 => Some(Codec::Kangarootwelve),
                                _ => None,
                            }
                        }
                    }
                } else {
                    if n < 0xb20f {
                        if n < 0xb207 {
                            match n {
                                0x534d => Some(Codec::Sm3256),
                                0xb201 => Some(Codec::Blake2b8),
                                0xb202 => Some(Codec::Blake2b16),
                                0xb203 => Some(Codec::Blake2b24),
                                0xb204 => Some(Codec::Blake2b32),
                                0xb205 => Some(Codec::Blake2b40),
                                0xb206 => Some(Codec::Blake2b48),
                                _ => None,
                            }
                        } else {
                            match n {
                                0xb207 => Some(Codec::Blake2b56),
                                0xb208 => Some(Codec::Blake2b64),
                                0xb209 => Some(Codec::Blake2b72),
                                0xb20a => Some(Codec::Blake2b80),
                                0xb20b => Some(Codec::Blake2b88),
                                0xb20c => Some(Codec::Blake2b96),
                                0xb20d => Some(Codec::Blake2b104),
                                0xb20e => Some(Codec::Blake2b112),
                                _ => None,
                            }
                        }
                    } else {
                        if n < 0xb217 {
                            match n {
                                0xb20f => Some(Codec::Blake2b120),
                                0xb210 => Some(Codec::Blake2b128),
                                0xb211 => Some(Codec::Blake2b136),
                                0xb212 => Some(Codec::Blake2b144),
                                0xb213 => Some(Codec::Blake2b152),
                                0xb214 => Some(Codec::Blake2b160),
                                0xb215 => Some(Codec::Blake2b168),
                                0xb216 => Some(Codec::Blake2b176),
                                _ => None,
                            }
                        } else {
                            match n {
                                0xb217 => Some(Codec::Blake2b184),
                                0xb218 => Some(Codec::Blake2b192),
                                0xb219 => Some(Codec::Blake2b200),
                                0xb21a => Some(Codec::Blake2b208),
                                0xb21b => Some(Codec::Blake2b216),
                                0xb21c => Some(Codec::Blake2b224),
                                0xb21d => Some(Codec::Blake2b232),
                                0xb21e => Some(Codec::Blake2b240),
                                _ => None,
                            }
                        }
                    }
                }
            } else {
                if n < 0xb23e {
                    if n < 0xb22e {
                        if n < 0xb226 {
                            match n {
                                0xb21f => Some(Codec::Blake2b248),
                                0xb220 => Some(Codec::Blake2b256),
                                0xb221 => Some(Codec::Blake2b264),
                                0xb222 => Some(Codec::Blake2b272),
                                0xb223 => Some(Codec::Blake2b280),
                                0xb224 => Some(Codec::Blake2b288),
                                0xb225 => Some(Codec::Blake2b296),
                                _ => None,
                            }
                        } else {
                            match n {
                                0xb226 => Some(Codec::Blake2b304),
                                0xb227 => Some(Codec::Blake2b312),
                                0xb228 => Some(Codec::Blake2b320),
                                0xb229 => Some(Codec::Blake2b328),
                                0xb22a => Some(Codec::Blake2b336),
                                0xb22b => Some(Codec::Blake2b344),
                                0xb22c => Some(Codec::Blake2b352),
                                0xb22d => Some(Codec::Blake2b360),
                                _ => None,
                            }
                        }
                    } else {
                        if n < 0xb236 {
                            match n {
                                0xb22e => Some(Codec::Blake2b368),
                                0xb22f => Some(Codec::Blake2b376),
                                0xb230 => Some(Codec::Blake2b384),
                                0xb231 => Some(Codec::Blake2b392),
                                0xb232 => Some(Codec::Blake2b400),
                                0xb233 => Some(Codec::Blake2b408),
                                0xb234 => Some(Codec::Blake2b416),
                                0xb235 => Some(Codec::Blake2b424),
                                _ => None,
                            }
                        } else {
                            match n {
                                0xb236 => Some(Codec::Blake2b432),
                                0xb237 => Some(Codec::Blake2b440),
                                0xb238 => Some(Codec::Blake2b448),
                                0xb239 => Some(Codec::Blake2b456),
                                0xb23a => Some(Codec::Blake2b464),
                                0xb23b => Some(Codec::Blake2b472),
                                0xb23c => Some(Codec::Blake2b480),
                                0xb23d => Some(Codec::Blake2b488),
                                _ => None,
                            }
                        }
                    }
                } else {
                    if n < 0xb24d {
                        if n < 0xb245 {
                            match n {
                                0xb23e => Some(Codec::Blake2b496),
                                0xb23f => Some(Codec::Blake2b504),
                                0xb240 => Some(Codec::Blake2b512),
                                0xb241 => Some(Codec::Blake2s8),
                                0xb242 => Some(Codec::Blake2s16),
                                0xb243 => Some(Codec::Blake2s24),
                                0xb244 => Some(Codec::Blake2s32),
                                _ => None,
                            }
                        } else {
                            match n {
                                0xb245 => Some(Codec::Blake2s40),
                                0xb246 => Some(Codec::Blake2s48),
                                0xb247 => Some(Codec::Blake2s56),
                                0xb248 => Some(Codec::Blake2s64),
                                0xb249 => Some(Codec::Blake2s72),
                                0xb24a => Some(Codec::Blake2s80),
                                0xb24b => Some(Codec::Blake2s88),
                                0xb24c => Some(Codec::Blake2s96),
                                _ => None,
                            }
                        }
                    } else {
                        if n < 0xb255 {
                            match n {
                                0xb24d => Some(Codec::Blake2s104),
                                0xb24e => Some(Codec::Blake2s112),
                                0xb24f => Some(Codec::Blake2s120),
                                0xb250 => Some(Codec::Blake2s128),
                                0xb251 => Some(Codec::Blake2s136),
                                0xb252 => Some(Codec::Blake2s144),
                                0xb253 => Some(Codec::Blake2s152),
                                0xb254 => Some(Codec::Blake2s160),
                                _ => None,
                            }
                        } else {
                            match n {
                                0xb255 => Some(Codec::Blake2s168),
                                0xb256 => Some(Codec::Blake2s176),
                                0xb257 => Some(Codec::Blake2s184),
                                0xb258 => Some(Codec::Blake2s192),
                                0xb259 => Some(Codec::Blake2s200),
                                0xb25a => Some(Codec::Blake2s208),
                                0xb25b => Some(Codec::Blake2s216),
                                0xb25c => Some(Codec::Blake2s224),
                                _ => None,
                            }
                        }
                    }
                }
            }
        }
    } else {
        if n < 0xb377 {
            if n < 0xb33a {
                if n < 0xb31b {
                    if n < 0xb30c {
                        if n < 0xb304 {
                            match n {
                                0xb25d => Some(Codec::Blake2s232),
                                0xb25e => Some(Codec::Blake2s240),
                                0xb25f => Some(Codec::Blake2s248),
                                0xb260 => Some(Codec::Blake2s256),
                                0xb301 => Some(Codec::Skein2568),
                                0xb302 => Some(Codec::Skein25616),
                                0xb303 => Some(Codec::Skein25624),
                                _ => None,
                            }
                        } else {
                            match n {
                                0xb304 => Some(Codec::Skein25632),
                                0xb305 => Some(Codec::Skein25640),
                                0xb306 => Some(Codec::Skein25648),
                                0xb307 => Some(Codec::Skein25656),
                                0xb308 => Some(Codec::Skein25664),
                                0xb309 => Some(Codec::Skein25672),
                                0xb30a => Some(Codec::Skein25680),
                                0xb30b => Some(Codec::Skein25688),
                                _ => None,
                            }
                        }
                    } else {
                        if n < 0xb313 {
                            match n {
                                0xb30c => Some(Codec::Skein25696),
                                0xb30d => Some(Codec::Skein256104),
                                0xb30e => Some(Codec::Skein256112),
                                0xb30f => Some(Codec::Skein256120),
                                0xb310 => Some(Codec::Skein256128),
                                0xb311 => Some(Codec::Skein256136),
                                0xb312 => Some(Codec::Skein256144),
                                _ => None,
                            }
                        } else {
                            match n {
                                0xb313 => Some(Codec::Skein256152),
                                0xb314 => Some(Codec::Skein256160),
                                0xb315 => Some(Codec::Skein256168),
                                0xb316 => Some(Codec::Skein256176),
                                0xb317 => Some(Codec::Skein256184),
                                0xb318 => Some(Codec::Skein256192),
                                0xb319 => Some(Codec::Skein256200),
                                0xb31a => Some(Codec::Skein256208),
                                _ => None,
                            }
                        }
                    }
                } else {
                    if n < 0xb32a {
                        if n < 0xb322 {
                            match n {
                                0xb31b => Some(Codec::Skein256216),
                                0xb31c => Some(Codec::Skein256224),
                                0xb31d => Some(Codec::Skein256232),
                                0xb31e => Some(Codec::Skein256240),
                                0xb31f => Some(Codec::Skein256248),
                                0xb320 => Some(Codec::Skein256256),
                                0xb321 => Some(Codec::Skein5128),
                                _ => None,
                            }
                        } else {
                            match n {
                                0xb322 => Some(Codec::Skein51216),
                                0xb323 => Some(Codec::Skein51224),
                                0xb324 => Some(Codec::Skein51232),
                                0xb325 => Some(Codec::Skein51240),
                                0xb326 => Some(Codec::Skein51248),
                                0xb327 => Some(Codec::Skein51256),
                                0xb328 => Some(Codec::Skein51264),
                                0xb329 => Some(Codec::Skein51272),
                                _ => None,
                            }
                        }
                    } else {
                        if n < 0xb332 {
                            match n {
                                0xb32a => Some(Codec::Skein51280),
                                0xb32b => Some(Codec::Skein51288),
                                0xb32c => Some(Codec::Skein51296),
                                0xb32d => Some(Codec::Skein512104),
                                0xb32e => Some(Codec::Skein512112),
                                0xb32f => Some(Codec::Skein512120),
                                0xb330 => Some(Codec::Skein512128),
                                0xb331 => Some(Codec::Skein512136),
                                _ => None,
                            }
                        } else {
                            match n {
                                0xb332 => Some(Codec::Skein512144),
                                0xb333 => Some(Codec::Skein512152),
                                0xb334 => Some(Codec::Skein512160),
                                0xb335 => Some(Codec::Skein512168),
                                0xb336 => Some(Codec::Skein512176),
                                0xb337 => Some(Codec::Skein512184),
                                0xb338 => Some(Codec::Skein512192),
                                0xb339 => Some(Codec::Skein512200),
                                _ => None,
                            }
                        }
                    }
                }
            } else {
                if n < 0xb358 {
                    if n < 0xb349 {
                        if n < 0xb341 {
                            match n {
                                0xb33a => Some(Codec::Skein512208),
                                0xb33b => Some(Codec::Skein512216),
                                0xb33c => Some(Codec::Skein512224),
                                0xb33d => Some(Codec::Skein512232),
                                0xb33e => Some(Codec::Skein512240),
                                0xb33f => Some(Codec::Skein512248),
                                0xb340 => Some(Codec::Skein512256),
                                _ => None,
                            }
                        } else {
                            match n {
                                0xb341 => Some(Codec::Skein512264),
                                0xb342 => Some(Codec::Skein512272),
                                0xb343 => Some(Codec::Skein512280),
                                0xb344 => Some(Codec::Skein512288),
                                0xb345 => Some(Codec::Skein512296),
                                0xb346 => Some(Codec::Skein512304),
                                0xb347 => Some(Codec::Skein512312),
                                0xb348 => Some(Codec::Skein512320),
                                _ => None,
                            }
                        }
                    } else {
                        if n < 0xb350 {
                            match n {
                                0xb349 => Some(Codec::Skein512328),
                                0xb34a => Some(Codec::Skein512336),
                                0xb34b => Some(Codec::Skein512344),
                                0xb34c => Some(Codec::Skein512352),
                                0xb34d => Some(Codec::Skein512360),
                                0xb34e => Some(Codec::Skein512368),
                                0xb34f => Some(Codec::Skein512376),
                                _ => None,
                            }
                        } else {
                            match n {
                                0xb350 => Some(Codec::Skein512384),
                                0xb351 => Some(Codec::Skein512392),
                                0xb352 => Some(Codec::Skein512400),
                                0xb353 => Some(Codec::Skein512408),
                                0xb354 => Some(Codec::Skein512416),
                                0xb355 => Some(Codec::Skein512424),
                                0xb356 => Some(Codec::Skein512432),
                                0xb357 => Some(Codec::Skein512440),
                                _ => None,
                            }
                        }
                    }
                } else {
                    if n < 0xb367 {
                        if n < 0xb35f {
                            match n {
                                0xb358 => Some(Codec::Skein512448),
                                0xb359 => Some(Codec::Skein512456),
                                0xb35a => Some(Codec::Skein512464),
                                0xb35b => Some(Codec::Skein512472),
                                0xb35c => Some(Codec::Skein512480),
                                0xb35d => Some(Codec::Skein512488),
                                0xb35e => Some(Codec::Skein512496),
                                _ => None,
                            }
                        } else {
                            match n {
                                0xb35f => Some(Codec::Skein512504),
                                0xb360 => Some(Codec::Skein512512),
                                0xb361 => Some(Codec::Skein10248),
                                0xb362 => Some(Codec::Skein102416),
                                0xb363 => Some(Codec::Skein102424),
                                0xb364 => Some(Codec::Skein102432),
                                0xb365 => Some(Codec::Skein102440),
                                0xb366 => Some(Codec::Skein102448),
                                _ => None,
                            }
                        }
                    } else {
                        if n < 0xb36f {
                            match n {
                                0xb367 => Some(Codec::Skein102456),
                                0xb368 => Some(Codec::Skein102464),
                                0xb369 => Some(Codec::Skein102472),
                                0xb36a => Some(Codec::Skein102480),
                                0xb36b => Some(Codec::Skein102488),
                                0xb36c => Some(Codec::Skein102496),
                                0xb36d => Some(Codec::Skein1024104),
                                0xb36e => Some(Codec::Skein1024112),
                                _ => None,
                            }
                        } else {
                            match n {
                                0xb36f => Some(Codec::Skein1024120),
                                0xb370 => Some(Codec::Skein1024128),
                                0xb371 => Some(Codec::Skein1024136),
                                0xb372 => Some(Codec::Skein1024144),
                                0xb373 => Some(Codec::Skein1024152),
                                0xb374 => Some(Codec::Skein1024160),
                                0xb375 => Some(Codec::Skein1024168),
                                0xb376 => Some(Codec::Skein1024176),
                                _ => None,
                            }
                        }
                    }
                }
            }
        } else {
            if n < 0xb3b4 {
                if n < 0xb395 {
                    if n < 0xb386 {
                        if n < 0xb37e {
                            match n {
                                0xb377 => Some(Codec::Skein1024184),
                                0xb378 => Some(Codec::Skein1024192),
                                0xb379 => Some(Codec::Skein1024200),
                                0xb37a => Some(Codec::Skein1024208),
                                0xb37b => Some(Codec::Skein1024216),
                                0xb37c => Some(Codec::Skein1024224),
                                0xb37d => Some(Codec::Skein1024232),
                                _ => None,
                            }
                        } else {
                            match n {
                                0xb37e => Some(Codec::Skein1024240),
                                0xb37f => Some(Codec::Skein1024248),
                                0xb380 => Some(Codec::Skein1024256),
                                0xb381 => Some(Codec::Skein1024264),
                                0xb382 => Some(Codec::Skein1024272),
                                0xb383 => Some(Codec::Skein1024280),
                                0xb384 => Some(Codec::Skein1024288),
                                0xb385 => Some(Codec::Skein1024296),
                                _ => None,
                            }
                        }
                    } else {
                        if n < 0xb38d {
                            match n {
                                0xb386 => Some(Codec::Skein1024304),
                                0xb387 => Some(Codec::Skein1024312),
                                0xb388 => Some(Codec::Skein1024320),
                                0xb389 => Some(Codec::Skein1024328),
                                0xb38a => Some(Codec::Skein1024336),
                                0xb38b => Some(Codec::Skein1024344),
                                0xb38c => Some(Codec::Skein1024352),
                                _ => None,
                            }
                        } else {
                            match n {
                                0xb38d => Some(Codec::Skein1024360),
                                0xb38e => Some(Codec::Skein1024368),
                                0xb38f => Some(Codec::Skein1024376),
                                0xb390 => Some(Codec::Skein1024384),
                                0xb391 => Some(Codec::Skein1024392),
                                0xb392 => Some(Codec::Skein1024400),
                                0xb393 => Some(Codec::Skein1024408),
                                0xb394 => Some(Codec::Skein1024416),
                                _ => None,
                            }
                        }
                    }
                } else {
                    if n < 0xb3a4 {
                        if n < 0xb39c {
                            match n {
                                0xb395 => Some(Codec::Skein1024424),
                                0xb396 => Some(Codec::Skein1024432),
                                0xb397 => Some(Codec::Skein1024440),
                                0xb398 => Some(Codec::Skein1024448),
                                0xb399 => Some(Codec::Skein1024456),
                                0xb39a => Some(Codec::Skein1024464),
                                0xb39b => Some(Codec::Skein1024472),
                                _ => None,
                            }
                        } else {
                            match n {
                                0xb39c => Some(Codec::Skein1024480),
                                0xb39d => Some(Codec::Skein1024488),
                                0xb39e => Some(Codec::Skein1024496),
                                0xb39f => Some(Codec::Skein1024504),
                                0xb3a0 => Some(Codec::Skein1024512),
                                0xb3a1 => Some(Codec::Skein1024520),
                                0xb3a2 => Some(Codec::Skein1024528),
                                0xb3a3 => Some(Codec::Skein1024536),
                                _ => None,
                            }
                        }
                    } else {
                        if n < 0xb3ac {
                            match n {
                                0xb3a4 => Some(Codec::Skein1024544),
                                0xb3a5 => Some(Codec::Skein1024552),
                                0xb3a6 => Some(Codec::Skein1024560),
                                0xb3a7 => Some(Codec::Skein1024568),
                                0xb3a8 => Some(Codec::Skein1024576),
                                0xb3a9 => Some(Codec::Skein1024584),
                                0xb3aa => Some(Codec::Skein1024592),
                                0xb3ab => Some(Codec::Skein1024600),
                                _ => None,
                            }
                        } else {
                            match n {
                                0xb3ac => Some(Codec::Skein1024608),
                                0xb3ad => Some(Codec::Skein1024616),
                                0xb3ae => Some(Codec::Skein1024624),
                                0xb3af => Some(Codec::Skein1024632),
                                0xb3b0 => Some(Codec::Skein1024640),
                                0xb3b1 => Some(Codec::Skein1024648),
                                0xb3b2 => Some(Codec::Skein1024656),
                                0xb3b3 => Some(Codec::Skein1024664),
                                _ => None,
                            }
                        }
                    }
                }
            } else {
                if n < 0xb3d3 {
                    if n < 0xb3c3 {
                        if n < 0xb3bb {
                            match n {
                                0xb3b4 => Some(Codec::Skein1024672),
                                0xb3b5 => Some(Codec::Skein1024680),
                                0xb3b6 => Some(Codec::Skein1024688),
                                0xb3b7 => Some(Codec::Skein1024696),
                                0xb3b8 => Some(Codec::Skein1024704),
                                0xb3b9 => Some(Codec::Skein1024712),
                                0xb3ba => Some(Codec::Skein1024720),
                                _ => None,
                            }
                        } else {
                            match n {
                                0xb3bb => Some(Codec::Skein1024728),
                                0xb3bc => Some(Codec::Skein1024736),
                                0xb3bd => Some(Codec::Skein1024744),
                                0xb3be => Some(Codec::Skein1024752),
                                0xb3bf => Some(Codec::Skein1024760),
                                0xb3c0 => Some(Codec::Skein1024768),
                                0xb3c1 => Some(Codec::Skein1024776),
                                0xb3c2 => Some(Codec::Skein1024784),
                                _ => None,
                            }
                        }
                    } else {
                        if n < 0xb3cb {
                            match n {
                                0xb3c3 => Some(Codec::Skein1024792),
                                0xb3c4 => Some(Codec::Skein1024800),
                                0xb3c5 => Some(Codec::Skein1024808),
                                0xb3c6 => Some(Codec::Skein1024816),
                                0xb3c7 => Some(Codec::Skein1024824),
                                0xb3c8 => Some(Codec::Skein1024832),
                                0xb3c9 => Some(Codec::Skein1024840),
                                0xb3ca => Some(Codec::Skein1024848),
                                _ => None,
                            }
                        } else {
                            match n {
                                0xb3cb => Some(Codec::Skein1024856),
                                0xb3cc => Some(Codec::Skein1024864),
                                0xb3cd => Some(Codec::Skein1024872),
                                0xb3ce => Some(Codec::Skein1024880),
                                0xb3cf => Some(Codec::Skein1024888),
                                0xb3d0 => Some(Codec::Skein1024896),
                                0xb3d1 => Some(Codec::Skein1024904),
                                0xb3d2 => Some(Codec::Skein1024912),
                                _ => None,
                            }
                        }
                    }
                } else {
                    if n < 0xb402 {
                        if n < 0xb3da {
                            match n {
                                0xb3d3 => Some(Codec::Skein1024920),
                                0xb3d4 => Some(Codec::Skein1024928),
                                0xb3d5 => Some(Codec::Skein1024936),
                                0xb3d6 => Some(Codec::Skein1024944),
                                0xb3d7 => Some(Codec::Skein1024952),
                                0xb3d8 => Some(Codec::Skein1024960),
                                0xb3d9 => Some(Codec::Skein1024968),
                                _ => None,
                            }
                        } else {
                            match n {
                                0xb3da => Some(Codec::Skein1024976),
                                0xb3db => Some(Codec::Skein1024984),
                                0xb3dc => Some(Codec::Skein1024992),
                                0xb3dd => Some(Codec::Skein10241000),
                                0xb3de => Some(Codec::Skein10241008),
                                0xb3df => Some(Codec::Skein10241016),
                                0xb3e0 => Some(Codec::Skein10241024),
                                0xb401 => Some(Codec::PoseidonBls12_381A2Fc1),
                                _ => None,
                            }
                        }
                    } else {
                        if n < 0x947124 {
                            match n {
                                0xb402 => Some(Codec::PoseidonBls12_381A2Fc1Sc),
                                0xcc01 => Some(Codec::Iscc),
                                0xce11 => Some(Codec::ZeroxcertImprint256),
                                0xf101 => Some(Codec::FilCommitmentUnsealed),
                                0xf102 => Some(Codec::FilCommitmentSealed),
                                0x706c61 => Some(Codec::Plaintextv2),
                                0x807124 => Some(Codec::HolochainAdrV0),
                                0x817124 => Some(Codec::HolochainAdrV1),
                                _ => None,
                            }
                        } else {
                            match n {
                                0x947124 => Some(Codec::HolochainKeyV0),
                                0x957124 => Some(Codec::HolochainKeyV1),
                                0xa27124 => Some(Codec::HolochainSigV0),
                                0xa37124 => Some(Codec::HolochainSigV1),
                                0xb19910 => Some(Codec::SkynetNs),
                                0xb29910 => Some(Codec::ArweaveNs),
                                0xb39910 => Some(Codec::SubspaceNs),
                                0xb49910 => Some(Codec::KumandraNs),
                                _ => None,
                            }
                        }
                    }
                }
            }
        }
    }
}

/// A number that stands for no codec.
#[derive(Debug, Clone, Copy, PartialEq, Eq)]
pub struct TryFromCodeError {
    pub number: u64,
}

impl Codec {
    /// The number that stands for this codec.
    pub fn code(self) -> (r: u64)
        ensures
            r == codec_code(self),
    {
        match self {
            Codec::Identity => 0x0,
            Codec::Cidv1 => 0x1,
            Codec::Cidv2 => 0x2,
            Codec::Cidv3 => 0x3,
            Codec::Ip4 => 0x4,
            Codec::Tcp => 0x6,
            Codec::Sha1 => 0x11,
            Codec::Sha2256 => 0x12,
            Codec::Sha2512 => 0x13,
            Codec::Sha3512 => 0x14,
            Codec::Sha3384 => 0x15,
            Codec::Sha3256 => 0x16,
            Codec::Sha3224 => 0x17,
            Codec::Shake128 => 0x18,
            Codec::Shake256 => 0x19,
            Codec::Keccak224 => 0x1a,
            Codec::Keccak256 => 0x1b,
            Codec::Keccak384 => 0x1c,
            Codec::Keccak512 => 0x1d,
            Codec::Blake3 => 0x1e,
            Codec::Sha2384 => 0x20,
            Codec::Dccp => 0x21,
            Codec::Murmur3X6464 => 0x22,
            Codec::Murmur332 => 0x23,
            Codec::Ip6 => 0x29,
            Codec::Ip6zone => 0x2a,
            Codec::Path => 0x2f,
            Codec::Multicodec => 0x30,
            Codec::Multihash => 0x31,
            Codec::Multiaddr => 0x32,
            Codec::Multibase => 0x33,
            Codec::Dns => 0x35,
            Codec::Dns4 => 0x36,
            Codec::Dns6 => 0x37,
            Codec::Dnsaddr => 0x38,
            Codec::Protobuf => 0x50,
            Codec::Cbor => 0x51,
            Codec::Raw => 0x55,
            Codec::DblSha2256 => 0x56,
            Codec::Rlp => 0x60,
            Codec::Bencode => 0x63,
            Codec::DagPb => 0x70,
            Codec::DagCbor => 0x71,
            Codec::Libp2pKey => 0x72,
            Codec::GitRaw => 0x78,
            Codec::TorrentInfo => 0x7b,
            Codec::TorrentFile => 0x7c,
            Codec::LeofcoinBlock => 0x81,
            Codec::LeofcoinTx => 0x82,
            Codec::LeofcoinPr => 0x83,
            Codec::Sctp => 0x84,
            Codec::DagJose => 0x85,
            Codec::DagCose => 0x86,
            Codec::EthBlock => 0x90,
            Codec::EthBlockList => 0x91,
            Codec::EthTxTrie => 0x92,
            Codec::EthTx => 0x93,
            Codec::EthTxReceiptTrie => 0x94,
            Codec::EthTxReceipt => 0x95,
            Codec::EthStateTrie => 0x96,
            Codec::EthAccountSnapshot => 0x97,
            Codec::EthStorageTrie => 0x98,
            Codec::EthReceiptLogTrie => 0x99,
            Codec::EthRecieptLog => 0x9a,
            Codec::Aes128 => 0xa0,
            Codec::Aes192 => 0xa1,
            Codec::Aes256 => 0xa2,
            Codec::Chacha128 => 0xa3,
            Codec::Chacha256 => 0xa4,
            Codec::BitcoinBlock => 0xb0,
            Codec::BitcoinTx => 0xb1,
            Codec::BitcoinWitnessCommitment => 0xb2,
            Codec::ZcashBlock => 0xc0,
            Codec::ZcashTx => 0xc1,
            Codec::Caip50 => 0xca,
            Codec::Streamid => 0xce,
            Codec::StellarBlock => 0xd0,
            Codec::StellarTx => 0xd1,
            Codec::Md4 => 0xd4,
            Codec::Md5 => 0xd5,
            Codec::Bmt => 0xd6,
            Codec::DecredBlock => 0xe0,
            Codec::DecredTx => 0xe1,
            Codec::IpldNs => 0xe2,
            Codec::IpfsNs => 0xe3,
            Codec::SwarmNs => 0xe4,
            Codec::IpnsNs => 0xe5,
            Codec::Zeronet => 0xe6,
            Codec::Secp256k1Pub => 0xe7,
            Codec::Bls12_381G1Pub => 0xea,
            Codec::Bls12_381G2Pub => 0xeb,
            Codec::X25519Pub => 0xec,
            Codec::Ed25519Pub => 0xed,
            Codec::Bls12_381G1g2Pub => 0xee,
            Codec::DashBlock => 0xf0,
            Codec::DashTx => 0xf1,
            Codec::SwarmManifest => 0xfa,
            Codec::SwarmFeed => 0xfb,
            Codec::Udp => 0x111,
            Codec::P2pWebrtcStar => 0x113,
            Codec::P2pWebrtcDirect => 0x114,
            Codec::P2pStardust => 0x115,
            Codec::P2pCircuit => 0x122,
            Codec::DagJson => 0x129,
            Codec::Udt => 0x12d,
            Codec::Utp => 0x12e,
            Codec::Unix => 0x190,
            Codec::Thread => 0x196,
            Codec::P2p => 0x1a5,
            Codec::Https => 0x1bb,
            Codec::Onion => 0x1bc,
            Codec::Onion3 => 0x1bd,
            Codec::Garlic64 => 0x1be,
            Codec::Garlic32 => 0x1bf,
            Codec::Tls => 0x1c0,
            Codec::Noise => 0x1c6,
            Codec::Quic => 0x1cc,
            Codec::Webtransport => 0x1d1,
            Codec::Ws => 0x1dd,
            Codec::Wss => 0x1de,
            Codec::P2pWebsocketStar => 0x1df,
            Codec::Http => 0x1e0,
            Codec::Swhid1Snp => 0x1f0,
            Codec::Json => 0x200,
            Codec::Messagepack => 0x201,
            Codec::Car => 0x202,
            Codec::Libp2pPeerRecord => 0x301,
            Codec::Libp2pRelayRsvp => 0x302,
            Codec::CarIndexSorted => 0x400,
            Codec::CarMultihashIndexSorted => 0x401,
            Codec::TransportBitswap => 0x900,
            Codec::TransportGraphsyncFilecoinv1 => 0x910,
            Codec::Sha2256Trunc254Padded => 0x1012,
            Codec::Sha2224 => 0x1013,
            Codec::Sha2512224 => 0x1014,
            Codec::Sha2512256 => 0x1015,
            Codec::Murmur3X64128 => 0x1022,
            Codec::Ripemd128 => 0x1052,
            Codec::Ripemd160 => 0x1053,
            Codec::Ripemd256 => 0x1054,
            Codec::Ripemd320 => 0x1055,
            Codec::X11 => 0x1100,
            Codec::P256Pub => 0x1200,
            Codec::P384Pub => 0x1201,
            Codec::P521Pub => 0x1202,
            Codec::Ed448Pub => 0x1203,
            Codec::X448Pub => 0x1204,
            Codec::RsaPub => 0x1205,
            Codec::Ed25519Priv => 0x1300,
            Codec::Secp256k1Priv => 0x1301,
            Codec::X25519Priv => 0x1302,
            Codec::Kangarootwelve => 0x1d01,
            Codec::Sm3256 => 0x534d,
            Codec::Blake2b8 => 0xb201,
            Codec::Blake2b16 => 0xb202,
            Codec::Blake2b24 => 0xb203,
            Codec::Blake2b32 => 0xb204,
            Codec::Blake2b40 => 0xb205,
            Codec::Blake2b48 => 0xb206,
            Codec::Blake2b56 => 0xb207,
            Codec::Blake2b64 => 0xb208,
            Codec::Blake2b72 => 0xb209,
            Codec::Blake2b80 => 0xb20a,
            Codec::Blake2b88 => 0xb20b,
            Codec::Blake2b96 => 0xb20c,
            Codec::Blake2b104 => 0xb20d,
            Codec::Blake2b112 => 0xb20e,
            Codec::Blake2b120 => 0xb20f,
            Codec::Blake2b128 => 0xb210,
            Codec::Blake2b136 => 0xb211,
            Codec::Blake2b144 => 0xb212,
            Codec::Blake2b152 => 0xb213,
            Codec::Blake2b160 => 0xb214,
            Codec::Blake2b168 => 0xb215,
            Codec::Blake2b176 => 0xb216,
            Codec::Blake2b184 => 0xb217,
            Codec::Blake2b192 => 0xb218,
            Codec::Blake2b200 => 0xb219,
            Codec::Blake2b208 => 0xb21a,
            Codec::Blake2b216 => 0xb21b,
            Codec::Blake2b224 => 0xb21c,
            Codec::Blake2b232 => 0xb21d,
            Codec::Blake2b240 => 0xb21e,
            Codec::Blake2b248 => 0xb21f,
            Codec::Blake2b256 => 0xb220,
            Codec::Blake2b264 => 0xb221,
            Codec::Blake2b272 => 0xb222,
            Codec::Blake2b280 => 0xb223,
            Codec::Blake2b288 => 0xb224,
            Codec::Blake2b296 => 0xb225,
            Codec::Blake2b304 => 0xb226,
            Codec::Blake2b312 => 0xb227,
            Codec::Blake2b320 => 0xb228,
            Codec::Blake2b328 => 0xb229,
            Codec::Blake2b336 => 0xb22a,
            Codec::Blake2b344 => 0xb22b,
            Codec::Blake2b352 => 0xb22c,
            Codec::Blake2b360 => 0xb22d,
            Codec::Blake2b368 => 0xb22e,
            Codec::Blake2b376 => 0xb22f,
            Codec::Blake2b384 => 0xb230,
            Codec::Blake2b392 => 0xb231,
            Codec::Blake2b400 => 0xb232,
            Codec::Blake2b408 => 0xb233,
            Codec::Blake2b416 => 0xb234,
            Codec::Blake2b424 => 0xb235,
            Codec::Blake2b432 => 0xb236,
            Codec::Blake2b440 => 0xb237,
            Codec::Blake2b448 => 0xb238,
            Codec::Blake2b456 => 0xb239,
            Codec::Blake2b464 => 0xb23a,
            Codec::Blake2b472 => 0xb23b,
            Codec::Blake2b480 => 0xb23c,
            Codec::Blake2b488 => 0xb23d,
            Codec::Blake2b496 => 0xb23e,
            Codec::Blake2b504 => 0xb23f,
            Codec::Blake2b512 => 0xb240,
            Codec::Blake2s8 => 0xb241,
            Codec::Blake2s16 => 0xb242,
            Codec::Blake2s24 => 0xb243,
            Codec::Blake2s32 => 0xb244,
            Codec::Blake2s40 => 0xb245,
            Codec::Blake2s48 => 0xb246,
            Codec::Blake2s56 => 0xb247,
            Codec::Blake2s64 => 0xb248,
            Codec::Blake2s72 => 0xb249,
            Codec::Blake2s80 => 0xb24a,
            Codec::Blake2s88 => 0xb24b,
            Codec::Blake2s96 => 0xb24c,
            Codec::Blake2s104 => 0xb24d,
            Codec::Blake2s112 => 0xb24e,
            Codec::Blake2s120 => 0xb24f,
            Codec::Blake2s128 => 0xb250,
            Codec::Blake2s136 => 0xb251,
            Codec::Blake2s144 => 0xb252,
            Codec::Blake2s152 => 0xb253,
            Codec::Blake2s160 => 0xb254,
            Codec::Blake2s168 => 0xb255,
            Codec::Blake2s176 => 0xb256,
            Codec::Blake2s184 => 0xb257,
            Codec::Blake2s192 => 0xb258,
            Codec::Blake2s200 => 0xb259,
            Codec::Blake2s208 => 0xb25a,
            Codec::Blake2s216 => 0xb25b,
            Codec::Blake2s224 => 0xb25c,
            Codec::Blake2s232 => 0xb25d,
            Codec::Blake2s240 => 0xb25e,
            Codec::Blake2s248 => 0xb25f,
            Codec::Blake2s256 => 0xb260,
            Codec::Skein2568 => 0xb301,
            Codec::Skein25616 => 0xb302,
            Codec::Skein25624 => 0xb303,
            Codec::Skein25632 => 0xb304,
            Codec::Skein25640 => 0xb305,
            Codec::Skein25648 => 0xb306,
            Codec::Skein25656 => 0xb307,
            Codec::Skein25664 => 0xb308,
            Codec::Skein25672 => 0xb309,
            Codec::Skein25680 => 0xb30a,
            Codec::Skein25688 => 0xb30b,
            Codec::Skein25696 => 0xb30c,
            Codec::Skein256104 => 0xb30d,
            Codec::Skein256112 => 0xb30e,
            Codec::Skein256120 => 0xb30f,
            Codec::Skein256128 => 0xb310,
            Codec::Skein256136 => 0xb311,
            Codec::Skein256144 => 0xb312,
            Codec::Skein256152 => 0xb313,
            Codec::Skein256160 => 0xb314,
            Codec::Skein256168 => 0xb315,
            Codec::Skein256176 => 0xb316,
            Codec::Skein256184 => 0xb317,
            Codec::Skein256192 => 0xb318,
            Codec::Skein256200 => 0xb319,
            Codec::Skein256208 => 0xb31a,
            Codec::Skein256216 => 0xb31b,
            Codec::Skein256224 => 0xb31c,
            Codec::Skein256232 => 0xb31d,
            Codec::Skein256240 => 0xb31e,
            Codec::Skein256248 => 0xb31f,
            Codec::Skein256256 => 0xb320,
            Codec::Skein5128 => 0xb321,
            Codec::Skein51216 => 0xb322,
            Codec::Skein51224 => 0xb323,
            Codec::Skein51232 => 0xb324,
            Codec::Skein51240 => 0xb325,
            Codec::Skein51248 => 0xb326,
            Codec::Skein51256 => 0xb327,
            Codec::Skein51264 => 0xb328,
            Codec::Skein51272 => 0xb329,
            Codec::Skein51280 => 0xb32a,
            Codec::Skein51288 => 0xb32b,
            Codec::Skein51296 => 0xb32c,
            Codec::Skein512104 => 0xb32d,
            Codec::Skein512112 => 0xb32e,
            Codec::Skein512120 => 0xb32f,
            Codec::Skein512128 => 0xb330,
            Codec::Skein512136 => 0xb331,
            Codec::Skein512144 => 0xb332,
            Codec::Skein512152 => 0xb333,
            Codec::Skein512160 => 0xb334,
            Codec::Skein512168 => 0xb335,
            Codec::Skein512176 => 0xb336,
            Codec::Skein512184 => 0xb337,
            Codec::Skein512192 => 0xb338,
            Codec::Skein512200 => 0xb339,
            Codec::Skein512208 => 0xb33a,
            Codec::Skein512216 => 0xb33b,
            Codec::Skein512224 => 0xb33c,
            Codec::Skein512232 => 0xb33d,
            Codec::Skein512240 => 0xb33e,
            Codec::Skein512248 => 0xb33f,
            Codec::Skein512256 => 0xb340,
            Codec::Skein512264 => 0xb341,
            Codec::Skein512272 => 0xb342,
            Codec::Skein512280 => 0xb343,
            Codec::Skein512288 => 0xb344,
            Codec::Skein512296 => 0xb345,
            Codec::Skein512304 => 0xb346,
            Codec::Skein512312 => 0xb347,
            Codec::Skein512320 => 0xb348,
            Codec::Skein512328 => 0xb349,
            Codec::Skein512336 => 0xb34a,
            Codec::Skein512344 => 0xb34b,
            Codec::Skein512352 => 0xb34c,
            Codec::Skein512360 => 0xb34d,
            Codec::Skein512368 => 0xb34e,
            Codec::Skein512376 => 0xb34f,
            Codec::Skein512384 => 0xb350,
            Codec::Skein512392 => 0xb351,
            Codec::Skein512400 => 0xb352,
            Codec::Skein512408 => 0xb353,
            Codec::Skein512416 => 0xb354,
            Codec::Skein512424 => 0xb355,
            Codec::Skein512432 => 0xb356,
            Codec::Skein512440 => 0xb357,
            Codec::Skein512448 => 0xb358,
            Codec::Skein512456 => 0xb359,
            Codec::Skein512464 => 0xb35a,
            Codec::Skein512472 => 0xb35b,
            Codec::Skein512480 => 0xb35c,
            Codec::Skein512488 => 0xb35d,
            Codec::Skein512496 => 0xb35e,
            Codec::Skein512504 => 0xb35f,
            Codec::Skein512512 => 0xb360,
            Codec::Skein10248 => 0xb361,
            Codec::Skein102416 => 0xb362,
            Codec::Skein102424 => 0xb363,
            Codec::Skein102432 => 0xb364,
            Codec::Skein102440 => 0xb365,
            Codec::Skein102448 => 0xb366,
            Codec::Skein102456 => 0xb367,
            Codec::Skein102464 => 0xb368,
            Codec::Skein102472 => 0xb369,
            Codec::Skein102480 => 0xb36a,
            Codec::Skein102488 => 0xb36b,
            Codec::Skein102496 => 0xb36c,
            Codec::Skein1024104 => 0xb36d,
            Codec::Skein1024112 => 0xb36e,
            Codec::Skein1024120 => 0xb36f,
            Codec::Skein1024128 => 0xb370,
            Codec::Skein1024136 => 0xb371,
            Codec::Skein1024144 => 0xb372,
            Codec::Skein1024152 => 0xb373,
            Codec::Skein1024160 => 0xb374,
            Codec::Skein1024168 => 0xb375,
            Codec::Skein1024176 => 0xb376,
            Codec::Skein1024184 => 0xb377,
            Codec::Skein1024192 => 0xb378,
            Codec::Skein1024200 => 0xb379,
            Codec::Skein1024208 => 0xb37a,
            Codec::Skein1024216 => 0xb37b,
            Codec::Skein1024224 => 0xb37c,
            Codec::Skein1024232 => 0xb37d,
            Codec::Skein1024240 => 0xb37e,
            Codec::Skein1024248 => 0xb37f,
            Codec::Skein1024256 => 0xb380,
            Codec::Skein1024264 => 0xb381,
            Codec::Skein1024272 => 0xb382,
            Codec::Skein1024280 => 0xb383,
            Codec::Skein1024288 => 0xb384,
            Codec::Skein1024296 => 0xb385,
            Codec::Skein1024304 => 0xb386,
            Codec::Skein1024312 => 0xb387,
            Codec::Skein1024320 => 0xb388,
            Codec::Skein1024328 => 0xb389,
            Codec::Skein1024336 => 0xb38a,
            Codec::Skein1024344 => 0xb38b,
            Codec::Skein1024352 => 0xb38c,
            Codec::Skein1024360 => 0xb38d,
            Codec::Skein1024368 => 0xb38e,
            Codec::Skein1024376 => 0xb38f,
            Codec::Skein1024384 => 0xb390,
            Codec::Skein1024392 => 0xb391,
            Codec::Skein1024400 => 0xb392,
            Codec::Skein1024408 => 0xb393,
            Codec::Skein1024416 => 0xb394,
            Codec::Skein1024424 => 0xb395,
            Codec::Skein1024432 => 0xb396,
            Codec::Skein1024440 => 0xb397,
            Codec::Skein1024448 => 0xb398,
            Codec::Skein1024456 => 0xb399,
            Codec::Skein1024464 => 0xb39a,
            Codec::Skein1024472 => 0xb39b,
            Codec::Skein1024480 => 0xb39c,
            Codec::Skein1024488 => 0xb39d,
            Codec::Skein1024496 => 0xb39e,
            Codec::Skein1024504 => 0xb39f,
            Codec::Skein1024512 => 0xb3a0,
            Codec::Skein1024520 => 0xb3a1,
            Codec::Skein1024528 => 0xb3a2,
            Codec::Skein1024536 => 0xb3a3,
            Codec::Skein1024544 => 0xb3a4,
            Codec::Skein1024552 => 0xb3a5,
            Codec::Skein1024560 => 0xb3a6,
            Codec::Skein1024568 => 0xb3a7,
            Codec::Skein1024576 => 0xb3a8,
            Codec::Skein1024584 => 0xb3a9,
            Codec::Skein1024592 => 0xb3aa,
            Codec::Skein1024600 => 0xb3ab,
            Codec::Skein1024608 => 0xb3ac,
            Codec::Skein1024616 => 0xb3ad,
            Codec::Skein1024624 => 0xb3ae,
            Codec::Skein1024632 => 0xb3af,
            Codec::Skein1024640 => 0xb3b0,
            Codec::Skein1024648 => 0xb3b1,
            Codec::Skein1024656 => 0xb3b2,
            Codec::Skein1024664 => 0xb3b3,
            Codec::Skein1024672 => 0xb3b4,
            Codec::Skein1024680 => 0xb3b5,
            Codec::Skein1024688 => 0xb3b6,
            Codec::Skein1024696 => 0xb3b7,
            Codec::Skein1024704 => 0xb3b8,
            Codec::Skein1024712 => 0xb3b9,
            Codec::Skein1024720 => 0xb3ba,
            Codec::Skein1024728 => 0xb3bb,
            Codec::Skein1024736 => 0xb3bc,
            Codec::Skein1024744 => 0xb3bd,
            Codec::Skein1024752 => 0xb3be,
            Codec::Skein1024760 => 0xb3bf,
            Codec::Skein1024768 => 0xb3c0,
            Codec::Skein1024776 => 0xb3c1,
            Codec::Skein1024784 => 0xb3c2,
            Codec::Skein1024792 => 0xb3c3,
            Codec::Skein1024800 => 0xb3c4,
            Codec::Skein1024808 => 0xb3c5,
            Codec::Skein1024816 => 0xb3c6,
            Codec::Skein1024824 => 0xb3c7,
            Codec::Skein1024832 => 0xb3c8,
            Codec::Skein1024840 => 0xb3c9,
            Codec::Skein1024848 => 0xb3ca,
            Codec::Skein1024856 => 0xb3cb,
            Codec::Skein1024864 => 0xb3cc,
            Codec::Skein1024872 => 0xb3cd,
            Codec::Skein1024880 => 0xb3ce,
            Codec::Skein1024888 => 0xb3cf,
            Codec::Skein1024896 => 0xb3d0,
            Codec::Skein1024904 => 0xb3d1,
            Codec::Skein1024912 => 0xb3d2,
            Codec::Skein1024920 => 0xb3d3,
            Codec::Skein1024928 => 0xb3d4,
            Codec::Skein1024936 => 0xb3d5,
            Codec::Skein1024944 => 0xb3d6,
            Codec::Skein1024952 => 0xb3d7,
            Codec::Skein1024960 => 0xb3d8,
            Codec::Skein1024968 => 0xb3d9,
            Codec::Skein1024976 => 0xb3da,
            Codec::Skein1024984 => 0xb3db,
            Codec::Skein1024992 => 0xb3dc,
            Codec::Skein10241000 => 0xb3dd,
            Codec::Skein10241008 => 0xb3de,
            Codec::Skein10241016 => 0xb3df,
            Codec::Skein10241024 => 0xb3e0,
            Codec::PoseidonBls12_381A2Fc1 => 0xb401,
            Codec::PoseidonBls12_381A2Fc1Sc => 0xb402,
            Codec::Iscc => 0xcc01,
            Codec::ZeroxcertImprint256 => 0xce11,
            Codec::FilCommitmentUnsealed => 0xf101,
            Codec::FilCommitmentSealed => 0xf102,
            Codec::Plaintextv2 => 0x706c61,
            Codec::HolochainAdrV0 => 0x807124,
            Codec::HolochainAdrV1 => 0x817124,
            Codec::HolochainKeyV0 => 0x947124,
            Codec::HolochainKeyV1 => 0x957124,
            Codec::HolochainSigV0 => 0xa27124,
            Codec::HolochainSigV1 => 0xa37124,
            Codec::SkynetNs => 0xb19910,
            Codec::ArweaveNs => 0xb29910,
            Codec::SubspaceNs => 0xb39910,
            Codec::KumandraNs => 0xb49910,
        }
    }

    /// The codec that `number` stands for.
    pub fn try_from_code(number: u64) -> (r: Result<Codec, TryFromCodeError>)
        ensures
            match r {
                Ok(c) => codec_of(number) == Some(c),
                Err(e) => codec_of(number) is None && e.number == number,
            },
    {
        if number < 0xb25d {
            if number < 0x1f0 {
                if number < 0x98 {
                    if number < 0x33 {
                        if number < 0x1a {
                            if number < 0x12 {
                                match number {
                                    0x0 => Ok(Codec::Identity),
                                    0x1 => Ok(Codec::Cidv1),
                                    0x2 => Ok(Codec::Cidv2),
                                    0x3 => Ok(Codec::Cidv3),
                                    0x4 => Ok(Codec::Ip4),
                                    0x6 => Ok(Codec::Tcp),
                                    0x11 => Ok(Codec::Sha1),
                                    _ => Err(TryFromCodeError { number }),
                                }
                            } else {
                                match number {
                                    0x12 => Ok(Codec::Sha2256),
                                    0x13 => Ok(Codec::Sha2512),
                                    0x14 => Ok(Codec::Sha3512),
                                    0x15 => Ok(Codec::Sha3384),
                                    0x16 => Ok(Codec::Sha3256),
                                    0x17 => Ok(Codec::Sha3224),
                                    0x18 => Ok(Codec::Shake128),
                                    0x19 => Ok(Codec::Shake256),
                                    _ => Err(TryFromCodeError { number }),
                                }
                            }
                        } else {
                            if number < 0x22 {
                                match number {
                                    0x1a => Ok(Codec::Keccak224),
                                    0x1b => Ok(Codec::Keccak256),
                                    0x1c => Ok(Codec::Keccak384),
                                    0x1d => Ok(Codec::Keccak512),
                                    0x1e => Ok(Codec::Blake3),
                                    0x20 => Ok(Codec::Sha2384),
                                    0x21 => Ok(Codec::Dccp),
                                    _ => Err(TryFromCodeError { number }),
                                }
                            } else {
                                match number {
                                    0x22 => Ok(Codec::Murmur3X6464),
                                    0x23 => Ok(Codec::Murmur332),
                                    0x29 => Ok(Codec::Ip6),
                                    0x2a => Ok(Codec::Ip6zone),
                                    0x2f => Ok(Codec::Path),
                                    0x30 => Ok(Codec::Multicodec),
                                    0x31 => Ok(Codec::Multihash),
                                    0x32 => Ok(Codec::Multiaddr),
                                    _ => Err(TryFromCodeError { number }),
                                }
                            }
                        }
                    } else {
                        if number < 0x7b {
                            if number < 0x55 {
                                match number {
                                    0x33 => Ok(Codec::Multibase),
                                    0x35 => Ok(Codec::Dns),
                                    0x36 => Ok(Codec::Dns4),
                                    0x37 => Ok(Codec::Dns6),
                                    0x38 => Ok(Codec::Dnsaddr),
                                    0x50 => Ok(Codec::Protobuf),
                                    0x51 => Ok(Codec::Cbor),
                                    _ => Err(TryFromCodeError { number }),
                                }
                            } else {
                                match number {
                                    0x55 => Ok(Codec::Raw),
                                    0x56 => Ok(Codec::DblSha2256),
                                    0x60 => Ok(Codec::Rlp),
                                    0x63 => Ok(Codec::Bencode),
                                    0x70 => Ok(Codec::DagPb),
                                    0x71 => Ok(Codec::DagCbor),
                                    0x72 => Ok(Codec::Libp2pKey),
                                    0x78 => Ok(Codec::GitRaw),
                                    _ => Err(TryFromCodeError { number }),
                                }
                            }
                        } else {
                            if number < 0x90 {
                                match number {
                                    0x7b => Ok(Codec::TorrentInfo),
                                    0x7c => Ok(Codec::TorrentFile),
                                    0x81 => Ok(Codec::LeofcoinBlock),
                                    0x82 => Ok(Codec::LeofcoinTx),
                                    0x83 => Ok(Codec::LeofcoinPr),
                                    0x84 => Ok(Codec::Sctp),
                                    0x85 => Ok(Codec::DagJose),
                                    0x86 => Ok(Codec::DagCose),
                                    _ => Err(TryFromCodeError { number }),
                                }
                            } else {
                                match number {
                                    0x90 => Ok(Codec::EthBlock),
                                    0x91 => Ok(Codec::EthBlockList),
                                    0x92 => Ok(Codec::EthTxTrie),
                                    0x93 => Ok(Codec::EthTx),
                                    0x94 => Ok(Codec::EthTxReceiptTrie),
                                    0x95 => Ok(Codec::EthTxReceipt),
                                    0x96 => Ok(Codec::EthStateTrie),
                                    0x97 => Ok(Codec::EthAccountSnapshot),
                                    _ => Err(TryFromCodeError { number }),
                                }
                            }
                        }
                    }
                } else {
                    if number < 0xec {
                        if number < 0xd0 {
                            if number < 0xa4 {
                                match number {
                                    0x98 => Ok(Codec::EthStorageTrie),
                                    0x99 => Ok(Codec::EthReceiptLogTrie),
                                    0x9a => Ok(Codec::EthRecieptLog),
                                    0xa0 => Ok(Codec::Aes128),
                                    0xa1 => Ok(Codec::Aes192),
                                    0xa2 => Ok(Codec::Aes256),
                                    0xa3 => Ok(Codec::Chacha128),
                                    _ => Err(TryFromCodeError { number }),
                                }
                            } else {
                                match number {
                                    0xa4 => Ok(Codec::Chacha256),
                                    0xb0 => Ok(Codec::BitcoinBlock),
                                    0xb1 => Ok(Codec::BitcoinTx),
                                    0xb2 => Ok(Codec::BitcoinWitnessCommitment),
                                    0xc0 => Ok(Codec::ZcashBlock),
                                    0xc1 => Ok(Codec::ZcashTx),
                                    0xca => Ok(Codec::Caip50),
                                    0xce => Ok(Codec::Streamid),
                                    _ => Err(TryFromCodeError { number }),
                                }
                            }
                        } else {
                            if number < 0xe2 {
                                match number {
                                    0xd0 => Ok(Codec::StellarBlock),
                                    0xd1 => Ok(Codec::StellarTx),
                                    0xd4 => Ok(Codec::Md4),
                                    0xd5 => Ok(Codec::Md5),
                                    0xd6 => Ok(Codec::Bmt),
                                    0xe0 => Ok(Codec::DecredBlock),
                                    0xe1 => Ok(Codec::DecredTx),
                                    _ => Err(TryFromCodeError { number }),
                                }
                            } else {
                                match number {
                                    0xe2 => Ok(Codec::IpldNs),
                                    0xe3 => Ok(Codec::IpfsNs),
                                    0xe4 => Ok(Codec::SwarmNs),
                                    0xe5 => Ok(Codec::IpnsNs),
                                    0xe6 => Ok(Codec::Zeronet),
                                    0xe7 => Ok(Codec::Secp256k1Pub),
                                    0xea => Ok(Codec::Bls12_381G1Pub),
                                    0xeb => Ok(Codec::Bls12_381G2Pub),
                                    _ => Err(TryFromCodeError { number }),
                                }
                            }
                        }
                    } else {
                        if number < 0x190 {
                            if number < 0x111 {
                                match number {
                                    0xec => Ok(Codec::X25519Pub),
                                    0xed => Ok(Codec::Ed25519Pub),
                                    0xee => Ok(Codec::Bls12_381G1g2Pub),
                                    0xf0 => Ok(Codec::DashBlock),
                                    0xf1 => Ok(Codec::DashTx),
                                    0xfa => Ok(Codec::SwarmManifest),
                                    0xfb => Ok(Codec::SwarmFeed),
                                    _ => Err(TryFromCodeError { number }),
                                }
                            } else {
                                match number {
                                    0x111 => Ok(Codec::Udp),
                                    0x113 => Ok(Codec::P2pWebrtcStar),
                                    0x114 => Ok(Codec::P2pWebrtcDirect),
                                    0x115 => Ok(Codec::P2pStardust),
                                    0x122 => Ok(Codec::P2pCircuit),
                                    0x129 => Ok(Codec::DagJson),
                                    0x12d => Ok(Codec::Udt),
                                    0x12e => Ok(Codec::Utp),
                                    _ => Err(TryFromCodeError { number }),
                                }
                            }
                        } else {
                            if number < 0x1c0 {
                                match number {
                                    0x190 => Ok(Codec::Unix),
                                    0x196 => Ok(Codec::Thread),
                                    0x1a5 => Ok(Codec::P2p),
                                    0x1bb => Ok(Codec::Https),
                                    0x1bc => Ok(Codec::Onion),
                                    0x1bd => Ok(Codec::Onion3),
                                    0x1be => Ok(Codec::Garlic64),
                                    0x1bf => Ok(Codec::Garlic32),
                                    _ => Err(TryFromCodeError { number }),
                                }
                            } else {
                                match number {
                                    0x1c0 => Ok(Codec::Tls),
                                    0x1c6 => Ok(Codec::Noise),
                                    0x1cc => Ok(Codec::Quic),
                                    0x1d1 => Ok(Codec::Webtransport),
                                    0x1dd => Ok(Codec::Ws),
                                    0x1de => Ok(Codec::Wss),
                                    0x1df => Ok(Codec::P2pWebsocketStar),
                                    0x1e0 => Ok(Codec::Http),
                                    _ => Err(TryFromCodeError { number }),
                                }
                            }
                        }
                    }
                }
            } else {
                if number < 0xb21f {
                    if number < 0x534d {
                        if number < 0x1052 {
                            if number < 0x401 {
                                match number {
                                    0x1f0 => Ok(Codec::Swhid1Snp),
                                    0x200 => Ok(Codec::Json),
                                    0x201 => Ok(Codec::Messagepack),
                                    0x202 => Ok(Codec::Car),
                                    0x301 => Ok(Codec::Libp2pPeerRecord),
                                    0x302 => Ok(Codec::Libp2pRelayRsvp),
                                    0x400 => Ok(Codec::CarIndexSorted),
                                    _ => Err(TryFromCodeError { number }),
                                }
                            } else {
                                match number {
                                    0x401 => Ok(Codec::CarMultihashIndexSorted),
                                    0x900 => Ok(Codec::TransportBitswap),
                                    0x910 => Ok(Codec::TransportGraphsyncFilecoinv1),
                                    0x1012 => Ok(Codec::Sha2256Trunc254Padded),
                                    0x1013 => Ok(Codec::Sha2224),
                                    0x1014 => Ok(Codec::Sha2512224),
                                    0x1015 => Ok(Codec::Sha2512256),
                                    0x1022 => Ok(Codec::Murmur3X64128),
                                    _ => Err(TryFromCodeError { number }),
                                }
                            }
                        } else {
                            if number < 0x1202 {
                                match number {
                                    0x1052 => Ok(Codec::Ripemd128),
                                    0x1053 => Ok(Codec::Ripemd160),
                                    0x1054 => Ok(Codec::Ripemd256),
                                    0x1055 => Ok(Codec::Ripemd320),
                                    0x1100 => Ok(Codec::X11),
                                    0x1200 => Ok(Codec::P256Pub),
                                    0x1201 => Ok(Codec::P384Pub),
                                    _ => Err(TryFromCodeError { number }),
                                }
                            } else {
                                match number {
                                    0x1202 => Ok(Codec::P521Pub),
                                    0x1203 => Ok(Codec::Ed448Pub),
                                    0x1204 => Ok(Codec::X448Pub),
                                    0x1205 => Ok(Codec::RsaPub),
                                    0x1300 => Ok(Codec::Ed25519Priv),
                                    0x1301 => Ok(Codec::Secp256k1Priv),
                                    0x1302 => Ok(Codec::X25519Priv),
                                    0x1d01 => Ok(Codec::Kangarootwelve),
                                    _ => Err(TryFromCodeError { number }),
                                }
                            }
                        }
                    } else {
                        if number < 0xb20f {
                            if number < 0xb207 {
                                match number {
                                    0x534d => Ok(Codec::Sm3256),
                                    0xb201 => Ok(Codec::Blake2b8),
                                    0xb202 => Ok(Codec::Blake2b16),
                                    0xb203 => Ok(Codec::Blake2b24),
                                    0xb204 => Ok(Codec::Blake2b32),
                                    0xb205 => Ok(Codec::Blake2b40),
                                    0xb206 => Ok(Codec::Blake2b48),
                                    _ => Err(TryFromCodeError { number }),
                                }
                            } else {
                                match number {
                                    0xb207 => Ok(Codec::Blake2b56),
                                    0xb208 => Ok(Codec::Blake2b64),
                                    0xb209 => Ok(Codec::Blake2b72),
                                    0xb20a => Ok(Codec::Blake2b80),
                                    0xb20b => Ok(Codec::Blake2b88),
                                    0xb20c => Ok(Codec::Blake2b96),
                                    0xb20d => Ok(Codec::Blake2b104),
                                    0xb20e => Ok(Codec::Blake2b112),
                                    _ => Err(TryFromCodeError { number }),
                                }
                            }
                        } else {
                            if number < 0xb217 {
                                match number {
                                    0xb20f => Ok(Codec::Blake2b120),
                                    0xb210 => Ok(Codec::Blake2b128),
                                    0xb211 => Ok(Codec::Blake2b136),
                                    0xb212 => Ok(Codec::Blake2b144),
                                    0xb213 => Ok(Codec::Blake2b152),
                                    0xb214 => Ok(Codec::Blake2b160),
                                    0xb215 => Ok(Codec::Blake2b168),
                                    0xb216 => Ok(Codec::Blake2b176),
                                    _ => Err(TryFromCodeError { number }),
                                }
                            } else {
                                match number {
                                    0xb217 => Ok(Codec::Blake2b184),
                                    0xb218 => Ok(Codec::Blake2b192),
                                    0xb219 => Ok(Codec::Blake2b200),
                                    0xb21a => Ok(Codec::Blake2b208),
                                    0xb21b => Ok(Codec::Blake2b216),
                                    0xb21c => Ok(Codec::Blake2b224),
                                    0xb21d => Ok(Codec::Blake2b232),
                                    0xb21e => Ok(Codec::Blake2b240),
                                    _ => Err(TryFromCodeError { number }),
                                }
                            }
                        }
                    }
                } else {
                    if number < 0xb23e {
                        if number < 0xb22e {
                            if number < 0xb226 {
                                match number {
                                    0xb21f => Ok(Codec::Blake2b248),
                                    0xb220 => Ok(Codec::Blake2b256),
                                    0xb221 => Ok(Codec::Blake2b264),
                                    0xb222 => Ok(Codec::Blake2b272),
                                    0xb223 => Ok(Codec::Blake2b280),
                                    0xb224 => Ok(Codec::Blake2b288),
                                    0xb225 => Ok(Codec::Blake2b296),
                                    _ => Err(TryFromCodeError { number }),
                                }
                            } else {
                                match number {
                                    0xb226 => Ok(Codec::Blake2b304),
                                    0xb227 => Ok(Codec::Blake2b312),
                                    0xb228 => Ok(Codec::Blake2b320),
                                    0xb229 => Ok(Codec::Blake2b328),
                                    0xb22a => Ok(Codec::Blake2b336),
                                    0xb22b => Ok(Codec::Blake2b344),
                                    0xb22c => Ok(Codec::Blake2b352),
                                    0xb22d => Ok(Codec::Blake2b360),
                                    _ => Err(TryFromCodeError { number }),
                                }
                            }
                        } else {
                            if number < 0xb236 {
                                match number {
                                    0xb22e => Ok(Codec::Blake2b368),
                                    0xb22f => Ok(Codec::Blake2b376),
                                    0xb230 => Ok(Codec::Blake2b384),
                                    0xb231 => Ok(Codec::Blake2b392),
                                    0xb232 => Ok(Codec::Blake2b400),
                                    0xb233 => Ok(Codec::Blake2b408),
                                    0xb234 => Ok(Codec::Blake2b416),
                                    0xb235 => Ok(Codec::Blake2b424),
                                    _ => Err(TryFromCodeError { number }),
                                }
                            } else {
                                match number {
                                    0xb236 => Ok(Codec::Blake2b432),
                                    0xb237 => Ok(Codec::Blake2b440),
                                    0xb238 => Ok(Codec::Blake2b448),
                                    0xb239 => Ok(Codec::Blake2b456),
                                    0xb23a => Ok(Codec::Blake2b464),
                                    0xb23b => Ok(Codec::Blake2b472),
                                    0xb23c => Ok(Codec::Blake2b480),
                                    0xb23d => Ok(Codec::Blake2b488),
                                    _ => Err(TryFromCodeError { number }),
                                }
                            }
                        }
                    } else {
                        if number < 0xb24d {
                            if number < 0xb245 {
                                match number {
                                    0xb23e => Ok(Codec::Blake2b496),
                                    0xb23f => Ok(Codec::Blake2b504),
                                    0xb240 => Ok(Codec::Blake2b512),
                                    0xb241 => Ok(Codec::Blake2s8),
                                    0xb242 => Ok(Codec::Blake2s16),
                                    0xb243 => Ok(Codec::Blake2s24),
                                    0xb244 => Ok(Codec::Blake2s32),
                                    _ => Err(TryFromCodeError { number }),
                                }
                            } else {
                                match number {
                                    0xb245 => Ok(Codec::Blake2s40),
                                    0xb246 => Ok(Codec::Blake2s48),
                                    0xb247 => Ok(Codec::Blake2s56),
                                    0xb248 => Ok(Codec::Blake2s64),
                                    0xb249 => Ok(Codec::Blake2s72),
                                    0xb24a => Ok(Codec::Blake2s80),
                                    0xb24b => Ok(Codec::Blake2s88),
                                    0xb24c => Ok(Codec::Blake2s96),
                                    _ => Err(TryFromCodeError { number }),
                                }
                            }
                        } else {
                            if number < 0xb255 {
                                match number {
                                    0xb24d => Ok(Codec::Blake2s104),
                                    0xb24e => Ok(Codec::Blake2s112),
                                    0xb24f => Ok(Codec::Blake2s120),
                                    0xb250 => Ok(Codec::Blake2s128),
                                    0xb251 => Ok(Codec::Blake2s136),
                                    0xb252 => Ok(Codec::Blake2s144),
                                    0xb253 => Ok(Codec::Blake2s152),
                                    0xb254 => Ok(Codec::Blake2s160),
                                    _ => Err(TryFromCodeError { number }),
                                }
                            } else {
                                match number {
                                    0xb255 => Ok(Codec::Blake2s168),
                                    0xb256 => Ok(Codec::Blake2s176),
                                    0xb257 => Ok(Codec::Blake2s184),
                                    0xb258 => Ok(Codec::Blake2s192),
                                    0xb259 => Ok(Codec::Blake2s200),
                                    0xb25a => Ok(Codec::Blake2s208),
                                    0xb25b => Ok(Codec::Blake2s216),
                                    0xb25c => Ok(Codec::Blake2s224),
                                    _ => Err(TryFromCodeError { number }),
                                }
                            }
                        }
                    }
                }
            }
        } else {
            if number < 0xb377 {
                if number < 0xb33a {
                    if number < 0xb31b {
                        if number < 0xb30c {
                            if number < 0xb304 {
                                match number {
                                    0xb25d => Ok(Codec::Blake2s232),
                                    0xb25e => Ok(Codec::Blake2s240),
                                    0xb25f => Ok(Codec::Blake2s248),
                                    0xb260 => Ok(Codec::Blake2s256),
                                    0xb301 => Ok(Codec::Skein2568),
                                    0xb302 => Ok(Codec::Skein25616),
                                    0xb303 => Ok(Codec::Skein25624),
                                    _ => Err(TryFromCodeError { number }),
                                }
                            } else {
                                match number {
                                    0xb304 => Ok(Codec::Skein25632),
                                    0xb305 => Ok(Codec::Skein25640),
                                    0xb306 => Ok(Codec::Skein25648),
                                    0xb307 => Ok(Codec::Skein25656),
                                    0xb308 => Ok(Codec::Skein25664),
                                    0xb309 => Ok(Codec::Skein25672),
                                    0xb30a => Ok(Codec::Skein25680),
                                    0xb30b => Ok(Codec::Skein25688),
                                    _ => Err(TryFromCodeError { number }),
                                }
                            }
                        } else {
                            if number < 0xb313 {
                                match number {
                                    0xb30c => Ok(Codec::Skein25696),
                                    0xb30d => Ok(Codec::Skein256104),
                                    0xb30e => Ok(Codec::Skein256112),
                                    0xb30f => Ok(Codec::Skein256120),
                                    0xb310 => Ok(Codec::Skein256128),
                                    0xb311 => Ok(Codec::Skein256136),
                                    0xb312 => Ok(Codec::Skein256144),
                                    _ => Err(TryFromCodeError { number }),
                                }
                            } else {
                                match number {
                                    0xb313 => Ok(Codec::Skein256152),
                                    0xb314 => Ok(Codec::Skein256160),
                                    0xb315 => Ok(Codec::Skein256168),
                                    0xb316 => Ok(Codec::Skein256176),
                                    0xb317 => Ok(Codec::Skein256184),
                                    0xb318 => Ok(Codec::Skein256192),
                                    0xb319 => Ok(Codec::Skein256200),
                                    0xb31a => Ok(Codec::Skein256208),
                                    _ => Err(TryFromCodeError { number }),
                                }
                            }
                        }
                    } else {
                        if number < 0xb32a {
                            if number < 0xb322 {
                                match number {
                                    0xb31b => Ok(Codec::Skein256216),
                                    0xb31c => Ok(Codec::Skein256224),
                                    0xb31d => Ok(Codec::Skein256232),
                                    0xb31e => Ok(Codec::Skein256240),
                                    0xb31f => Ok(Codec::Skein256248),
                                    0xb320 => Ok(Codec::Skein256256),
                                    0xb321 => Ok(Codec::Skein5128),
                                    _ => Err(TryFromCodeError { number }),
                                }
                            } else {
                                match number {
                                    0xb322 => Ok(Codec::Skein51216),
                                    0xb323 => Ok(Codec::Skein51224),
                                    0xb324 => Ok(Codec::Skein51232),
                                    0xb325 => Ok(Codec::Skein51240),
                                    0xb326 => Ok(Codec::Skein51248),
                                    0xb327 => Ok(Codec::Skein51256),
                                    0xb328 => Ok(Codec::Skein51264),
                                    0xb329 => Ok(Codec::Skein51272),
                                    _ => Err(TryFromCodeError { number }),
                                }
                            }
                        } else {
                            if number < 0xb332 {
                                match number {
                                    0xb32a => Ok(Codec::Skein51280),
                                    0xb32b => Ok(Codec::Skein51288),
                                    0xb32c => Ok(Codec::Skein51296),
                                    0xb32d => Ok(Codec::Skein512104),
                                    0xb32e => Ok(Codec::Skein512112),
                                    0xb32f => Ok(Codec::Skein512120),
                                    0xb330 => Ok(Codec::Skein512128),
                                    0xb331 => Ok(Codec::Skein512136),
                                    _ => Err(TryFromCodeError { number }),
                                }
                            } else {
                                match number {
                                    0xb332 => Ok(Codec::Skein512144),
                                    0xb333 => Ok(Codec::Skein512152),
                                    0xb334 => Ok(Codec::Skein512160),
                                    0xb335 => Ok(Codec::Skein512168),
                                    0xb336 => Ok(Codec::Skein512176),
                                    0xb337 => Ok(Codec::Skein512184),
                                    0xb338 => Ok(Codec::Skein512192),
                                    0xb339 => Ok(Codec::Skein512200),
                                    _ => Err(TryFromCodeError { number }),
                                }
                            }
                        }
                    }
                } else {
                    if number < 0xb358 {
                        if number < 0xb349 {
                            if number < 0xb341 {
                                match number {
                                    0xb33a => Ok(Codec::Skein512208),
                                    0xb33b => Ok(Codec::Skein512216),
                                    0xb33c => Ok(Codec::Skein512224),
                                    0xb33d => Ok(Codec::Skein512232),
                                    0xb33e => Ok(Codec::Skein512240),
                                    0xb33f => Ok(Codec::Skein512248),
                                    0xb340 => Ok(Codec::Skein512256),
                                    _ => Err(TryFromCodeError { number }),
                                }
                            } else {
                                match number {
                                    0xb341 => Ok(Codec::Skein512264),
                                    0xb342 => Ok(Codec::Skein512272),
                                    0xb343 => Ok(Codec::Skein512280),
                                    0xb344 => Ok(Codec::Skein512288),
                                    0xb345 => Ok(Codec::Skein512296),
                                    0xb346 => Ok(Codec::Skein512304),
                                    0xb347 => Ok(Codec::Skein512312),
                                    0xb348 => Ok(Codec::Skein512320),
                                    _ => Err(TryFromCodeError { number }),
                                }
                            }
                        } else {
                            if number < 0xb350 {
                                match number {
                                    0xb349 => Ok(Codec::Skein512328),
                                    0xb34a => Ok(Codec::Skein512336),
                                    0xb34b => Ok(Codec::Skein512344),
                                    0xb34c => Ok(Codec::Skein512352),
                                    0xb34d => Ok(Codec::Skein512360),
                                    0xb34e => Ok(Codec::Skein512368),
                                    0xb34f => Ok(Codec::Skein512376),
                                    _ => Err(TryFromCodeError { number }),
                                }
                            } else {
                                match number {
                                    0xb350 => Ok(Codec::Skein512384),
                                    0xb351 => Ok(Codec::Skein512392),
                                    0xb352 => Ok(Codec::Skein512400),
                                    0xb353 => Ok(Codec::Skein512408),
                                    0xb354 => Ok(Codec::Skein512416),
                                    0xb355 => Ok(Codec::Skein512424),
                                    0xb356 => Ok(Codec::Skein512432),
                                    0xb357 => Ok(Codec::Skein512440),
                                    _ => Err(TryFromCodeError { number }),
                                }
                            }
                        }
                    } else {
                        if number < 0xb367 {
                            if number < 0xb35f {
                                match number {
                                    0xb358 => Ok(Codec::Skein512448),
                                    0xb359 => Ok(Codec::Skein512456),
                                    0xb35a => Ok(Codec::Skein512464),
                                    0xb35b => Ok(Codec::Skein512472),
                                    0xb35c => Ok(Codec::Skein512480),
                                    0xb35d => Ok(Codec::Skein512488),
                                    0xb35e => Ok(Codec::Skein512496),
                                    _ => Err(TryFromCodeError { number }),
                                }
                            } else {
                                match number {
                                    0xb35f => Ok(Codec::Skein512504),
                                    0xb360 => Ok(Codec::Skein512512),
                                    0xb361 => Ok(Codec::Skein10248),
                                    0xb362 => Ok(Codec::Skein102416),
                                    0xb363 => Ok(Codec::Skein102424),
                                    0xb364 => Ok(Codec::Skein102432),
                                    0xb365 => Ok(Codec::Skein102440),
                                    0xb366 => Ok(Codec::Skein102448),
                                    _ => Err(TryFromCodeError { number }),
                                }
                            }
                        } else {
                            if number < 0xb36f {
                                match number {
                                    0xb367 => Ok(Codec::Skein102456),
                                    0xb368 => Ok(Codec::Skein102464),
                                    0xb369 => Ok(Codec::Skein102472),
                                    0xb36a => Ok(Codec::Skein102480),
                                    0xb36b => Ok(Codec::Skein102488),
                                    0xb36c => Ok(Codec::Skein102496),
                                    0xb36d => Ok(Codec::Skein1024104),
                                    0xb36e => Ok(Codec::Skein1024112),
                                    _ => Err(TryFromCodeError { number }),
                                }
                            } else {
                                match number {
                                    0xb36f => Ok(Codec::Skein1024120),
                                    0xb370 => Ok(Codec::Skein1024128),
                                    0xb371 => Ok(Codec::Skein1024136),
                                    0xb372 => Ok(Codec::Skein1024144),
                                    0xb373 => Ok(Codec::Skein1024152),
                                    0xb374 => Ok(Codec::Skein1024160),
                                    0xb375 => Ok(Codec::Skein1024168),
                                    0xb376 => Ok(Codec::Skein1024176),
                                    _ => Err(TryFromCodeError { number }),
                                }
                            }
                        }
                    }
                }
            } else {
                if number < 0xb3b4 {
                    if number < 0xb395 {
                        if number < 0xb386 {
                            if number < 0xb37e {
                                match number {
                                    0xb377 => Ok(Codec::Skein1024184),
                                    0xb378 => Ok(Codec::Skein1024192),
                                    0xb379 => Ok(Codec::Skein1024200),
                                    0xb37a => Ok(Codec::Skein1024208),
                                    0xb37b => Ok(Codec::Skein1024216),
                                    0xb37c => Ok(Codec::Skein1024224),
                                    0xb37d => Ok(Codec::Skein1024232),
                                    _ => Err(TryFromCodeError { number }),
                                }
                            } else {
                                match number {
                                    0xb37e => Ok(Codec::Skein1024240),
                                    0xb37f => Ok(Codec::Skein1024248),
                                    0xb380 => Ok(Codec::Skein1024256),
                                    0xb381 => Ok(Codec::Skein1024264),
                                    0xb382 => Ok(Codec::Skein1024272),
                                    0xb383 => Ok(Codec::Skein1024280),
                                    0xb384 => Ok(Codec::Skein1024288),
                                    0xb385 => Ok(Codec::Skein1024296),
                                    _ => Err(TryFromCodeError { number }),
                                }
                            }
                        } else {
                            if number < 0xb38d {
                                match number {
                                    0xb386 => Ok(Codec::Skein1024304),
                                    0xb387 => Ok(Codec::Skein1024312),
                                    0xb388 => Ok(Codec::Skein1024320),
                                    0xb389 => Ok(Codec::Skein1024328),
                                    0xb38a => Ok(Codec::Skein1024336),
                                    0xb38b => Ok(Codec::Skein1024344),
                                    0xb38c => Ok(Codec::Skein1024352),
                                    _ => Err(TryFromCodeError { number }),
                                }
                            } else {
                                match number {
                                    0xb38d => Ok(Codec::Skein1024360),
                                    0xb38e => Ok(Codec::Skein1024368),
                                    0xb38f => Ok(Codec::Skein1024376),
                                    0xb390 => Ok(Codec::Skein1024384),
                                    0xb391 => Ok(Codec::Skein1024392),
                                    0xb392 => Ok(Codec::Skein1024400),
                                    0xb393 => Ok(Codec::Skein1024408),
                                    0xb394 => Ok(Codec::Skein1024416),
                                    _ => Err(TryFromCodeError { number }),
                                }
                            }
                        }
                    } else {
                        if number < 0xb3a4 {
                            if number < 0xb39c {
                                match number {
                                    0xb395 => Ok(Codec::Skein1024424),
                                    0xb396 => Ok(Codec::Skein1024432),
                                    0xb397 => Ok(Codec::Skein1024440),
                                    0xb398 => Ok(Codec::Skein1024448),
                                    0xb399 => Ok(Codec::Skein1024456),
                                    0xb39a => Ok(Codec::Skein1024464),
                                    0xb39b => Ok(Codec::Skein1024472),
                                    _ => Err(TryFromCodeError { number }),
                                }
                            } else {
                                match number {
                                    0xb39c => Ok(Codec::Skein1024480),
                                    0xb39d => Ok(Codec::Skein1024488),
                                    0xb39e => Ok(Codec::Skein1024496),
                                    0xb39f => Ok(Codec::Skein1024504),
                                    0xb3a0 => Ok(Codec::Skein1024512),
                                    0xb3a1 => Ok(Codec::Skein1024520),
                                    0xb3a2 => Ok(Codec::Skein1024528),
                                    0xb3a3 => Ok(Codec::Skein1024536),
                                    _ => Err(TryFromCodeError { number }),
                                }
                            }
                        } else {
                            if number < 0xb3ac {
                                match number {
                                    0xb3a4 => Ok(Codec::Skein1024544),
                                    0xb3a5 => Ok(Codec::Skein1024552),
                                    0xb3a6 => Ok(Codec::Skein1024560),
                                    0xb3a7 => Ok(Codec::Skein1024568),
                                    0xb3a8 => Ok(Codec::Skein1024576),
                                    0xb3a9 => Ok(Codec::Skein1024584),
                                    0xb3aa => Ok(Codec::Skein1024592),
                                    0xb3ab => Ok(Codec::Skein1024600),
                                    _ => Err(TryFromCodeError { number }),
                                }
                            } else {
                                match number {
                                    0xb3ac => Ok(Codec::Skein1024608),
                                    0xb3ad => Ok(Codec::Skein1024616),
                                    0xb3ae => Ok(Codec::Skein1024624),
                                    0xb3af => Ok(Codec::Skein1024632),
                                    0xb3b0 => Ok(Codec::Skein1024640),
                                    0xb3b1 => Ok(Codec::Skein1024648),
                                    0xb3b2 => Ok(Codec::Skein1024656),
                                    0xb3b3 => Ok(Codec::Skein1024664),
                                    _ => Err(TryFromCodeError { number }),
                                }
                            }
                        }
                    }
                } else {
                    if number < 0xb3d3 {
                        if number < 0xb3c3 {
                            if number < 0xb3bb {
                                match number {
                                    0xb3b4 => Ok(Codec::Skein1024672),
                                    0xb3b5 => Ok(Codec::Skein1024680),
                                    0xb3b6 => Ok(Codec::Skein1024688),
                                    0xb3b7 => Ok(Codec::Skein1024696),
                                    0xb3b8 => Ok(Codec::Skein1024704),
                                    0xb3b9 => Ok(Codec::Skein1024712),
                                    0xb3ba => Ok(Codec::Skein1024720),
                                    _ => Err(TryFromCodeError { number }),
                                }
                            } else {
                                match number {
                                    0xb3bb => Ok(Codec::Skein1024728),
                                    0xb3bc => Ok(Codec::Skein1024736),
                                    0xb3bd => Ok(Codec::Skein1024744),
                                    0xb3be => Ok(Codec::Skein1024752),
                                    0xb3bf => Ok(Codec::Skein1024760),
                                    0xb3c0 => Ok(Codec::Skein1024768),
                                    0xb3c1 => Ok(Codec::Skein1024776),
                                    0xb3c2 => Ok(Codec::Skein1024784),
                                    _ => Err(TryFromCodeError { number }),
                                }
                            }
                        } else {
                            if number < 0xb3cb {
                                match number {
                                    0xb3c3 => Ok(Codec::Skein1024792),
                                    0xb3c4 => Ok(Codec::Skein1024800),
                                    0xb3c5 => Ok(Codec::Skein1024808),
                                    0xb3c6 => Ok(Codec::Skein1024816),
                                    0xb3c7 => Ok(Codec::Skein1024824),
                                    0xb3c8 => Ok(Codec::Skein1024832),
                                    0xb3c9 => Ok(Codec::Skein1024840),
                                    0xb3ca => Ok(Codec::Skein1024848),
                                    _ => Err(TryFromCodeError { number }),
                                }
                            } else {
                                match number {
                                    0xb3cb => Ok(Codec::Skein1024856),
                                    0xb3cc => Ok(Codec::Skein1024864),
                                    0xb3cd => Ok(Codec::Skein1024872),
                                    0xb3ce => Ok(Codec::Skein1024880),
                                    0xb3cf => Ok(Codec::Skein1024888),
                                    0xb3d0 => Ok(Codec::Skein1024896),
                                    0xb3d1 => Ok(Codec::Skein1024904),
                                    0xb3d2 => Ok(Codec::Skein1024912),
                                    _ => Err(TryFromCodeError { number }),
                                }
                            }
                        }
                    } else {
                        if number < 0xb402 {
                            if number < 0xb3da {
                                match number {
                                    0xb3d3 => Ok(Codec::Skein1024920),
                                    0xb3d4 => Ok(Codec::Skein1024928),
                                    0xb3d5 => Ok(Codec::Skein1024936),
                                    0xb3d6 => Ok(Codec::Skein1024944),
                                    0xb3d7 => Ok(Codec::Skein1024952),
                                    0xb3d8 => Ok(Codec::Skein1024960),
                                    0xb3d9 => Ok(Codec::Skein1024968),
                                    _ => Err(TryFromCodeError { number }),
                                }
                            } else {
                                match number {
                                    0xb3da => Ok(Codec::Skein1024976),
                                    0xb3db => Ok(Codec::Skein1024984),
                                    0xb3dc => Ok(Codec::Skein1024992),
                                    0xb3dd => Ok(Codec::Skein10241000),
                                    0xb3de => Ok(Codec::Skein10241008),
                                    0xb3df => Ok(Codec::Skein10241016),
                                    0xb3e0 => Ok(Codec::Skein10241024),
                                    0xb401 => Ok(Codec::PoseidonBls12_381A2Fc1),
                                    _ => Err(TryFromCodeError { number }),
                                }
                            }
                        } else {
                            if number < 0x947124 {
                                match number {
                                    0xb402 => Ok(Codec::PoseidonBls12_381A2Fc1Sc),
                                    0xcc01 => Ok(Codec::Iscc),
                                    0xce11 => Ok(Codec::ZeroxcertImprint256),
                                    0xf101 => Ok(Codec::FilCommitmentUnsealed),
                                    0xf102 => Ok(Codec::FilCommitmentSealed),
                                    0x706c61 => Ok(Codec::Plaintextv2),
                                    0x807124 => Ok(Codec::HolochainAdrV0),
                                    0x817124 => Ok(Codec::HolochainAdrV1),
                                    _ => Err(TryFromCodeError { number }),
                                }
                            } else {
                                match number {
                                    0x947124 => Ok(Codec::HolochainKeyV0),
                                    0x957124 => Ok(Codec::HolochainKeyV1),
                                    0xa27124 => Ok(Codec::HolochainSigV0),
                                    0xa37124 => Ok(Codec::HolochainSigV1),
                                    0xb19910 => Ok(Codec::SkynetNs),
                                    0xb29910 => Ok(Codec::ArweaveNs),
                                    0xb39910 => Ok(Codec::SubspaceNs),
                                    0xb49910 => Ok(Codec::KumandraNs),
                                    _ => Err(TryFromCodeError { number }),
                                }
                            }
                        }
                    }
                }
            }
        }
    }
}

/// Every codec is read back from its number.
pub proof fn lemma_code_roundtrip(c: Codec)
    ensures
        codec_of(codec_code(c)) == Some(c),
{
    match c {
        Codec::Identity => {},
        Codec::Cidv1 => {},
        Codec::Cidv2 => {},
        Codec::Cidv3 => {},
        Codec::Ip4 => {},
        Codec::Tcp => {},
        Codec::Sha1 => {},
        Codec::Sha2256 => {},
        Codec::Sha2512 => {},
        Codec::Sha3512 => {},
        Codec::Sha3384 => {},
        Codec::Sha3256 => {},
        Codec::Sha3224 => {},
        Codec::Shake128 => {},
        Codec::Shake256 => {},
        Codec::Keccak224 => {},
        Codec::Keccak256 => {},
        Codec::Keccak384 => {},
        Codec::Keccak512 => {},
        Codec::Blake3 => {},
        Codec::Sha2384 => {},
        Codec::Dccp => {},
        Codec::Murmur3X6464 => {},
        Codec::Murmur332 => {},
        Codec::Ip6 => {},
        Codec::Ip6zone => {},
        Codec::Path => {},
        Codec::Multicodec => {},
        Codec::Multihash => {},
        Codec::Multiaddr => {},
        Codec::Multibase => {},
        Codec::Dns => {},
        Codec::Dns4 => {},
        Codec::Dns6 => {},
        Codec::Dnsaddr => {},
        Codec::Protobuf => {},
        Codec::Cbor => {},
        Codec::Raw => {},
        Codec::DblSha2256 => {},
        Codec::Rlp => {},
        Codec::Bencode => {},
        Codec::DagPb => {},
        Codec::DagCbor => {},
        Codec::Libp2pKey => {},
        Codec::GitRaw => {},
        Codec::TorrentInfo => {},
        Codec::TorrentFile => {},
        Codec::LeofcoinBlock => {},
        Codec::LeofcoinTx => {},
        Codec::LeofcoinPr => {},
        Codec::Sctp => {},
        Codec::DagJose => {},
        Codec::DagCose => {},
        Codec::EthBlock => {},
        Codec::EthBlockList => {},
        Codec::EthTxTrie => {},
        Codec::EthTx => {},
        Codec::EthTxReceiptTrie => {},
        Codec::EthTxReceipt => {},
        Codec::EthStateTrie => {},
        Codec::EthAccountSnapshot => {},
        Codec::EthStorageTrie => {},
        Codec::EthReceiptLogTrie => {},
        Codec::EthRecieptLog => {},
        Codec::Aes128 => {},
        Codec::Aes192 => {},
        Codec::Aes256 => {},
        Codec::Chacha128 => {},
        Codec::Chacha256 => {},
        Codec::BitcoinBlock => {},
        Codec::BitcoinTx => {},
        Codec::BitcoinWitnessCommitment => {},
        Codec::ZcashBlock => {},
        Codec::ZcashTx => {},
        Codec::Caip50 => {},
        Codec::Streamid => {},
        Codec::StellarBlock => {},
        Codec::StellarTx => {},
        Codec::Md4 => {},
        Codec::Md5 => {},
        Codec::Bmt => {},
        Codec::DecredBlock => {},
        Codec::DecredTx => {},
        Codec::IpldNs => {},
        Codec::IpfsNs => {},
        Codec::SwarmNs => {},
        Codec::IpnsNs => {},
        Codec::Zeronet => {},
        Codec::Secp256k1Pub => {},
        Codec::Bls12_381G1Pub => {},
        Codec::Bls12_381G2Pub => {},
        Codec::X25519Pub => {},
        Codec::Ed25519Pub => {},
        Codec::Bls12_381G1g2Pub => {},
        Codec::DashBlock => {},
        Codec::DashTx => {},
        Codec::SwarmManifest => {},
        Codec::SwarmFeed => {},
        Codec::Udp => {},
        Codec::P2pWebrtcStar => {},
        Codec::P2pWebrtcDirect => {},
        Codec::P2pStardust => {},
        Codec::P2pCircuit => {},
        Codec::DagJson => {},
        Codec::Udt => {},
        Codec::Utp => {},
        Codec::Unix => {},
        Codec::Thread => {},
        Codec::P2p => {},
        Codec::Https => {},
        Codec::Onion => {},
        Codec::Onion3 => {},
        Codec::Garlic64 => {},
        Codec::Garlic32 => {},
        Codec::Tls => {},
        Codec::Noise => {},
        Codec::Quic => {},
        Codec::Webtransport => {},
        Codec::Ws => {},
        Codec::Wss => {},
        Codec::P2pWebsocketStar => {},
        Codec::Http => {},
        Codec::Swhid1Snp => {},
        Codec::Json => {},
        Codec::Messagepack => {},
        Codec::Car => {},
        Codec::Libp2pPeerRecord => {},
        Codec::Libp2pRelayRsvp => {},
        Codec::CarIndexSorted => {},
        Codec::CarMultihashIndexSorted => {},
        Codec::TransportBitswap => {},
        Codec::TransportGraphsyncFilecoinv1 => {},
        Codec::Sha2256Trunc254Padded => {},
        Codec::Sha2224 => {},
        Codec::Sha2512224 => {},
        Codec::Sha2512256 => {},
        Codec::Murmur3X64128 => {},
        Codec::Ripemd128 => {},
        Codec::Ripemd160 => {},
        Codec::Ripemd256 => {},
        Codec::Ripemd320 => {},
        Codec::X11 => {},
        Codec::P256Pub => {},
        Codec::P384Pub => {},
        Codec::P521Pub => {},
        Codec::Ed448Pub => {},
        Codec::X448Pub => {},
        Codec::RsaPub => {},
        Codec::Ed25519Priv => {},
        Codec::Secp256k1Priv => {},
        Codec::X25519Priv => {},
        Codec::Kangarootwelve => {},
        Codec::Sm3256 => {},
        Codec::Blake2b8 => {},
        Codec::Blake2b16 => {},
        Codec::Blake2b24 => {},
        Codec::Blake2b32 => {},
        Codec::Blake2b40 => {},
        Codec::Blake2b48 => {},
        Codec::Blake2b56 => {},
        Codec::Blake2b64 => {},
        Codec::Blake2b72 => {},
        Codec::Blake2b80 => {},
        Codec::Blake2b88 => {},
        Codec::Blake2b96 => {},
        Codec::Blake2b104 => {},
        Codec::Blake2b112 => {},
        Codec::Blake2b120 => {},
        Codec::Blake2b128 => {},
        Codec::Blake2b136 => {},
        Codec::Blake2b144 => {},
        Codec::Blake2b152 => {},
        Codec::Blake2b160 => {},
        Codec::Blake2b168 => {},
        Codec::Blake2b176 => {},
        Codec::Blake2b184 => {},
        Codec::Blake2b192 => {},
        Codec::Blake2b200 => {},
        Codec::Blake2b208 => {},
        Codec::Blake2b216 => {},
        Codec::Blake2b224 => {},
        Codec::Blake2b232 => {},
        Codec::Blake2b240 => {},
        Codec::Blake2b248 => {},
        Codec::Blake2b256 => {},
        Codec::Blake2b264 => {},
        Codec::Blake2b272 => {},
        Codec::Blake2b280 => {},
        Codec::Blake2b288 => {},
        Codec::Blake2b296 => {},
        Codec::Blake2b304 => {},
        Codec::Blake2b312 => {},
        Codec::Blake2b320 => {},
        Codec::Blake2b328 => {},
        Codec::Blake2b336 => {},
        Codec::Blake2b344 => {},
        Codec::Blake2b352 => {},
        Codec::Blake2b360 => {},
        Codec::Blake2b368 => {},
        Codec::Blake2b376 => {},
        Codec::Blake2b384 => {},
        Codec::Blake2b392 => {},
        Codec::Blake2b400 => {},
        Codec::Blake2b408 => {},
        Codec::Blake2b416 => {},
        Codec::Blake2b424 => {},
        Codec::Blake2b432 => {},
        Codec::Blake2b440 => {},
        Codec::Blake2b448 => {},
        Codec::Blake2b456 => {},
        Codec::Blake2b464 => {},
        Codec::Blake2b472 => {},
        Codec::Blake2b480 => {},
        Codec::Blake2b488 => {},
        Codec::Blake2b496 => {},
        Codec::Blake2b504 => {},
        Codec::Blake2b512 => {},
        Codec::Blake2s8 => {},
        Codec::Blake2s16 => {},
        Codec::Blake2s24 => {},
        Codec::Blake2s32 => {},
        Codec::Blake2s40 => {},
        Codec::Blake2s48 => {},
        Codec::Blake2s56 => {},
        Codec::Blake2s64 => {},
        Codec::Blake2s72 => {},
        Codec::Blake2s80 => {},
        Codec::Blake2s88 => {},
        Codec::Blake2s96 => {},
        Codec::Blake2s104 => {},
        Codec::Blake2s112 => {},
        Codec::Blake2s120 => {},
        Codec::Blake2s128 => {},
        Codec::Blake2s136 => {},
        Codec::Blake2s144 => {},
        Codec::Blake2s152 => {},
        Codec::Blake2s160 => {},
        Codec::Blake2s168 => {},
        Codec::Blake2s176 => {},
        Codec::Blake2s184 => {},
        Codec::Blake2s192 => {},
        Codec::Blake2s200 => {},
        Codec::Blake2s208 => {},
        Codec::Blake2s216 => {},
        Codec::Blake2s224 => {},
        Codec::Blake2s232 => {},
        Codec::Blake2s240 => {},
        Codec::Blake2s248 => {},
        Codec::Blake2s256 => {},
        Codec::Skein2568 => {},
        Codec::Skein25616 => {},
        Codec::Skein25624 => {},
        Codec::Skein25632 => {},
        Codec::Skein25640 => {},
        Codec::Skein25648 => {},
        Codec::Skein25656 => {},
        Codec::Skein25664 => {},
        Codec::Skein25672 => {},
        Codec::Skein25680 => {},
        Codec::Skein25688 => {},
        Codec::Skein25696 => {},
        Codec::Skein256104 => {},
        Codec::Skein256112 => {},
        Codec::Skein256120 => {},
        Codec::Skein256128 => {},
        Codec::Skein256136 => {},
        Codec::Skein256144 => {},
        Codec::Skein256152 => {},
        Codec::Skein256160 => {},
        Codec::Skein256168 => {},
        Codec::Skein256176 => {},
        Codec::Skein256184 => {},
        Codec::Skein256192 => {},
        Codec::Skein256200 => {},
        Codec::Skein256208 => {},
        Codec::Skein256216 => {},
        Codec::Skein256224 => {},
        Codec::Skein256232 => {},
        Codec::Skein256240 => {},
        Codec::Skein256248 => {},
        Codec::Skein256256 => {},
        Codec::Skein5128 => {},
        Codec::Skein51216 => {},
        Codec::Skein51224 => {},
        Codec::Skein51232 => {},
        Codec::Skein51240 => {},
        Codec::Skein51248 => {},
        Codec::Skein51256 => {},
        Codec::Skein51264 => {},
        Codec::Skein51272 => {},
        Codec::Skein51280 => {},
        Codec::Skein51288 => {},
        Codec::Skein51296 => {},
        Codec::Skein512104 => {},
        Codec::Skein512112 => {},
        Codec::Skein512120 => {},
        Codec::Skein512128 => {},
        Codec::Skein512136 => {},
        Codec::Skein512144 => {},
        Codec::Skein512152 => {},
        Codec::Skein512160 => {},
        Codec::Skein512168 => {},
        Codec::Skein512176 => {},
        Codec::Skein512184 => {},
        Codec::Skein512192 => {},
        Codec::Skein512200 => {},
        Codec::Skein512208 => {},
        Codec::Skein512216 => {},
        Codec::Skein512224 => {},
        Codec::Skein512232 => {},
        Codec::Skein512240 => {},
        Codec::Skein512248 => {},
        Codec::Skein512256 => {},
        Codec::Skein512264 => {},
        Codec::Skein512272 => {},
        Codec::Skein512280 => {},
        Codec::Skein512288 => {},
        Codec::Skein512296 => {},
        Codec::Skein512304 => {},
        Codec::Skein512312 => {},
        Codec::Skein512320 => {},
        Codec::Skein512328 => {},
        Codec::Skein512336 => {},
        Codec::Skein512344 => {},
        Codec::Skein512352 => {},
        Codec::Skein512360 => {},
        Codec::Skein512368 => {},
        Codec::Skein512376 => {},
        Codec::Skein512384 => {},
        Codec::Skein512392 => {},
        Codec::Skein512400 => {},
        Codec::Skein512408 => {},
        Codec::Skein512416 => {},
        Codec::Skein512424 => {},
        Codec::Skein512432 => {},
        Codec::Skein512440 => {},
        Codec::Skein512448 => {},
        Codec::Skein512456 => {},
        Codec::Skein512464 => {},
        Codec::Skein512472 => {},
        Codec::Skein512480 => {},
        Codec::Skein512488 => {},
        Codec::Skein512496 => {},
        Codec::Skein512504 => {},
        Codec::Skein512512 => {},
        Codec::Skein10248 => {},
        Codec::Skein102416 => {},
        Codec::Skein102424 => {},
        Codec::Skein102432 => {},
        Codec::Skein102440 => {},
        Codec::Skein102448 => {},
        Codec::Skein102456 => {},
        Codec::Skein102464 => {},
        Codec::Skein102472 => {},
        Codec::Skein102480 => {},
        Codec::Skein102488 => {},
        Codec::Skein102496 => {},
        Codec::Skein1024104 => {},
        Codec::Skein1024112 => {},
        Codec::Skein1024120 => {},
        Codec::Skein1024128 => {},
        Codec::Skein1024136 => {},
        Codec::Skein1024144 => {},
        Codec::Skein1024152 => {},
        Codec::Skein1024160 => {},
        Codec::Skein1024168 => {},
        Codec::Skein1024176 => {},
        Codec::Skein1024184 => {},
        Codec::Skein1024192 => {},
        Codec::Skein1024200 => {},
        Codec::Skein1024208 => {},
        Codec::Skein1024216 => {},
        Codec::Skein1024224 => {},
        Codec::Skein1024232 => {},
        Codec::Skein1024240 => {},
        Codec::Skein1024248 => {},
        Codec::Skein1024256 => {},
        Codec::Skein1024264 => {},
        Codec::Skein1024272 => {},
        Codec::Skein1024280 => {},
        Codec::Skein1024288 => {},
        Codec::Skein1024296 => {},
        Codec::Skein1024304 => {},
        Codec::Skein1024312 => {},
        Codec::Skein1024320 => {},
        Codec::Skein1024328 => {},
        Codec::Skein1024336 => {},
        Codec::Skein1024344 => {},
        Codec::Skein1024352 => {},
        Codec::Skein1024360 => {},
        Codec::Skein1024368 => {},
        Codec::Skein1024376 => {},
        Codec::Skein1024384 => {},
        Codec::Skein1024392 => {},
        Codec::Skein1024400 => {},
        Codec::Skein1024408 => {},
        Codec::Skein1024416 => {},
        Codec::Skein1024424 => {},
        Codec::Skein1024432 => {},
        Codec::Skein1024440 => {},
        Codec::Skein1024448 => {},
        Codec::Skein1024456 => {},
        Codec::Skein1024464 => {},
        Codec::Skein1024472 => {},
        Codec::Skein1024480 => {},
        Codec::Skein1024488 => {},
        Codec::Skein1024496 => {},
        Codec::Skein1024504 => {},
        Codec::Skein1024512 => {},
        Codec::Skein1024520 => {},
        Codec::Skein1024528 => {},
        Codec::Skein1024536 => {},
        Codec::Skein1024544 => {},
        Codec::Skein1024552 => {},
        Codec::Skein1024560 => {},
        Codec::Skein1024568 => {},
        Codec::Skein1024576 => {},
        Codec::Skein1024584 => {},
        Codec::Skein1024592 => {},
        Codec::Skein1024600 => {},
        Codec::Skein1024608 => {},
        Codec::Skein1024616 => {},
        Codec::Skein1024624 => {},
        Codec::Skein1024632 => {},
        Codec::Skein1024640 => {},
        Codec::Skein1024648 => {},
        Codec::Skein1024656 => {},
        Codec::Skein1024664 => {},
        Codec::Skein1024672 => {},
        Codec::Skein1024680 => {},
        Codec::Skein1024688 => {},
        Codec::Skein1024696 => {},
        Codec::Skein1024704 => {},
        Codec::Skein1024712 => {},
        Codec::Skein1024720 => {},
        Codec::Skein1024728 => {},
        Codec::Skein1024736 => {},
        Codec::Skein1024744 => {},
        Codec::Skein1024752 => {},
        Codec::Skein1024760 => {},
        Codec::Skein1024768 => {},
        Codec::Skein1024776 => {},
        Codec::Skein1024784 => {},
        Codec::Skein1024792 => {},
        Codec::Skein1024800 => {},
        Codec::Skein1024808 => {},
        Codec::Skein1024816 => {},
        Codec::Skein1024824 => {},
        Codec::Skein1024832 => {},
        Codec::Skein1024840 => {},
        Codec::Skein1024848 => {},
        Codec::Skein1024856 => {},
        Codec::Skein1024864 => {},
        Codec::Skein1024872 => {},
        Codec::Skein1024880 => {},
        Codec::Skein1024888 => {},
        Codec::Skein1024896 => {},
        Codec::Skein1024904 => {},
        Codec::Skein1024912 => {},
        Codec::Skein1024920 => {},
        Codec::Skein1024928 => {},
        Codec::Skein1024936 => {},
        Codec::Skein1024944 => {},
        Codec::Skein1024952 => {},
        Codec::Skein1024960 => {},
        Codec::Skein1024968 => {},
        Codec::Skein1024976 => {},
        Codec::Skein1024984 => {},
        Codec::Skein1024992 => {},
        Codec::Skein10241000 => {},
        Codec::Skein10241008 => {},
        Codec::Skein10241016 => {},
        Codec::Skein10241024 => {},
        Codec::PoseidonBls12_381A2Fc1 => {},
        Codec::PoseidonBls12_381A2Fc1Sc => {},
        Codec::Iscc => {},
        Codec::ZeroxcertImprint256 => {},
        Codec::FilCommitmentUnsealed => {},
        Codec::FilCommitmentSealed => {},
        Codec::Plaintextv2 => {},
        Codec::HolochainAdrV0 => {},
        Codec::HolochainAdrV1 => {},
        Codec::HolochainKeyV0 => {},
        Codec::HolochainKeyV1 => {},
        Codec::HolochainSigV0 => {},
        Codec::HolochainSigV1 => {},
        Codec::SkynetNs => {},
        Codec::ArweaveNs => {},
        Codec::SubspaceNs => {},
        Codec::KumandraNs => {},
    }
}

/// A number read as a codec is that codec's number.
#[verifier::rlimit(100)]
pub proof fn lemma_code_of_inverse(n: u64)
    ensures
        codec_of(n) matches Some(c) ==> codec_code(c) == n,
{
    if n < 0xb25d {
        if n < 0x1f0 {
            if n < 0x98 {
                if n < 0x33 {
                    if n < 0x1a {
                        if n < 0x12 {
                            match n {
                                0x0 => {},
                                0x1 => {},
                                0x2 => {},
                                0x3 => {},
                                0x4 => {},
                                0x6 => {},
                                0x11 => {},
                                _ => {},
                            }
                        } else {
                            match n {
                                0x12 => {},
                                0x13 => {},
                                0x14 => {},
                                0x15 => {},
                                0x16 => {},
                                0x17 => {},
                                0x18 => {},
                                0x19 => {},
                                _ => {},
                            }
                        }
                    } else {
                        if n < 0x22 {
                            match n {
                                0x1a => {},
                                0x1b => {},
                                0x1c => {},
                                0x1d => {},
                                0x1e => {},
                                0x20 => {},
                                0x21 => {},
                                _ => {},
                            }
                        } else {
                            match n {
                                0x22 => {},
                                0x23 => {},
                                0x29 => {},
                                0x2a => {},
                                0x2f => {},
                                0x30 => {},
                                0x31 => {},
                                0x32 => {},
                                _ => {},
                            }
                        }
                    }
                } else {
                    if n < 0x7b {
                        if n < 0x55 {
                            match n {
                                0x33 => {},
                                0x35 => {},
                                0x36 => {},
                                0x37 => {},
                                0x38 => {},
                                0x50 => {},
                                0x51 => {},
                                _ => {},
                            }
                        } else {
                            match n {
                                0x55 => {},
                                0x56 => {},
                                0x60 => {},
                                0x63 => {},
                                0x70 => {},
                                0x71 => {},
                                0x72 => {},
                                0x78 => {},
                                _ => {},
                            }
                        }
                    } else {
                        if n < 0x90 {
                            match n {
                                0x7b => {},
                                0x7c => {},
                                0x81 => {},
                                0x82 => {},
                                0x83 => {},
                                0x84 => {},
                                0x85 => {},
                                0x86 => {},
                                _ => {},
                            }
                        } else {
                            match n {
                                0x90 => {},
                                0x91 => {},
                                0x92 => {},
                                0x93 => {},
                                0x94 => {},
                                0x95 => {},
                                0x96 => {},
                                0x97 => {},
                                _ => {},
                            }
                        }
                    }
                }
            } else {
                if n < 0xec {
                    if n < 0xd0 {
                        if n < 0xa4 {
                            match n {
                                0x98 => {},
                                0x99 => {},
                                0x9a => {},
                                0xa0 => {},
                                0xa1 => {},
                                0xa2 => {},
                                0xa3 => {},
                                _ => {},
                            }
                        } else {
                            match n {
                                0xa4 => {},
                                0xb0 => {},
                                0xb1 => {},
                                0xb2 => {},
                                0xc0 => {},
                                0xc1 => {},
                                0xca => {},
                                0xce => {},
                                _ => {},
                            }
                        }
                    } else {
                        if n < 0xe2 {
                            match n {
                                0xd0 => {},
                                0xd1 => {},
                                0xd4 => {},
                                0xd5 => {},
                                0xd6 => {},
                                0xe0 => {},
                                0xe1 => {},
                                _ => {},
                            }
                        } else {
                            match n {
                                0xe2 => {},
                                0xe3 => {},
                                0xe4 => {},
                                0xe5 => {},
                                0xe6 => {},
                                0xe7 => {},
                                0xea => {},
                                0xeb => {},
                                _ => {},
                            }
                        }
                    }
                } else {
                    if n < 0x190 {
                        if n < 0x111 {
                            match n {
                                0xec => {},
                                0xed => {},
                                0xee => {},
                                0xf0 => {},
                                0xf1 => {},
                                0xfa => {},
                                0xfb => {},
                                _ => {},
                            }
                        } else {
                            match n {
                                0x111 => {},
                                0x113 => {},
                                0x114 => {},
                                0x115 => {},
                                0x122 => {},
                                0x129 => {},
                                0x12d => {},
                                0x12e => {},
                                _ => {},
                            }
                        }
                    } else {
                        if n < 0x1c0 {
                            match n {
                                0x190 => {},
                                0x196 => {},
                                0x1a5 => {},
                                0x1bb => {},
                                0x1bc => {},
                                0x1bd => {},
                                0x1be => {},
                                0x1bf => {},
                                _ => {},
                            }
                        } else {
                            match n {
                                0x1c0 => {},
                                0x1c6 => {},
                                0x1cc => {},
                                0x1d1 => {},
                                0x1dd => {},
                                0x1de => {},
                                0x1df => {},
                                0x1e0 => {},
                                _ => {},
                            }
                        }
                    }
                }
            }
        } else {
            if n < 0xb21f {
                if n < 0x534d {
                    if n < 0x1052 {
                        if n < 0x401 {
                            match n {
                                0x1f0 => {},
                                0x200 => {},
                                0x201 => {},
                                0x202 => {},
                                0x301 => {},
                                0x302 => {},
                                0x400 => {},
                                _ => {},
                            }
                        } else {
                            match n {
                                0x401 => {},
                                0x900 => {},
                                0x910 => {},
                                0x1012 => {},
                                0x1013 => {},
                                0x1014 => {},
                                0x1015 => {},
                                0x1022 => {},
                                _ => {},
                            }
                        }
                    } else {
                        if n < 0x1202 {
                            match n {
                                0x1052 => {},
                                0x1053 => {},
                                0x1054 => {},
                                0x1055 => {},
                                0x1100 => {},
                                0x1200 => {},
                                0x1201 => {},
                                _ => {},
                            }
                        } else {
                            match n {
                                0x1202 => {},
                                0x1203 => {},
                                0x1204 => {},
                                0x1205 => {},
                                0x1300 => {},
                                0x1301 => {},
                                0x1302 => {},
                                0x1d01 => {},
                                _ => {},
                            }
                        }
                    }
                } else {
                    if n < 0xb20f {
                        if n < 0xb207 {
                            match n {
                                0x534d => {},
                                0xb201 => {},
                                0xb202 => {},
                                0xb203 => {},
                                0xb204 => {},
                                0xb205 => {},
                                0xb206 => {},
                                _ => {},
                            }
                        } else {
                            match n {
                                0xb207 => {},
                                0xb208 => {},
                                0xb209 => {},
                                0xb20a => {},
                                0xb20b => {},
                                0xb20c => {},
                                0xb20d => {},
                                0xb20e => {},
                                _ => {},
                            }
                        }
                    } else {
                        if n < 0xb217 {
                            match n {
                                0xb20f => {},
                                0xb210 => {},
                                0xb211 => {},
                                0xb212 => {},
                                0xb213 => {},
                                0xb214 => {},
                                0xb215 => {},
                                0xb216 => {},
                                _ => {},
                            }
                        } else {
                            match n {
                                0xb217 => {},
                                0xb218 => {},
                                0xb219 => {},
                                0xb21a => {},
                                0xb21b => {},
                                0xb21c => {},
                                0xb21d => {},
                                0xb21e => {},
                                _ => {},
                            }
                        }
                    }
                }
            } else {
                if n < 0xb23e {
                    if n < 0xb22e {
                        if n < 0xb226 {
                            match n {
                                0xb21f => {},
                                0xb220 => {},
                                0xb221 => {},
                                0xb222 => {},
                                0xb223 => {},
                                0xb224 => {},
                                0xb225 => {},
                                _ => {},
                            }
                        } else {
                            match n {
                                0xb226 => {},
                                0xb227 => {},
                                0xb228 => {},
                                0xb229 => {},
                                0xb22a => {},
                                0xb22b => {},
                                0xb22c => {},
                                0xb22d => {},
                                _ => {},
                            }
                        }
                    } else {
                        if n < 0xb236 {
                            match n {
                                0xb22e => {},
                                0xb22f => {},
                                0xb230 => {},
                                0xb231 => {},
                                0xb232 => {},
                                0xb233 => {},
                                0xb234 => {},
                                0xb235 => {},
                                _ => {},
                            }
                        } else {
                            match n {
                                0xb236 => {},
                                0xb237 => {},
                                0xb238 => {},
                                0xb239 => {},
                                0xb23a => {},
                                0xb23b => {},
                                0xb23c => {},
                                0xb23d => {},
                                _ => {},
                            }
                        }
                    }
                } else {
                    if n < 0xb24d {
                        if n < 0xb245 {
                            match n {
                                0xb23e => {},
                                0xb23f => {},
                                0xb240 => {},
                                0xb241 => {},
                                0xb242 => {},
                                0xb243 => {},
                                0xb244 => {},
                                _ => {},
                            }
                        } else {
                            match n {
                                0xb245 => {},
                                0xb246 => {},
                                0xb247 => {},
                                0xb248 => {},
                                0xb249 => {},
                                0xb24a => {},
                                0xb24b => {},
                                0xb24c => {},
                                _ => {},
                            }
                        }
                    } else {
                        if n < 0xb255 {
                            match n {
                                0xb24d => {},
                                0xb24e => {},
                                0xb24f => {},
                                0xb250 => {},
                                0xb251 => {},
                                0xb252 => {},
                                0xb253 => {},
                                0xb254 => {},
                                _ => {},
                            }
                        } else {
                            match n {
                                0xb255 => {},
                                0xb256 => {},
                                0xb257 => {},
                                0xb258 => {},
                                0xb259 => {},
                                0xb25a => {},
                                0xb25b => {},
                                0xb25c => {},
                                _ => {},
                            }
                        }
                    }
                }
            }
        }
    } else {
        if n < 0xb377 {
            if n < 0xb33a {
                if n < 0xb31b {
                    if n < 0xb30c {
                        if n < 0xb304 {
                            match n {
                                0xb25d => {},
                                0xb25e => {},
                                0xb25f => {},
                                0xb260 => {},
                                0xb301 => {},
                                0xb302 => {},
                                0xb303 => {},
                                _ => {},
                            }
                        } else {
                            match n {
                                0xb304 => {},
                                0xb305 => {},
                                0xb306 => {},
                                0xb307 => {},
                                0xb308 => {},
                                0xb309 => {},
                                0xb30a => {},
                                0xb30b => {},
                                _ => {},
                            }
                        }
                    } else {
                        if n < 0xb313 {
                            match n {
                                0xb30c => {},
                                0xb30d => {},
                                0xb30e => {},
                                0xb30f => {},
                                0xb310 => {},
                                0xb311 => {},
                                0xb312 => {},
                                _ => {},
                            }
                        } else {
                            match n {
                                0xb313 => {},
                                0xb314 => {},
                                0xb315 => {},
                                0xb316 => {},
                                0xb317 => {},
                                0xb318 => {},
                                0xb319 => {},
                                0xb31a => {},
                                _ => {},
                            }
                        }
                    }
                } else {
                    if n < 0xb32a {
                        if n < 0xb322 {
                            match n {
                                0xb31b => {},
                                0xb31c => {},
                                0xb31d => {},
                                0xb31e => {},
                                0xb31f => {},
                                0xb320 => {},
                                0xb321 => {},
                                _ => {},
                            }
                        } else {
                            match n {
                                0xb322 => {},
                                0xb323 => {},
                                0xb324 => {},
                                0xb325 => {},
                                0xb326 => {},
                                0xb327 => {},
                                0xb328 => {},
                                0xb329 => {},
                                _ => {},
                            }
                        }
                    } else {
                        if n < 0xb332 {
                            match n {
                                0xb32a => {},
                                0xb32b => {},
                                0xb32c => {},
                                0xb32d => {},
                                0xb32e => {},
                                0xb32f => {},
                                0xb330 => {},
                                0xb331 => {},
                                _ => {},
                            }
                        } else {
                            match n {
                                0xb332 => {},
                                0xb333 => {},
                                0xb334 => {},
                                0xb335 => {},
                                0xb336 => {},
                                0xb337 => {},
                                0xb338 => {},
                                0xb339 => {},
                                _ => {},
                            }
                        }
                    }
                }
            } else {
                if n < 0xb358 {
                    if n < 0xb349 {
                        if n < 0xb341 {
                            match n {
                                0xb33a => {},
                                0xb33b => {},
                                0xb33c => {},
                                0xb33d => {},
                                0xb33e => {},
                                0xb33f => {},
                                0xb340 => {},
                                _ => {},
                            }
                        } else {
                            match n {
                                0xb341 => {},
                                0xb342 => {},
                                0xb343 => {},
                                0xb344 => {},
                                0xb345 => {},
                                0xb346 => {},
                                0xb347 => {},
                                0xb348 => {},
                                _ => {},
                            }
                        }
                    } else {
                        if n < 0xb350 {
                            match n {
                                0xb349 => {},
                                0xb34a => {},
                                0xb34b => {},
                                0xb34c => {},
                                0xb34d => {},
                                0xb34e => {},
                                0xb34f => {},
                                _ => {},
                            }
                        } else {
                            match n {
                                0xb350 => {},
                                0xb351 => {},
                                0xb352 => {},
                                0xb353 => {},
                                0xb354 => {},
                                0xb355 => {},
                                0xb356 => {},
                                0xb357 => {},
                                _ => {},
                            }
                        }
                    }
                } else {
                    if n < 0xb367 {
                        if n < 0xb35f {
                            match n {
                                0xb358 => {},
                                0xb359 => {},
                                0xb35a => {},
                                0xb35b => {},
                                0xb35c => {},
                                0xb35d => {},
                                0xb35e => {},
                                _ => {},
                            }
                        } else {
                            match n {
                                0xb35f => {},
                                0xb360 => {},
                                0xb361 => {},
                                0xb362 => {},
                                0xb363 => {},
                                0xb364 => {},
                                0xb365 => {},
                                0xb366 => {},
                                _ => {},
                            }
                        }
                    } else {
                        if n < 0xb36f {
                            match n {
                                0xb367 => {},
                                0xb368 => {},
                                0xb369 => {},
                                0xb36a => {},
                                0xb36b => {},
                                0xb36c => {},
                                0xb36d => {},
                                0xb36e => {},
                                _ => {},
                            }
                        } else {
                            match n {
                                0xb36f => {},
                                0xb370 => {},
                                0xb371 => {},
                                0xb372 => {},
                                0xb373 => {},
                                0xb374 => {},
                                0xb375 => {},
                                0xb376 => {},
                                _ => {},
                            }
                        }
                    }
                }
            }
        } else {
            if n < 0xb3b4 {
                if n < 0xb395 {
                    if n < 0xb386 {
                        if n < 0xb37e {
                            match n {
                                0xb377 => {},
                                0xb378 => {},
                                0xb379 => {},
                                0xb37a => {},
                                0xb37b => {},
                                0xb37c => {},
                                0xb37d => {},
                                _ => {},
                            }
                        } else {
                            match n {
                                0xb37e => {},
                                0xb37f => {},
                                0xb380 => {},
                                0xb381 => {},
                                0xb382 => {},
                                0xb383 => {},
                                0xb384 => {},
                                0xb385 => {},
                                _ => {},
                            }
                        }
                    } else {
                        if n < 0xb38d {
                            match n {
                                0xb386 => {},
                                0xb387 => {},
                                0xb388 => {},
                                0xb389 => {},
                                0xb38a => {},
                                0xb38b => {},
                                0xb38c => {},
                                _ => {},
                            }
                        } else {
                            match n {
                                0xb38d => {},
                                0xb38e => {},
                                0xb38f => {},
                                0xb390 => {},
                                0xb391 => {},
                                0xb392 => {},
                                0xb393 => {},
                                0xb394 => {},
                                _ => {},
                            }
                        }
                    }
                } else {
                    if n < 0xb3a4 {
                        if n < 0xb39c {
                            match n {
                                0xb395 => {},
                                0xb396 => {},
                                0xb397 => {},
                                0xb398 => {},
                                0xb399 => {},
                                0xb39a => {},
                                0xb39b => {},
                                _ => {},
                            }
                        } else {
                            match n {
                                0xb39c => {},
                                0xb39d => {},
                                0xb39e => {},
                                0xb39f => {},
                                0xb3a0 => {},
                                0xb3a1 => {},
                                0xb3a2 => {},
                                0xb3a3 => {},
                                _ => {},
                            }
                        }
                    } else {
                        if n < 0xb3ac {
                            match n {
                                0xb3a4 => {},
                                0xb3a5 => {},
                                0xb3a6 => {},
                                0xb3a7 => {},
                                0xb3a8 => {},
                                0xb3a9 => {},
                                0xb3aa => {},
                                0xb3ab => {},
                                _ => {},
                            }
                        } else {
                            match n {
                                0xb3ac => {},
                                0xb3ad => {},
                                0xb3ae => {},
                                0xb3af => {},
                                0xb3b0 => {},
                                0xb3b1 => {},
                                0xb3b2 => {},
                                0xb3b3 => {},
                                _ => {},
                            }
                        }
                    }
                }
            } else {
                if n < 0xb3d3 {
                    if n < 0xb3c3 {
                        if n < 0xb3bb {
                            match n {
                                0xb3b4 => {},
                                0xb3b5 => {},
                                0xb3b6 => {},
                                0xb3b7 => {},
                                0xb3b8 => {},
                                0xb3b9 => {},
                                0xb3ba => {},
                                _ => {},
                            }
                        } else {
                            match n {
                                0xb3bb => {},
                                0xb3bc => {},
                                0xb3bd => {},
                                0xb3be => {},
                                0xb3bf => {},
                                0xb3c0 => {},
                                0xb3c1 => {},
                                0xb3c2 => {},
                                _ => {},
                            }
                        }
                    } else {
                        if n < 0xb3cb {
                            match n {
                                0xb3c3 => {},
                                0xb3c4 => {},
                                0xb3c5 => {},
                                0xb3c6 => {},
                                0xb3c7 => {},
                                0xb3c8 => {},
                                0xb3c9 => {},
                                0xb3ca => {},
                                _ => {},
                            }
                        } else {
                            match n {
                                0xb3cb => {},
                                0xb3cc => {},
                                0xb3cd => {},
                                0xb3ce => {},
                                0xb3cf => {},
                                0xb3d0 => {},
                                0xb3d1 => {},
                                0xb3d2 => {},
                                _ => {},
                            }
                        }
                    }
                } else {
                    if n < 0xb402 {
                        if n < 0xb3da {
                            match n {
                                0xb3d3 => {},
                                0xb3d4 => {},
                                0xb3d5 => {},
                                0xb3d6 => {},
                                0xb3d7 => {},
                                0xb3d8 => {},
                                0xb3d9 => {},
                                _ => {},
                            }
                        } else {
                            match n {
                                0xb3da => {},
                                0xb3db => {},
                                0xb3dc => {},
                                0xb3dd => {},
                                0xb3de => {},
                                0xb3df => {},
                                0xb3e0 => {},
                                0xb401 => {},
                                _ => {},
                            }
                        }
                    } else {
                        if n < 0x947124 {
                            match n {
                                0xb402 => {},
                                0xcc01 => {},
                                0xce11 => {},
                                0xf101 => {},
                                0xf102 => {},
                                0x706c61 => {},
                                0x807124 => {},
                                0x817124 => {},
                                _ => {},
                            }
                        } else {
                            match n {
                                0x947124 => {},
                                0x957124 => {},
                                0xa27124 => {},
                                0xa37124 => {},
                                0xb19910 => {},
                                0xb29910 => {},
                                0xb39910 => {},
                                0xb49910 => {},
                                _ => {},
                            }
                        }
                    }
                }
            }
        }
    }
}

/// The numbers that the multicodec table gives, from `Identity` to `P2pCircuit`:
/// each codec has its own number, so that a code read back names the codec
/// that the table says.
pub proof fn lemma_multicodec_numbers_1()
    ensures
        codec_code(Codec::Identity) == 0x0,
        codec_code(Codec::Cidv1) == 0x1,
        codec_code(Codec::Cidv2) == 0x2,
        codec_code(Codec::Cidv3) == 0x3,
        codec_code(Codec::Ip4) == 0x4,
        codec_code(Codec::Tcp) == 0x6,
        codec_code(Codec::Sha1) == 0x11,
        codec_code(Codec::Sha2256) == 0x12,
        codec_code(Codec::Sha2512) == 0x13,
        codec_code(Codec::Sha3512) == 0x14,
        codec_code(Codec::Sha3384) == 0x15,
        codec_code(Codec::Sha3256) == 0x16,
        codec_code(Codec::Sha3224) == 0x17,
        codec_code(Codec::Shake128) == 0x18,
        codec_code(Codec::Shake256) == 0x19,
        codec_code(Codec::Keccak224) == 0x1a,
        codec_code(Codec::Keccak256) == 0x1b,
        codec_code(Codec::Keccak384) == 0x1c,
        codec_code(Codec::Keccak512) == 0x1d,
        codec_code(Codec::Blake3) == 0x1e,
        codec_code(Codec::Sha2384) == 0x20,
        codec_code(Codec::Dccp) == 0x21,
        codec_code(Codec::Murmur3X6464) == 0x22,
        codec_code(Codec::Murmur332) == 0x23,
        codec_code(Codec::Ip6) == 0x29,
        codec_code(Codec::Ip6zone) == 0x2a,
        codec_code(Codec::Path) == 0x2f,
        codec_code(Codec::Multicodec) == 0x30,
        codec_code(Codec::Multihash) == 0x31,
        codec_code(Codec::Multiaddr) == 0x32,
        codec_code(Codec::Multibase) == 0x33,
        codec_code(Codec::Dns) == 0x35,
        codec_code(Codec::Dns4) == 0x36,
        codec_code(Codec::Dns6) == 0x37,
        codec_code(Codec::Dnsaddr) == 0x38,
        codec_code(Codec::Protobuf) == 0x50,
        codec_code(Codec::Cbor) == 0x51,
        codec_code(Codec::Raw) == 0x55,
        codec_code(Codec::DblSha2256) == 0x56,
        codec_code(Codec::Rlp) == 0x60,
        codec_code(Codec::Bencode) == 0x63,
        codec_code(Codec::DagPb) == 0x70,
        codec_code(Codec::DagCbor) == 0x71,
        codec_code(Codec::Libp2pKey) == 0x72,
        codec_code(Codec::GitRaw) == 0x78,
        codec_code(Codec::TorrentInfo) == 0x7b,
        codec_code(Codec::TorrentFile) == 0x7c,
        codec_code(Codec::LeofcoinBlock) == 0x81,
        codec_code(Codec::LeofcoinTx) == 0x82,
        codec_code(Codec::LeofcoinPr) == 0x83,
        codec_code(Codec::Sctp) == 0x84,
        codec_code(Codec::DagJose) == 0x85,
        codec_code(Codec::DagCose) == 0x86,
        codec_code(Codec::EthBlock) == 0x90,
        codec_code(Codec::EthBlockList) == 0x91,
        codec_code(Codec::EthTxTrie) == 0x92,
        codec_code(Codec::EthTx) == 0x93,
        codec_code(Codec::EthTxReceiptTrie) == 0x94,
        codec_code(Codec::EthTxReceipt) == 0x95,
        codec_code(Codec::EthStateTrie) == 0x96,
        codec_code(Codec::EthAccountSnapshot) == 0x97,
        codec_code(Codec::EthStorageTrie) == 0x98,
        codec_code(Codec::EthReceiptLogTrie) == 0x99,
        codec_code(Codec::EthRecieptLog) == 0x9a,
        codec_code(Codec::Aes128) == 0xa0,
        codec_code(Codec::Aes192) == 0xa1,
        codec_code(Codec::Aes256) == 0xa2,
        codec_code(Codec::Chacha128) == 0xa3,
        codec_code(Codec::Chacha256) == 0xa4,
        codec_code(Codec::BitcoinBlock) == 0xb0,
        codec_code(Codec::BitcoinTx) == 0xb1,
        codec_code(Codec::BitcoinWitnessCommitment) == 0xb2,
        codec_code(Codec::ZcashBlock) == 0xc0,
        codec_code(Codec::ZcashTx) == 0xc1,
        codec_code(Codec::Caip50) == 0xca,
        codec_code(Codec::Streamid) == 0xce,
        codec_code(Codec::StellarBlock) == 0xd0,
        codec_code(Codec::StellarTx) == 0xd1,
        codec_code(Codec::Md4) == 0xd4,
        codec_code(Codec::Md5) == 0xd5,
        codec_code(Codec::Bmt) == 0xd6,
        codec_code(Codec::DecredBlock) == 0xe0,
        codec_code(Codec::DecredTx) == 0xe1,
        codec_code(Codec::IpldNs) == 0xe2,
        codec_code(Codec::IpfsNs) == 0xe3,
        codec_code(Codec::SwarmNs) == 0xe4,
        codec_code(Codec::IpnsNs) == 0xe5,
        codec_code(Codec::Zeronet) == 0xe6,
        codec_code(Codec::Secp256k1Pub) == 0xe7,
        codec_code(Codec::X25519Pub) == 0xec,
        codec_code(Codec::Ed25519Pub) == 0xed,
        codec_code(Codec::DashBlock) == 0xf0,
        codec_code(Codec::DashTx) == 0xf1,
        codec_code(Codec::SwarmManifest) == 0xfa,
        codec_code(Codec::SwarmFeed) == 0xfb,
        codec_code(Codec::Udp) == 0x111,
        codec_code(Codec::P2pWebrtcStar) == 0x113,
        codec_code(Codec::P2pWebrtcDirect) == 0x114,
        codec_code(Codec::P2pStardust) == 0x115,
        codec_code(Codec::P2pCircuit) == 0x122,
{
}

/// The numbers that the multicodec table gives, from `DagJson` to `Blake2b400`:
/// each codec has its own number, so that a code read back names the codec
/// that the table says.
pub proof fn lemma_multicodec_numbers_2()
    ensures
        codec_code(Codec::DagJson) == 0x129,
        codec_code(Codec::Udt) == 0x12d,
        codec_code(Codec::Utp) == 0x12e,
        codec_code(Codec::Unix) == 0x190,
        codec_code(Codec::Thread) == 0x196,
        codec_code(Codec::P2p) == 0x1a5,
        codec_code(Codec::Https) == 0x1bb,
        codec_code(Codec::Onion) == 0x1bc,
        codec_code(Codec::Onion3) == 0x1bd,
        codec_code(Codec::Garlic64) == 0x1be,
        codec_code(Codec::Garlic32) == 0x1bf,
        codec_code(Codec::Tls) == 0x1c0,
        codec_code(Codec::Noise) == 0x1c6,
        codec_code(Codec::Quic) == 0x1cc,
        codec_code(Codec::Webtransport) == 0x1d1,
        codec_code(Codec::Ws) == 0x1dd,
        codec_code(Codec::Wss) == 0x1de,
        codec_code(Codec::P2pWebsocketStar) == 0x1df,
        codec_code(Codec::Http) == 0x1e0,
        codec_code(Codec::Swhid1Snp) == 0x1f0,
        codec_code(Codec::Json) == 0x200,
        codec_code(Codec::Messagepack) == 0x201,
        codec_code(Codec::Car) == 0x202,
        codec_code(Codec::Libp2pPeerRecord) == 0x301,
        codec_code(Codec::Libp2pRelayRsvp) == 0x302,
        codec_code(Codec::CarIndexSorted) == 0x400,
        codec_code(Codec::CarMultihashIndexSorted) == 0x401,
        codec_code(Codec::TransportBitswap) == 0x900,
        codec_code(Codec::TransportGraphsyncFilecoinv1) == 0x910,
        codec_code(Codec::Sha2256Trunc254Padded) == 0x1012,
        codec_code(Codec::Sha2224) == 0x1013,
        codec_code(Codec::Sha2512224) == 0x1014,
        codec_code(Codec::Sha2512256) == 0x1015,
        codec_code(Codec::Murmur3X64128) == 0x1022,
        codec_code(Codec::Ripemd128) == 0x1052,
        codec_code(Codec::Ripemd160) == 0x1053,
        codec_code(Codec::Ripemd256) == 0x1054,
        codec_code(Codec::Ripemd320) == 0x1055,
        codec_code(Codec::X11) == 0x1100,
        codec_code(Codec::P256Pub) == 0x1200,
        codec_code(Codec::P384Pub) == 0x1201,
        codec_code(Codec::P521Pub) == 0x1202,
        codec_code(Codec::Ed448Pub) == 0x1203,
        codec_code(Codec::X448Pub) == 0x1204,
        codec_code(Codec::RsaPub) == 0x1205,
        codec_code(Codec::Ed25519Priv) == 0x1300,
        codec_code(Codec::Secp256k1Priv) == 0x1301,
        codec_code(Codec::X25519Priv) == 0x1302,
        codec_code(Codec::Kangarootwelve) == 0x1d01,
        codec_code(Codec::Sm3256) == 0x534d,
        codec_code(Codec::Blake2b8) == 0xb201,
        codec_code(Codec::Blake2b16) == 0xb202,
        codec_code(Codec::Blake2b24) == 0xb203,
        codec_code(Codec::Blake2b32) == 0xb204,
        codec_code(Codec::Blake2b40) == 0xb205,
        codec_code(Codec::Blake2b48) == 0xb206,
        codec_code(Codec::Blake2b56) == 0xb207,
        codec_code(Codec::Blake2b64) == 0xb208,
        codec_code(Codec::Blake2b72) == 0xb209,
        codec_code(Codec::Blake2b80) == 0xb20a,
        codec_code(Codec::Blake2b88) == 0xb20b,
        codec_code(Codec::Blake2b96) == 0xb20c,
        codec_code(Codec::Blake2b104) == 0xb20d,
        codec_code(Codec::Blake2b112) == 0xb20e,
        codec_code(Codec::Blake2b120) == 0xb20f,
        codec_code(Codec::Blake2b128) == 0xb210,
        codec_code(Codec::Blake2b136) == 0xb211,
        codec_code(Codec::Blake2b144) == 0xb212,
        codec_code(Codec::Blake2b152) == 0xb213,
        codec_code(Codec::Blake2b160) == 0xb214,
        codec_code(Codec::Blake2b168) == 0xb215,
        codec_code(Codec::Blake2b176) == 0xb216,
        codec_code(Codec::Blake2b184) == 0xb217,
        codec_code(Codec::Blake2b192) == 0xb218,
        codec_code(Codec::Blake2b200) == 0xb219,
        codec_code(Codec::Blake2b208) == 0xb21a,
        codec_code(Codec::Blake2b216) == 0xb21b,
        codec_code(Codec::Blake2b224) == 0xb21c,
        codec_code(Codec::Blake2b232) == 0xb21d,
        codec_code(Codec::Blake2b240) == 0xb21e,
        codec_code(Codec::Blake2b248) == 0xb21f,
        codec_code(Codec::Blake2b256) == 0xb220,
        codec_code(Codec::Blake2b264) == 0xb221,
        codec_code(Codec::Blake2b272) == 0xb222,
        codec_code(Codec::Blake2b280) == 0xb223,
        codec_code(Codec::Blake2b288) == 0xb224,
        codec_code(Codec::Blake2b296) == 0xb225,
        codec_code(Codec::Blake2b304) == 0xb226,
        codec_code(Codec::Blake2b312) == 0xb227,
        codec_code(Codec::Blake2b320) == 0xb228,
        codec_code(Codec::Blake2b328) == 0xb229,
        codec_code(Codec::Blake2b336) == 0xb22a,
        codec_code(Codec::Blake2b344) == 0xb22b,
        codec_code(Codec::Blake2b352) == 0xb22c,
        codec_code(Codec::Blake2b360) == 0xb22d,
        codec_code(Codec::Blake2b368) == 0xb22e,
        codec_code(Codec::Blake2b376) == 0xb22f,
        codec_code(Codec::Blake2b384) == 0xb230,
        codec_code(Codec::Blake2b392) == 0xb231,
        codec_code(Codec::Blake2b400) == 0xb232,
{
}

/// The numbers that the multicodec table gives, from `Blake2b408` to `Skein512176`:
/// each codec has its own number, so that a code read back names the codec
/// that the table says.
pub proof fn lemma_multicodec_numbers_3()
    ensures
        codec_code(Codec::Blake2b408) == 0xb233,
        codec_code(Codec::Blake2b416) == 0xb234,
        codec_code(Codec::Blake2b424) == 0xb235,
        codec_code(Codec::Blake2b432) == 0xb236,
        codec_code(Codec::Blake2b440) == 0xb237,
        codec_code(Codec::Blake2b448) == 0xb238,
        codec_code(Codec::Blake2b456) == 0xb239,
        codec_code(Codec::Blake2b464) == 0xb23a,
        codec_code(Codec::Blake2b472) == 0xb23b,
        codec_code(Codec::Blake2b480) == 0xb23c,
        codec_code(Codec::Blake2b488) == 0xb23d,
        codec_code(Codec::Blake2b496) == 0xb23e,
        codec_code(Codec::Blake2b504) == 0xb23f,
        codec_code(Codec::Blake2b512) == 0xb240,
        codec_code(Codec::Blake2s8) == 0xb241,
        codec_code(Codec::Blake2s16) == 0xb242,
        codec_code(Codec::Blake2s24) == 0xb243,
        codec_code(Codec::Blake2s32) == 0xb244,
        codec_code(Codec::Blake2s40) == 0xb245,
        codec_code(Codec::Blake2s48) == 0xb246,
        codec_code(Codec::Blake2s56) == 0xb247,
        codec_code(Codec::Blake2s64) == 0xb248,
        codec_code(Codec::Blake2s72) == 0xb249,
        codec_code(Codec::Blake2s80) == 0xb24a,
        codec_code(Codec::Blake2s88) == 0xb24b,
        codec_code(Codec::Blake2s96) == 0xb24c,
        codec_code(Codec::Blake2s104) == 0xb24d,
        codec_code(Codec::Blake2s112) == 0xb24e,
        codec_code(Codec::Blake2s120) == 0xb24f,
        codec_code(Codec::Blake2s128) == 0xb250,
        codec_code(Codec::Blake2s136) == 0xb251,
        codec_code(Codec::Blake2s144) == 0xb252,
        codec_code(Codec::Blake2s152) == 0xb253,
        codec_code(Codec::Blake2s160) == 0xb254,
        codec_code(Codec::Blake2s168) == 0xb255,
        codec_code(Codec::Blake2s176) == 0xb256,
        codec_code(Codec::Blake2s184) == 0xb257,
        codec_code(Codec::Blake2s192) == 0xb258,
        codec_code(Codec::Blake2s200) == 0xb259,
        codec_code(Codec::Blake2s208) == 0xb25a,
        codec_code(Codec::Blake2s216) == 0xb25b,
        codec_code(Codec::Blake2s224) == 0xb25c,
        codec_code(Codec::Blake2s232) == 0xb25d,
        codec_code(Codec::Blake2s240) == 0xb25e,
        codec_code(Codec::Blake2s248) == 0xb25f,
        codec_code(Codec::Blake2s256) == 0xb260,
        codec_code(Codec::Skein2568) == 0xb301,
        codec_code(Codec::Skein25616) == 0xb302,
        codec_code(Codec::Skein25624) == 0xb303,
        codec_code(Codec::Skein25632) == 0xb304,
        codec_code(Codec::Skein25640) == 0xb305,
        codec_code(Codec::Skein25648) == 0xb306,
        codec_code(Codec::Skein25656) == 0xb307,
        codec_code(Codec::Skein25664) == 0xb308,
        codec_code(Codec::Skein25672) == 0xb309,
        codec_code(Codec::Skein25680) == 0xb30a,
        codec_code(Codec::Skein25688) == 0xb30b,
        codec_code(Codec::Skein25696) == 0xb30c,
        codec_code(Codec::Skein256104) == 0xb30d,
        codec_code(Codec::Skein256112) == 0xb30e,
        codec_code(Codec::Skein256120) == 0xb30f,
        codec_code(Codec::Skein256128) == 0xb310,
        codec_code(Codec::Skein256136) == 0xb311,
        codec_code(Codec::Skein256144) == 0xb312,
        codec_code(Codec::Skein256152) == 0xb313,
        codec_code(Codec::Skein256160) == 0xb314,
        codec_code(Codec::Skein256168) == 0xb315,
        codec_code(Codec::Skein256176) == 0xb316,
        codec_code(Codec::Skein256184) == 0xb317,
        codec_code(Codec::Skein256192) == 0xb318,
        codec_code(Codec::Skein256200) == 0xb319,
        codec_code(Codec::Skein256208) == 0xb31a,
        codec_code(Codec::Skein256216) == 0xb31b,
        codec_code(Codec::Skein256224) == 0xb31c,
        codec_code(Codec::Skein256232) == 0xb31d,
        codec_code(Codec::Skein256240) == 0xb31e,
        codec_code(Codec::Skein256248) == 0xb31f,
        codec_code(Codec::Skein256256) == 0xb320,
        codec_code(Codec::Skein5128) == 0xb321,
        codec_code(Codec::Skein51216) == 0xb322,
        codec_code(Codec::Skein51224) == 0xb323,
        codec_code(Codec::Skein51232) == 0xb324,
        codec_code(Codec::Skein51240) == 0xb325,
        codec_code(Codec::Skein51248) == 0xb326,
        codec_code(Codec::Skein51256) == 0xb327,
        codec_code(Codec::Skein51264) == 0xb328,
        codec_code(Codec::Skein51272) == 0xb329,
        codec_code(Codec::Skein51280) == 0xb32a,
        codec_code(Codec::Skein51288) == 0xb32b,
        codec_code(Codec::Skein51296) == 0xb32c,
        codec_code(Codec::Skein512104) == 0xb32d,
        codec_code(Codec::Skein512112) == 0xb32e,
        codec_code(Codec::Skein512120) == 0xb32f,
        codec_code(Codec::Skein512128) == 0xb330,
        codec_code(Codec::Skein512136) == 0xb331,
        codec_code(Codec::Skein512144) == 0xb332,
        codec_code(Codec::Skein512152) == 0xb333,
        codec_code(Codec::Skein512160) == 0xb334,
        codec_code(Codec::Skein512168) == 0xb335,
        codec_code(Codec::Skein512176) == 0xb336,
{
}

/// The numbers that the multicodec table gives, from `Skein512184` to `Skein1024464`:
/// each codec has its own number, so that a code read back names the codec
/// that the table says.
pub proof fn lemma_multicodec_numbers_4()
    ensures
        codec_code(Codec::Skein512184) == 0xb337,
        codec_code(Codec::Skein512192) == 0xb338,
        codec_code(Codec::Skein512200) == 0xb339,
        codec_code(Codec::Skein512208) == 0xb33a,
        codec_code(Codec::Skein512216) == 0xb33b,
        codec_code(Codec::Skein512224) == 0xb33c,
        codec_code(Codec::Skein512232) == 0xb33d,
        codec_code(Codec::Skein512240) == 0xb33e,
        codec_code(Codec::Skein512248) == 0xb33f,
        codec_code(Codec::Skein512256) == 0xb340,
        codec_code(Codec::Skein512264) == 0xb341,
        codec_code(Codec::Skein512272) == 0xb342,
        codec_code(Codec::Skein512280) == 0xb343,
        codec_code(Codec::Skein512288) == 0xb344,
        codec_code(Codec::Skein512296) == 0xb345,
        codec_code(Codec::Skein512304) == 0xb346,
        codec_code(Codec::Skein512312) == 0xb347,
        codec_code(Codec::Skein512320) == 0xb348,
        codec_code(Codec::Skein512328) == 0xb349,
        codec_code(Codec::Skein512336) == 0xb34a,
        codec_code(Codec::Skein512344) == 0xb34b,
        codec_code(Codec::Skein512352) == 0xb34c,
        codec_code(Codec::Skein512360) == 0xb34d,
        codec_code(Codec::Skein512368) == 0xb34e,
        codec_code(Codec::Skein512376) == 0xb34f,
        codec_code(Codec::Skein512384) == 0xb350,
        codec_code(Codec::Skein512392) == 0xb351,
        codec_code(Codec::Skein512400) == 0xb352,
        codec_code(Codec::Skein512408) == 0xb353,
        codec_code(Codec::Skein512416) == 0xb354,
        codec_code(Codec::Skein512424) == 0xb355,
        codec_code(Codec::Skein512432) == 0xb356,
        codec_code(Codec::Skein512440) == 0xb357,
        codec_code(Codec::Skein512448) == 0xb358,
        codec_code(Codec::Skein512456) == 0xb359,
        codec_code(Codec::Skein512464) == 0xb35a,
        codec_code(Codec::Skein512472) == 0xb35b,
        codec_code(Codec::Skein512480) == 0xb35c,
        codec_code(Codec::Skein512488) == 0xb35d,
        codec_code(Codec::Skein512496) == 0xb35e,
        codec_code(Codec::Skein512504) == 0xb35f,
        codec_code(Codec::Skein512512) == 0xb360,
        codec_code(Codec::Skein10248) == 0xb361,
        codec_code(Codec::Skein102416) == 0xb362,
        codec_code(Codec::Skein102424) == 0xb363,
        codec_code(Codec::Skein102432) == 0xb364,
        codec_code(Codec::Skein102440) == 0xb365,
        codec_code(Codec::Skein102448) == 0xb366,
        codec_code(Codec::Skein102456) == 0xb367,
        codec_code(Codec::Skein102464) == 0xb368,
        codec_code(Codec::Skein102472) == 0xb369,
        codec_code(Codec::Skein102480) == 0xb36a,
        codec_code(Codec::Skein102488) == 0xb36b,
        codec_code(Codec::Skein102496) == 0xb36c,
        codec_code(Codec::Skein1024104) == 0xb36d,
        codec_code(Codec::Skein1024112) == 0xb36e,
        codec_code(Codec::Skein1024120) == 0xb36f,
        codec_code(Codec::Skein1024128) == 0xb370,
        codec_code(Codec::Skein1024136) == 0xb371,
        codec_code(Codec::Skein1024144) == 0xb372,
        codec_code(Codec::Skein1024152) == 0xb373,
        codec_code(Codec::Skein1024160) == 0xb374,
        codec_code(Codec::Skein1024168) == 0xb375,
        codec_code(Codec::Skein1024176) == 0xb376,
        codec_code(Codec::Skein1024184) == 0xb377,
        codec_code(Codec::Skein1024192) == 0xb378,
        codec_code(Codec::Skein1024200) == 0xb379,
        codec_code(Codec::Skein1024208) == 0xb37a,
        codec_code(Codec::Skein1024216) == 0xb37b,
        codec_code(Codec::Skein1024224) == 0xb37c,
        codec_code(Codec::Skein1024232) == 0xb37d,
        codec_code(Codec::Skein1024240) == 0xb37e,
        codec_code(Codec::Skein1024248) == 0xb37f,
        codec_code(Codec::Skein1024256) == 0xb380,
        codec_code(Codec::Skein1024264) == 0xb381,
        codec_code(Codec::Skein1024272) == 0xb382,
        codec_code(Codec::Skein1024280) == 0xb383,
        codec_code(Codec::Skein1024288) == 0xb384,
        codec_code(Codec::Skein1024296) == 0xb385,
        codec_code(Codec::Skein1024304) == 0xb386,
        codec_code(Codec::Skein1024312) == 0xb387,
        codec_code(Codec::Skein1024320) == 0xb388,
        codec_code(Codec::Skein1024328) == 0xb389,
        codec_code(Codec::Skein1024336) == 0xb38a,
        codec_code(Codec::Skein1024344) == 0xb38b,
        codec_code(Codec::Skein1024352) == 0xb38c,
        codec_code(Codec::Skein1024360) == 0xb38d,
        codec_code(Codec::Skein1024368) == 0xb38e,
        codec_code(Codec::Skein1024376) == 0xb38f,
        codec_code(Codec::Skein1024384) == 0xb390,
        codec_code(Codec::Skein1024392) == 0xb391,
        codec_code(Codec::Skein1024400) == 0xb392,
        codec_code(Codec::Skein1024408) == 0xb393,
        codec_code(Codec::Skein1024416) == 0xb394,
        codec_code(Codec::Skein1024424) == 0xb395,
        codec_code(Codec::Skein1024432) == 0xb396,
        codec_code(Codec::Skein1024440) == 0xb397,
        codec_code(Codec::Skein1024448) == 0xb398,
        codec_code(Codec::Skein1024456) == 0xb399,
        codec_code(Codec::Skein1024464) == 0xb39a,
{
}

/// The numbers that the multicodec table gives, from `Skein1024472` to `KumandraNs`:
/// each codec has its own number, so that a code read back names the codec
/// that the table says.
pub proof fn lemma_multicodec_numbers_5()
    ensures
        codec_code(Codec::Skein1024472) == 0xb39b,
        codec_code(Codec::Skein1024480) == 0xb39c,
        codec_code(Codec::Skein1024488) == 0xb39d,
        codec_code(Codec::Skein1024496) == 0xb39e,
        codec_code(Codec::Skein1024504) == 0xb39f,
        codec_code(Codec::Skein1024512) == 0xb3a0,
        codec_code(Codec::Skein1024520) == 0xb3a1,
        codec_code(Codec::Skein1024528) == 0xb3a2,
        codec_code(Codec::Skein1024536) == 0xb3a3,
        codec_code(Codec::Skein1024544) == 0xb3a4,
        codec_code(Codec::Skein1024552) == 0xb3a5,
        codec_code(Codec::Skein1024560) == 0xb3a6,
        codec_code(Codec::Skein1024568) == 0xb3a7,
        codec_code(Codec::Skein1024576) == 0xb3a8,
        codec_code(Codec::Skein1024584) == 0xb3a9,
        codec_code(Codec::Skein1024592) == 0xb3aa,
        codec_code(Codec::Skein1024600) == 0xb3ab,
        codec_code(Codec::Skein1024608) == 0xb3ac,
        codec_code(Codec::Skein1024616) == 0xb3ad,
        codec_code(Codec::Skein1024624) == 0xb3ae,
        codec_code(Codec::Skein1024632) == 0xb3af,
        codec_code(Codec::Skein1024640) == 0xb3b0,
        codec_code(Codec::Skein1024648) == 0xb3b1,
        codec_code(Codec::Skein1024656) == 0xb3b2,
        codec_code(Codec::Skein1024664) == 0xb3b3,
        codec_code(Codec::Skein1024672) == 0xb3b4,
        codec_code(Codec::Skein1024680) == 0xb3b5,
        codec_code(Codec::Skein1024688) == 0xb3b6,
        codec_code(Codec::Skein1024696) == 0xb3b7,
        codec_code(Codec::Skein1024704) == 0xb3b8,
        codec_code(Codec::Skein1024712) == 0xb3b9,
        codec_code(Codec::Skein1024720) == 0xb3ba,
        codec_code(Codec::Skein1024728) == 0xb3bb,
        codec_code(Codec::Skein1024736) == 0xb3bc,
        codec_code(Codec::Skein1024744) == 0xb3bd,
        codec_code(Codec::Skein1024752) == 0xb3be,
        codec_code(Codec::Skein1024760) == 0xb3bf,
        codec_code(Codec::Skein1024768) == 0xb3c0,
        codec_code(Codec::Skein1024776) == 0xb3c1,
        codec_code(Codec::Skein1024784) == 0xb3c2,
        codec_code(Codec::Skein1024792) == 0xb3c3,
        codec_code(Codec::Skein1024800) == 0xb3c4,
        codec_code(Codec::Skein1024808) == 0xb3c5,
        codec_code(Codec::Skein1024816) == 0xb3c6,
        codec_code(Codec::Skein1024824) == 0xb3c7,
        codec_code(Codec::Skein1024832) == 0xb3c8,
        codec_code(Codec::Skein1024840) == 0xb3c9,
        codec_code(Codec::Skein1024848) == 0xb3ca,
        codec_code(Codec::Skein1024856) == 0xb3cb,
        codec_code(Codec::Skein1024864) == 0xb3cc,
        codec_code(Codec::Skein1024872) == 0xb3cd,
        codec_code(Codec::Skein1024880) == 0xb3ce,
        codec_code(Codec::Skein1024888) == 0xb3cf,
        codec_code(Codec::Skein1024896) == 0xb3d0,
        codec_code(Codec::Skein1024904) == 0xb3d1,
        codec_code(Codec::Skein1024912) == 0xb3d2,
        codec_code(Codec::Skein1024920) == 0xb3d3,
        codec_code(Codec::Skein1024928) == 0xb3d4,
        codec_code(Codec::Skein1024936) == 0xb3d5,
        codec_code(Codec::Skein1024944) == 0xb3d6,
        codec_code(Codec::Skein1024952) == 0xb3d7,
        codec_code(Codec::Skein1024960) == 0xb3d8,
        codec_code(Codec::Skein1024968) == 0xb3d9,
        codec_code(Codec::Skein1024976) == 0xb3da,
        codec_code(Codec::Skein1024984) == 0xb3db,
        codec_code(Codec::Skein1024992) == 0xb3dc,
        codec_code(Codec::Skein10241000) == 0xb3dd,
        codec_code(Codec::Skein10241008) == 0xb3de,
        codec_code(Codec::Skein10241016) == 0xb3df,
        codec_code(Codec::Skein10241024) == 0xb3e0,
        codec_code(Codec::Iscc) == 0xcc01,
        codec_code(Codec::ZeroxcertImprint256) == 0xce11,
        codec_code(Codec::FilCommitmentUnsealed) == 0xf101,
        codec_code(Codec::FilCommitmentSealed) == 0xf102,
        codec_code(Codec::Plaintextv2) == 0x706c61,
        codec_code(Codec::HolochainAdrV0) == 0x807124,
        codec_code(Codec::HolochainAdrV1) == 0x817124,
        codec_code(Codec::HolochainKeyV0) == 0x947124,
        codec_code(Codec::HolochainKeyV1) == 0x957124,
        codec_code(Codec::HolochainSigV0) == 0xa27124,
        codec_code(Codec::HolochainSigV1) == 0xa37124,
        codec_code(Codec::SkynetNs) == 0xb19910,
        codec_code(Codec::ArweaveNs) == 0xb29910,
        codec_code(Codec::SubspaceNs) == 0xb39910,
        codec_code(Codec::KumandraNs) == 0xb49910,
{
}

} // verus!
