use unsigned_varint::codec::UviBytes;
use beetle::protocol::{BitswapCodec, BitswapHandlerError, MessageFormat, ProtocolConfig, ProtocolId, MAX_BUF_SIZE};

#[test]
fn test_ord() {
    let mut protocols = [
        ProtocolId::Bitswap120,
        ProtocolId::Bitswap100,
        ProtocolId::Legacy,
    ];
    protocols.sort();
    assert_eq!(
        protocols,
        [
            ProtocolId::Legacy,
            ProtocolId::Bitswap100,
            ProtocolId::Bitswap120
        ]
    );
}

#[test]
fn protocol_names_round_trip() {
    for p in [ProtocolId::Legacy, ProtocolId::Bitswap100, ProtocolId::Bitswap110, ProtocolId::Bitswap120] {
        assert_eq!(ProtocolId::try_from(p.as_str().as_bytes()), Some(p));
    }
    assert_eq!(ProtocolId::Bitswap110.as_str(), "/ipfs/bitswap/1.1.0");
    assert_eq!(ProtocolId::try_from(b"/ipfs/bitswap/1.3.0"), None);
    assert_eq!(ProtocolId::try_from(b""), None);
    assert_eq!(ProtocolId::try_from(b"/ipfs/bitswap/"), None);
}

#[test]
fn only_newest_supports_have() {
    assert!(ProtocolId::Bitswap120.supports_have());
    assert!(!ProtocolId::Bitswap110.supports_have());
    assert!(!ProtocolId::Bitswap100.supports_have());
    assert!(!ProtocolId::Legacy.supports_have());
}

#[test]
fn message_formats() {
    assert_eq!(ProtocolId::Legacy.message_format(), MessageFormat::V0);
    assert_eq!(ProtocolId::Bitswap100.message_format(), MessageFormat::V0);
    assert_eq!(ProtocolId::Bitswap110.message_format(), MessageFormat::V1);
    assert_eq!(ProtocolId::Bitswap120.message_format(), MessageFormat::V1);
}

#[test]
fn default_config() {
    let config = ProtocolConfig::default();
    assert_eq!(
        config.protocol_info(),
        vec![ProtocolId::Bitswap120, ProtocolId::Bitswap110, ProtocolId::Bitswap100, ProtocolId::Legacy]
    );
    assert_eq!(config.max_transmit_size, 2 * 1024 * 1024);
    assert_eq!(MAX_BUF_SIZE, 2 * 1024 * 1024);
}

#[test]
fn codec_round_trip() {
    let config = ProtocolConfig { protocol_ids: vec![ProtocolId::Bitswap110], max_transmit_size: 1000 };
    let mut writer = config.codec(ProtocolId::Bitswap110);
    let mut stream = Vec::new();
    let message: Vec<u8> = (0..300u32).map(|i| (i % 251) as u8).collect();
    writer.encode(message.clone(), &mut stream).unwrap();
    // 300 = 0b10_0101100: varint bytes 0xac 0x02
    assert_eq!(&stream[..2], &[0xac, 0x02]);
    assert_eq!(stream.len(), 302);
    writer.encode(vec![7, 8, 9], &mut stream).unwrap();

    let mut reader = config.codec(ProtocolId::Bitswap110);
    let (got, protocol) = reader.decode(&mut stream).unwrap().unwrap();
    assert_eq!(got, message);
    assert_eq!(protocol, ProtocolId::Bitswap110);
    let (got, _) = reader.decode(&mut stream).unwrap().unwrap();
    assert_eq!(got, vec![7, 8, 9]);
    assert!(stream.is_empty());
    assert!(reader.decode(&mut stream).unwrap().is_none());
}

#[test]
fn codec_partial_frames() {
    let mut codec = BitswapCodec::new(UviBytes::default(), ProtocolId::Bitswap120);
    let mut src = vec![0x05, 1, 2];
    assert!(codec.decode(&mut src).unwrap().is_none());
    // the length prefix was read; the payload is awaited
    assert_eq!(src, vec![1, 2]);
    src.extend_from_slice(&[3, 4, 5, 6]);
    let (got, _) = codec.decode(&mut src).unwrap().unwrap();
    assert_eq!(got, vec![1, 2, 3, 4, 5]);
    assert_eq!(src, vec![6]);
    // an unfinished varint leaves the bytes alone
    let mut src = vec![0x80];
    assert!(codec.decode(&mut src).unwrap().is_none());
    assert_eq!(src, vec![0x80]);
}

#[test]
fn codec_limits() {
    let config = ProtocolConfig { protocol_ids: vec![], max_transmit_size: 4 };
    let mut codec = config.codec(ProtocolId::Legacy);
    let mut dst = vec![9];
    assert!(matches!(codec.encode(vec![0; 5], &mut dst), Err(BitswapHandlerError::MaxTransmissionSize)));
    assert_eq!(dst, vec![9]);
    assert!(codec.encode(vec![0; 4], &mut dst).is_ok());
    let mut src = vec![0x05, 0, 0, 0, 0, 0];
    assert!(matches!(codec.decode(&mut src), Err(BitswapHandlerError::MaxTransmissionSize)));
    assert_eq!(src, vec![0, 0, 0, 0, 0]);
    // a two-byte varint whose last byte is zero is not minimal
    let mut src = vec![0x81, 0x00, 1];
    assert!(matches!(codec.decode(&mut src), Err(BitswapHandlerError::Io(_))));
    assert_eq!(src, vec![0x81, 0x00, 1]);
}
