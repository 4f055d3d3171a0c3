use beetle::codecs::{Codec, TryFromCodeError};

#[test]
fn codec_numbers() {
    assert_eq!(Codec::Identity.code(), 0x00);
    assert_eq!(Codec::Sha2256.code(), 0x12);
    assert_eq!(Codec::DagPb.code(), 0x70);
    assert_eq!(Codec::Raw.code(), 0x55);
    assert_eq!(Codec::KumandraNs.code(), 0xb49910);
}

#[test]
fn codec_from_numbers() {
    assert_eq!(Codec::try_from_code(0x71), Ok(Codec::DagCbor));
    assert_eq!(Codec::try_from_code(0xb3e0), Ok(Codec::Skein10241024));
    assert_eq!(Codec::try_from_code(0x05), Err(TryFromCodeError { number: 0x05 }));
    assert_eq!(Codec::try_from_code(u64::MAX), Err(TryFromCodeError { number: u64::MAX }));
}

#[test]
fn every_small_number_round_trips() {
    for n in 0..0x20000u64 {
        if let Ok(c) = Codec::try_from_code(n) {
            assert_eq!(c.code(), n);
        }
    }
}
