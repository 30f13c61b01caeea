use bincode::Options;
use eterm::codec::{
    decode_message, encode_message, message_from_decompressor, packet_from_compressor,
    round_trip, CodecError, CodecStage, ZSTD_LEVEL,
};

#[test]
fn level_is_five() {
    assert_eq!(ZSTD_LEVEL, 5);
}

#[test]
fn encode_compresses() {
    let serialized = vec![42u8; 10_000];
    let packet = encode_message(&serialized).unwrap();
    assert!(packet.len() < 100);
    assert_ne!(packet, serialized);
    // A zstd frame starts with its magic number.
    assert_eq!(&packet[..4], &[0x28, 0xb5, 0x2f, 0xfd]);
}

#[test]
fn encode_is_what_zstd_makes_at_level_five() {
    let serialized: Vec<u8> = (0..5000u32).flat_map(|i| (i * i).to_le_bytes()).collect();
    assert_eq!(
        encode_message(&serialized).unwrap(),
        zstd::encode_all(&serialized[..], 5).unwrap()
    );
}

#[test]
fn decode_gives_back_what_was_encoded() {
    for serialized in [
        Vec::new(),
        vec![0u8],
        b"some bytes of a message".to_vec(),
        (0..=255u8).cycle().take(70_000).collect::<Vec<u8>>(),
    ] {
        let packet = encode_message(&serialized).unwrap();
        assert_eq!(decode_message(&packet), Ok(serialized.clone()));
        assert_eq!(round_trip(&serialized), Ok(serialized));
    }
}

#[test]
fn decode_reads_any_zstd_frame() {
    let frame = zstd::encode_all(&b"made elsewhere"[..], 19).unwrap();
    assert_eq!(decode_message(&frame), Ok(b"made elsewhere".to_vec()));
}

#[test]
fn decode_of_garbage_fails_at_the_zstd_stage() {
    assert_eq!(
        decode_message(b"certainly not compressed"),
        Err(CodecError::Decoding(CodecStage::Zstd))
    );
}

#[test]
fn decode_of_a_cut_frame_fails() {
    let packet = encode_message(&vec![9u8; 5000]).unwrap();
    assert_eq!(
        decode_message(&packet[..packet.len() - 3]),
        Err(CodecError::Decoding(CodecStage::Zstd))
    );
}

#[test]
fn compressor_outcomes() {
    assert_eq!(packet_from_compressor(Ok(vec![1, 2, 3])), Ok(vec![1, 2, 3]));
    assert_eq!(
        packet_from_compressor(Err(std::io::Error::new(
            std::io::ErrorKind::OutOfMemory,
            "no memory"
        ))),
        Err(CodecError::Encoding(CodecStage::Zstd))
    );
}

#[test]
fn decompressor_outcomes() {
    assert_eq!(message_from_decompressor(Ok(vec![4, 5])), Ok(vec![4, 5]));
    assert_eq!(
        message_from_decompressor(Err(std::io::Error::new(
            std::io::ErrorKind::InvalidData,
            "bad frame"
        ))),
        Err(CodecError::Decoding(CodecStage::Zstd))
    );
}

#[test]
fn a_serialized_value_survives_the_codec() {
    let value: (u64, String, Option<f64>, Vec<u32>) =
        (7, "frame".to_owned(), Some(5.0), vec![1, 2, 3]);
    let serialized = bincode::options().serialize(&value).unwrap();
    let packet = encode_message(&serialized).unwrap();
    let back: (u64, String, Option<f64>, Vec<u32>) = bincode::options()
        .deserialize(&decode_message(&packet).unwrap())
        .unwrap();
    assert_eq!(back, value);
}

#[test]
fn what_was_encoded_can_be_decoded() {
    for len in [0usize, 1, 11, 12, 13, 255, 256, 4096, 100_000] {
        let serialized: Vec<u8> = (0..len).map(|i| (i * 31 % 251) as u8).collect();
        let packet = encode_message(&serialized).unwrap();
        assert!(decode_message(&packet).is_ok());
        assert_eq!(round_trip(&serialized), Ok(serialized));
    }
}
