use eterm::protocol::{
    check_header, encode_header, protocol_version, HeaderCheck, ProtocolError, Version,
    HEADER_LEN, MAGIC_LEN, MAX_PACKET_LEN, PROTOCOL_HEADER,
};

#[test]
fn test_version() {
    let [_, _, _, _, _, major, minor, patch] = PROTOCOL_HEADER;
    assert_eq!(
        "0.0.1",
        format!("{}.{}.{}", major, minor, patch),
        "You must update PROTOCOL_HEADER when you publish a new eterm",
    );
}

#[test]
fn header_constants() {
    assert_eq!(&PROTOCOL_HEADER[..MAGIC_LEN], b"eterm");
    assert_eq!(HEADER_LEN, 12);
    assert_eq!(MAX_PACKET_LEN, 32_000_000);
    assert_eq!(
        protocol_version(),
        Version {
            major: 0,
            minor: 0,
            patch: 1
        }
    );
}

#[test]
fn header_of_small_payload() {
    assert_eq!(
        encode_header(3),
        vec![b'e', b't', b'e', b'r', b'm', 0, 0, 1, 3, 0, 0, 0]
    );
}

#[test]
fn header_length_is_little_endian() {
    assert_eq!(
        encode_header(0x0102_0304)[8..].to_vec(),
        vec![0x04, 0x03, 0x02, 0x01]
    );
    assert_eq!(
        encode_header(32_000_000)[8..].to_vec(),
        32_000_000u32.to_le_bytes().to_vec()
    );
}

#[test]
fn check_header_incomplete() {
    assert_eq!(check_header(&[]), HeaderCheck::Incomplete);
    assert_eq!(check_header(&encode_header(5)[..11]), HeaderCheck::Incomplete);
    // Even a wrong magic is not judged before the header is whole.
    assert_eq!(check_header(b"http/1.1 20"), HeaderCheck::Incomplete);
}

#[test]
fn check_header_accepts_what_encode_header_made() {
    assert_eq!(
        check_header(&encode_header(77)),
        HeaderCheck::Accepted { payload_len: 77 }
    );
    assert_eq!(
        check_header(&encode_header(0)),
        HeaderCheck::Accepted { payload_len: 0 }
    );
}

#[test]
fn check_header_wrong_magic() {
    let mut header = encode_header(1);
    header[4] = b'n';
    assert_eq!(
        check_header(&header),
        HeaderCheck::Refused(ProtocolError::NotThisProtocol)
    );
    assert_eq!(
        check_header(b"GET / HTTP/1.1\r\n"),
        HeaderCheck::Refused(ProtocolError::NotThisProtocol)
    );
}

#[test]
fn check_header_version_mismatch_at_each_place() {
    for place in 5..8 {
        let mut header = encode_header(1);
        header[place] += 1;
        let remote = Version {
            major: header[5],
            minor: header[6],
            patch: header[7],
        };
        assert_eq!(
            check_header(&header),
            HeaderCheck::Refused(ProtocolError::VersionMismatch {
                local: Version {
                    major: 0,
                    minor: 0,
                    patch: 1
                },
                remote,
            })
        );
    }
}

#[test]
fn version_is_judged_before_length() {
    let mut header = encode_header(1);
    header[7] = 2;
    header[8..].copy_from_slice(&u32::MAX.to_le_bytes());
    assert!(matches!(
        check_header(&header),
        HeaderCheck::Refused(ProtocolError::VersionMismatch { .. })
    ));
}

#[test]
fn magic_is_judged_before_version() {
    let mut header = encode_header(1);
    header[0] = b'E';
    header[7] = 2;
    assert_eq!(
        check_header(&header),
        HeaderCheck::Refused(ProtocolError::NotThisProtocol)
    );
}

#[test]
fn check_header_length_limit() {
    let mut header = encode_header(0);
    header[8..].copy_from_slice(&32_000_000u32.to_le_bytes());
    assert_eq!(
        check_header(&header),
        HeaderCheck::Accepted {
            payload_len: 32_000_000
        }
    );
    header[8..].copy_from_slice(&32_000_001u32.to_le_bytes());
    assert_eq!(
        check_header(&header),
        HeaderCheck::Refused(ProtocolError::OversizedPacket { length: 32_000_001 })
    );
    header[8..].copy_from_slice(&u32::MAX.to_le_bytes());
    assert_eq!(
        check_header(&header),
        HeaderCheck::Refused(ProtocolError::OversizedPacket { length: u32::MAX })
    );
}
