use frisquet::chaudiere::{bcd_value, ChaudierePayload};
use frisquet::common::{from_hex, is_hex_digit, parse_data_from_str, unhexify};
use frisquet::proto::{
    declared_length, decode_frame, encode_frame, encode_message, source_family, Family, Frame,
    FrameError, FrisquetData, FrisquetMetadata,
};
use frisquet::satellite::{pack_flags, unpack_flags, ModeFlags, SatellitePayload};
use frisquet::sonde::SondePayload;

fn header(length: u8, from_addr: u8) -> FrisquetMetadata {
    FrisquetMetadata {
        length,
        to_addr: 0x80,
        from_addr,
        request_id: 0x1234,
        req_or_answer: 1,
        msg_type: 23,
    }
}

fn sample_frames() -> Vec<Frame> {
    vec![
        Frame {
            metadata: header(17, 0x08),
            data: FrisquetData::Satellite(SatellitePayload::SatelliteInitMessage {
                static_part: [1, 2, 3, 4, 5, 6, 7],
                message_part: [8, 9, 10, 11],
            }),
        },
        Frame {
            metadata: header(8, 0x09),
            data: FrisquetData::Satellite(SatellitePayload::SatelliteInitEmptyMessage {
                data: vec![0xaa, 0xbb],
            }),
        },
        Frame {
            metadata: header(10, 0x0a),
            data: FrisquetData::Satellite(SatellitePayload::SatelliteAssocationAnnounceMessage {
                unknown: 7,
                version: [1, 2, 3],
            }),
        },
        Frame {
            metadata: header(23, 0x08),
            data: FrisquetData::Satellite(SatellitePayload::SatelliteSetTemperatureMessage {
                static_part: [1, 2, 3],
                unknown1: 4,
                static_part_end: [5, 6, 7],
                unknown2: 8,
                message_static_part: [9, 10],
                temperature: -35,
                consigne: 205,
                unknown_mode1: 5,
                hors_gel: true,
                unknown_mode2: 2,
                derogation: true,
                soleil: true,
                signature: [11, 12],
            }),
        },
        Frame {
            metadata: header(12, 0x08),
            data: FrisquetData::Satellite(SatellitePayload::SatelliteUnknowMessage {
                data: vec![1, 2, 3, 4, 5, 6],
            }),
        },
        Frame {
            metadata: header(17, 0x20),
            data: FrisquetData::Sonde(SondePayload::SondeTemperatureMessage {
                data: [156, 84, 0, 4, 160, 41, 0, 1, 2],
                temperature: -120,
            }),
        },
        Frame {
            metadata: header(6, 0x20),
            data: FrisquetData::Sonde(SondePayload::SondeAssociationAnnounceMessage { data: vec![] }),
        },
        Frame {
            metadata: header(8, 0x20),
            data: FrisquetData::Sonde(SondePayload::SondeInitMessage { data: vec![0, 0] }),
        },
        Frame {
            metadata: header(7, 0x20),
            data: FrisquetData::Sonde(SondePayload::SondeUnknownMessage { data: vec![9] }),
        },
        Frame {
            metadata: header(11, 0x80),
            data: FrisquetData::Chaudiere(ChaudierePayload::ChaudiereAssociationBroadcast {
                unknown: 4,
                network_id: [5, 215, 25, 158],
            }),
        },
        Frame {
            metadata: header(15, 0x80),
            data: FrisquetData::Chaudiere(ChaudierePayload::ChaudiereSondeResponseMessage {
                unknown_start: 8,
                year: 35,
                month: 4,
                day: 5,
                hour: 17,
                minute: 49,
                second: 23,
                data: vec![40, 3],
            }),
        },
        Frame {
            metadata: header(55, 0x80),
            data: FrisquetData::Chaudiere(
                ChaudierePayload::ChaudiereToSatelliteUnknownMessageResponse {
                    data: (0..49).collect(),
                },
            ),
        },
        Frame {
            metadata: header(20, 0x80),
            data: FrisquetData::Chaudiere(ChaudierePayload::ChaudiereUnknownMessage {
                data: (100..114).collect(),
            }),
        },
    ]
}

#[test]
fn round_trip_every_variant() {
    for f in sample_frames() {
        let bytes = encode_frame(&f).unwrap();
        assert_eq!(bytes.len(), f.metadata.length as usize + 1);
        assert_eq!(decode_frame(&bytes).unwrap(), f);
    }
}

#[test]
fn round_trip_boiler_temperature_reply() {
    let bytes = unhexify("310880194881172A050A0000230423171012000000C000BE002500C600C604F6000000000000000004F60000000000000000");
    let f = decode_frame(&bytes).unwrap();
    let again = encode_frame(&f).unwrap();
    assert_eq!(again, bytes);
    assert_eq!(decode_frame(&again).unwrap(), f);
}

#[test]
fn payload_length_matches_header() {
    for f in sample_frames() {
        let bytes = encode_frame(&f).unwrap();
        assert_eq!(bytes.len() - 7, f.metadata.length as usize - 6);
    }
}

#[test]
fn unknown_length_is_preserved() {
    let bytes = hex::decode("098020000101170a0b0c").unwrap();
    let f = decode_frame(&bytes).unwrap();
    assert_eq!(
        f.data,
        FrisquetData::Sonde(SondePayload::SondeUnknownMessage { data: vec![0x0a, 0x0b, 0x0c] })
    );
    assert_eq!(encode_frame(&f).unwrap(), bytes);
}

#[test]
fn unknown_boiler_length_is_preserved() {
    let bytes = hex::decode("0c0080000102030102030405ff").unwrap();
    let f = decode_frame(&bytes).unwrap();
    assert_eq!(
        f.data,
        FrisquetData::Chaudiere(ChaudierePayload::ChaudiereUnknownMessage {
            data: vec![1, 2, 3, 4, 5, 0xff]
        })
    );
    assert_eq!(encode_frame(&f).unwrap(), bytes);
}

#[test]
fn trailing_bytes_are_ignored() {
    let bytes = hex::decode("088020830001430000ffee").unwrap();
    let f = decode_frame(&bytes).unwrap();
    assert_eq!(f.data, FrisquetData::Sonde(SondePayload::SondeInitMessage { data: vec![0, 0] }));
    assert_eq!(encode_frame(&f).unwrap(), bytes[..9].to_vec());
}

#[test]
fn address_dispatch() {
    assert_eq!(source_family(0x08), Some(Family::Satellite));
    assert_eq!(source_family(0x09), Some(Family::Satellite));
    assert_eq!(source_family(0x0a), Some(Family::Satellite));
    assert_eq!(source_family(0x20), Some(Family::Sonde));
    assert_eq!(source_family(0x80), Some(Family::Chaudiere));
    for addr in [0x00u8, 0x07, 0x0b, 0x1f, 0x21, 0x7f, 0x81, 0xff] {
        assert_eq!(source_family(addr), None);
    }
}

#[test]
fn unknown_source_is_rejected() {
    let bytes = hex::decode("088030830001430000").unwrap();
    assert_eq!(decode_frame(&bytes), Err(FrameError::UnknownSource));
}

#[test]
fn short_header_is_rejected() {
    assert_eq!(decode_frame(&[]), Err(FrameError::MalformedHeader));
    assert_eq!(decode_frame(&[8, 0x80, 0x20, 0x83, 0, 1]), Err(FrameError::MalformedHeader));
    assert_eq!(
        decode_frame(&[5, 0x80, 0x20, 0x83, 0, 1, 67, 0, 0]),
        Err(FrameError::MalformedHeader)
    );
}

#[test]
fn truncated_payload_is_rejected() {
    let bytes = hex::decode("0880208300014300").unwrap();
    assert_eq!(decode_frame(&bytes), Err(FrameError::TruncatedPayload));
}

#[test]
fn inconsistent_frame_is_not_encoded() {
    let wrong_family = Frame {
        metadata: header(8, 0x80),
        data: FrisquetData::Sonde(SondePayload::SondeInitMessage { data: vec![0, 0] }),
    };
    assert_eq!(encode_frame(&wrong_family), Err(FrameError::Inconsistent));
    let wrong_length = Frame {
        metadata: header(9, 0x20),
        data: FrisquetData::Sonde(SondePayload::SondeInitMessage { data: vec![0, 0] }),
    };
    assert_eq!(encode_frame(&wrong_length), Err(FrameError::Inconsistent));
    let claimed_length = Frame {
        metadata: header(8, 0x20),
        data: FrisquetData::Sonde(SondePayload::SondeUnknownMessage { data: vec![0, 0] }),
    };
    assert_eq!(encode_frame(&claimed_length), Err(FrameError::Inconsistent));
    let wide_flags = Frame {
        metadata: header(23, 0x08),
        data: FrisquetData::Satellite(SatellitePayload::SatelliteSetTemperatureMessage {
            static_part: [0; 3],
            unknown1: 0,
            static_part_end: [0; 3],
            unknown2: 0,
            message_static_part: [0; 2],
            temperature: 0,
            consigne: 0,
            unknown_mode1: 8,
            hors_gel: false,
            unknown_mode2: 0,
            derogation: false,
            soleil: false,
            signature: [0; 2],
        }),
    };
    assert_eq!(encode_frame(&wide_flags), Err(FrameError::Inconsistent));
}

#[test]
fn flag_byte_fidelity() {
    let flags = ModeFlags {
        unknown_mode1: 0,
        hors_gel: true,
        unknown_mode2: 0,
        derogation: false,
        soleil: false,
    };
    let byte = pack_flags(flags);
    assert_eq!(byte, 0x10);
    assert_eq!(unpack_flags(byte), flags);
}

#[test]
fn flag_byte_layout() {
    let flags = ModeFlags {
        unknown_mode1: 0b101,
        hors_gel: false,
        unknown_mode2: 0b10,
        derogation: true,
        soleil: true,
    };
    assert_eq!(pack_flags(flags), 0b1010_1011);
    assert_eq!(unpack_flags(0b1010_1011), flags);
}

#[test]
fn scenario_boiler_temperature_reply_from_text() {
    let (metadata, data) = parse_data_from_str("310880194881172A050A0000230423171012000000C000BE002500C600C604F6000000000000000004F60000000000000000").unwrap();
    assert_eq!(metadata, FrisquetMetadata {
        length: 49,
        to_addr: 8,
        from_addr: 128,
        request_id: 6472,
        req_or_answer: 129,
        msg_type: 23,
    });
    match data {
        FrisquetData::Chaudiere(ChaudierePayload::ChaudiereSetTemperatureMessageResponse {
            temperature_exterieure,
            consigne,
            ..
        }) => {
            assert_eq!(temperature_exterieure, 10);
            assert_eq!(consigne, 190);
        }
        other => panic!("unexpected payload {other:?}"),
    }
}

#[test]
fn scenario_broadcast_from_text() {
    let (_, data) = parse_data_from_str("0b0080d3c802410405d7199e").unwrap();
    assert_eq!(
        data,
        FrisquetData::Chaudiere(ChaudierePayload::ChaudiereAssociationBroadcast {
            unknown: 4,
            network_id: [5, 215, 25, 158]
        })
    );
}

#[test]
fn scenario_probe_init_from_text() {
    let (_, data) = parse_data_from_str("088020830001430000").unwrap();
    assert_eq!(data, FrisquetData::Sonde(SondePayload::SondeInitMessage { data: vec![0, 0] }));
}

#[test]
fn parse_rejects_short_text() {
    assert_eq!(parse_data_from_str("0880"), Err(FrameError::MalformedHeader));
    assert_eq!(parse_data_from_str(""), Err(FrameError::MalformedHeader));
}

#[test]
fn hex_digits() {
    for c in ['0', '5', '9', 'a', 'f', 'A', 'F'] {
        assert!(is_hex_digit(c));
    }
    for c in ['g', 'G', ' ', '+', 'é', 'x'] {
        assert!(!is_hex_digit(c));
    }
}

#[test]
fn hex_byte_parsing() {
    assert_eq!(from_hex("ff").unwrap(), 255);
    assert_eq!(from_hex("0A").unwrap(), 10);
    assert_eq!(from_hex("+a").unwrap(), 10);
    assert_eq!(from_hex("000f").unwrap(), 15);
    assert!(from_hex("").is_err());
    assert!(from_hex("g1").is_err());
    assert!(from_hex("100").is_err());
    assert!(from_hex("-1").is_err());
}

#[test]
fn unhexify_stops_at_first_non_pair() {
    assert_eq!(unhexify("0a1Bzz33"), vec![0x0a, 0x1b]);
    assert_eq!(unhexify("abc"), vec![0xab]);
    assert_eq!(unhexify(""), Vec::<u8>::new());
    assert_eq!(unhexify("x0a"), Vec::<u8>::new());
}

#[test]
fn bcd_dates() {
    assert_eq!(bcd_value(0x23), Some(23));
    assert_eq!(bcd_value(0x04), Some(4));
    assert_eq!(bcd_value(0x99), Some(99));
    assert_eq!(bcd_value(0x4a), None);
    assert_eq!(bcd_value(0xa1), None);
}

#[test]
fn message_framing_takes_length_from_payload() {
    let init = FrisquetData::Sonde(SondePayload::SondeInitMessage { data: vec![0, 0] });
    assert_eq!(declared_length(&init), Some(8));
    assert_eq!(
        encode_message(0x20, 0x80, 33536, 1, 67, init).unwrap(),
        hex::decode("088020830001430000").unwrap()
    );
    let raw = FrisquetData::Satellite(SatellitePayload::SatelliteUnknowMessage { data: vec![1, 2, 3] });
    assert_eq!(declared_length(&raw), Some(9));
    assert_eq!(
        encode_message(0x08, 0x80, 1, 1, 1, raw).unwrap(),
        vec![9, 0x80, 0x08, 0, 1, 1, 1, 1, 2, 3]
    );
    let clash = FrisquetData::Sonde(SondePayload::SondeUnknownMessage { data: vec![0, 0] });
    assert_eq!(declared_length(&clash), None);
    assert_eq!(encode_message(0x20, 0x80, 1, 1, 1, clash), Err(FrameError::Inconsistent));
    let bad_init = FrisquetData::Sonde(SondePayload::SondeInitMessage { data: vec![0] });
    assert_eq!(declared_length(&bad_init), None);
    let wrong_family = FrisquetData::Sonde(SondePayload::SondeInitMessage { data: vec![0, 0] });
    assert_eq!(encode_message(0x80, 0x20, 1, 1, 1, wrong_family), Err(FrameError::Inconsistent));
    let too_long = FrisquetData::Chaudiere(ChaudierePayload::ChaudiereUnknownMessage { data: vec![0; 250] });
    assert_eq!(declared_length(&too_long), None);
}

#[test]
fn parse_rejects_malformed_hex() {
    assert_eq!(parse_data_from_str("0b0080d3c802410405d7199ezz"), Err(FrameError::MalformedHex));
    assert_eq!(parse_data_from_str("0b0080d3c802410405d7199e0"), Err(FrameError::MalformedHex));
    assert_eq!(parse_data_from_str("0b0080d3c8 02410405d7199e"), Err(FrameError::MalformedHex));
    assert!(parse_data_from_str("0B0080D3C802410405D7199E").is_ok());
}
