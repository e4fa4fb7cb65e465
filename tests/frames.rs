use frisquet::chaudiere::ChaudierePayload;
use frisquet::common::unhexify;
use frisquet::proto::{decode_frame, encode_frame, FrisquetData, FrisquetMetadata};
use frisquet::satellite::SatellitePayload;
use frisquet::sonde::SondePayload;

#[test]
fn chaudiere_test() {
    let payload = unhexify("310880194881172A050A0000230423171012000000C000BE002500C600C604F6000000000000000004F60000000000000000");

    let frame = decode_frame(&payload).unwrap();
    let metadata = frame.metadata;
    let message = &frame.data;

    assert_eq!(
        metadata,
        FrisquetMetadata {
            length: 49,
            to_addr: 8,
            from_addr: 128,
            request_id: 6472,
            req_or_answer: 129,
            msg_type: 23,
        }
    );
    assert_eq!(
        *message,
        FrisquetData::Chaudiere(ChaudierePayload::ChaudiereSetTemperatureMessageResponse {
            unknown_start: [42, 5],
            temperature_exterieure: 10,
            unknown: 0,
            year: 0x23,
            month: 0x4,
            day: 0x23,
            hour: 23,
            minute: 16,
            second: 18,
            unknown_1: [0, 0, 0],
            temperature: 192,
            consigne: 190,
            unknown_2: [37, 0],
            signature: [198, 0, 198],
            static_part_2: [4, 246, 0, 0, 0, 0, 0, 0, 0, 0, 4, 246, 0, 0, 0, 0, 0, 0, 0, 0],
        })
    );

    let res = encode_frame(&frame).unwrap();
    assert_eq!(res, payload);
    assert_eq!(res.len() - 1, metadata.length as usize)
}

#[test]
fn test_broadcast() {
    let payload = hex::decode("0b0080d3c802410405d7199e").unwrap();

    let frame = decode_frame(&payload).unwrap();
    let metadata = frame.metadata;
    let message = frame.data;
    assert_eq!(
        metadata,
        FrisquetMetadata {
            length: 11,
            to_addr: 0,
            from_addr: 128,
            request_id: 54216,
            req_or_answer: 2,
            msg_type: 65
        }
    );
    assert_eq!(
        message,
        FrisquetData::Chaudiere(ChaudierePayload::ChaudiereAssociationBroadcast {
            unknown: 4,
            network_id: [5, 215, 25, 158]
        })
    );
    println!("{metadata:?}");
    println!("{message:?}");
}

#[test]
fn test_response() {
    let payload = hex::decode("0f2080ba408117082304051131172803").unwrap();

    let frame = decode_frame(&payload).unwrap();
    let metadata = frame.metadata;
    let message = frame.data;
    assert_eq!(
        metadata,
        FrisquetMetadata {
            length: 15,
            to_addr: 32,
            from_addr: 128,
            request_id: 47680,
            req_or_answer: 129,
            msg_type: 23
        }
    );
    assert_eq!(
        message,
        FrisquetData::Chaudiere(ChaudierePayload::ChaudiereSondeResponseMessage {
            unknown_start: 8,
            year: 35,
            month: 4,
            day: 5,
            hour: 17,
            minute: 49,
            second: 23,
            data: [40, 3].to_vec()
        })
    );
    println!("{metadata:?}");
    println!("{message:?}");
}

#[test]
fn test_satellite_set_temperature_message() {
    let payload = unhexify("17800819E40117A0290015A02F00040800B200AA002400C6");
    let frame = decode_frame(&payload).unwrap();
    let metadata = frame.metadata;
    let mmm = &frame.data;
    println!("Parsed input: {metadata:?}");
    println!("Parsed input: {mmm:?}");
}

#[test]
fn sonde_test() {
    let payload = unhexify("118020ba4001179c540004a029000102005c");

    let frame = decode_frame(&payload).unwrap();
    let metadata = frame.metadata;

    assert_eq!(
        metadata,
        FrisquetMetadata {
            length: 17,
            to_addr: 128,
            from_addr: 32,
            request_id: 47680,
            req_or_answer: 1,
            msg_type: 23
        }
    );
    assert_eq!(
        frame.data,
        FrisquetData::Sonde(SondePayload::SondeTemperatureMessage {
            data: [156, 84, 0, 4, 160, 41, 0, 1, 2],
            temperature: 92
        })
    );

    let res = encode_frame(&frame).unwrap();
    assert_eq!(res, payload);
    assert_eq!(res.len() - 1, metadata.length as usize)
}

#[test]
fn test_announce_response() {
    let payload = hex::decode("06802020948241").unwrap();

    let frame = decode_frame(&payload).unwrap();
    let metadata = frame.metadata;
    let message = frame.data;
    assert_eq!(
        metadata,
        FrisquetMetadata {
            length: 6,
            to_addr: 128,
            from_addr: 32,
            request_id: 8340,
            req_or_answer: 130,
            msg_type: 65
        }
    );
    assert_eq!(
        message,
        FrisquetData::Sonde(SondePayload::SondeAssociationAnnounceMessage { data: vec![] })
    );
    println!("{metadata:?}");
    println!("{message:?}");
}

#[test]
fn test_init() {
    let payload = hex::decode("088020830001430000").unwrap();

    let frame = decode_frame(&payload).unwrap();
    let metadata = frame.metadata;
    let message = frame.data;
    assert_eq!(
        metadata,
        FrisquetMetadata {
            length: 8,
            to_addr: 128,
            from_addr: 32,
            request_id: 33536,
            req_or_answer: 1,
            msg_type: 67
        }
    );
    assert_eq!(message, FrisquetData::Sonde(SondePayload::SondeInitMessage { data: vec![0, 0] }));
    println!("{metadata:?}");
    println!("{message:?}");
    let frame = decode_frame(&payload).unwrap();
    let metadata = frame.metadata;
    let message = frame.data;
    assert_eq!(
        metadata,
        FrisquetMetadata {
            length: 8,
            to_addr: 128,
            from_addr: 32,
            request_id: 33536,
            req_or_answer: 1,
            msg_type: 67
        }
    );
    assert_eq!(message, FrisquetData::Sonde(SondePayload::SondeInitMessage { data: vec![0, 0] }));
    println!("{metadata:?}");
    println!("{message:?}");
}

#[test]
fn satellite_set_temperature_fields() {
    let payload = unhexify("17800819E40117A0290015A02F00040800B200AA002400C6");
    let frame = decode_frame(&payload).unwrap();
    assert_eq!(
        frame.metadata,
        FrisquetMetadata {
            length: 23,
            to_addr: 128,
            from_addr: 8,
            request_id: 6628,
            req_or_answer: 1,
            msg_type: 23
        }
    );
    assert_eq!(
        frame.data,
        FrisquetData::Satellite(SatellitePayload::SatelliteSetTemperatureMessage {
            static_part: [0xA0, 0x29, 0x00],
            unknown1: 0x15,
            static_part_end: [0xA0, 0x2F, 0x00],
            unknown2: 0x04,
            message_static_part: [0x08, 0x00],
            temperature: 178,
            consigne: 170,
            unknown_mode1: 1,
            hors_gel: false,
            unknown_mode2: 1,
            derogation: false,
            soleil: false,
            signature: [0x00, 0xC6],
        })
    );
    assert_eq!(encode_frame(&frame).unwrap(), payload);
}
