use frisquet::association::{report_frame, Association, AssociationState, Event, Operation};
use frisquet::messages::{DataMessage, Listen, SendData, SetNetworkId, Sleep};
use frisquet::proto::{decode_frame, FrisquetData};
use frisquet::serial::LineReader;
use frisquet::sonde::SondePayload;

fn broadcast() -> Vec<u8> {
    hex::decode("0b0080d3c802410405d7199e").unwrap()
}

#[test]
fn handshake_answers_broadcast() {
    let mut a = Association::new(5, 180);
    a.state = AssociationState::AwaitingBroadcast;
    let ops = a.step(Event::Received(broadcast()));
    assert_eq!(a.state, AssociationState::Announced { network_id: [5, 215, 25, 158] });
    assert_eq!(ops.len(), 1);
    let sent = match &ops[0] {
        Operation::Send(bytes) => bytes.clone(),
        other => panic!("unexpected operation {other:?}"),
    };
    let frame = decode_frame(&sent).unwrap();
    assert_eq!(frame.metadata.req_or_answer, 0x02 | 0x80);
    assert_eq!(frame.metadata.request_id, 54216);
    assert_eq!(frame.metadata.msg_type, 65);
    assert_eq!(frame.metadata.from_addr, 0x20);
    assert_eq!(frame.metadata.to_addr, 0x80);
    assert_eq!(
        frame.data,
        FrisquetData::Sonde(SondePayload::SondeAssociationAnnounceMessage { data: vec![] })
    );
    assert_eq!(sent, hex::decode("068020d3c88241").unwrap());
}

#[test]
fn handshake_ignores_other_frames_while_awaiting_broadcast() {
    let mut a = Association::new(5, 180);
    a.state = AssociationState::AwaitingBroadcast;
    let ops = a.step(Event::Received(hex::decode("0f2080ba408117082304051131172803").unwrap()));
    assert_eq!(a.state, AssociationState::AwaitingBroadcast);
    assert_eq!(ops, vec![Operation::Receive]);
}

#[test]
fn handshake_full_run() {
    let mut a = Association::new(3, 180);
    let ops = a.step(Event::Completed);
    assert_eq!(a.state, AssociationState::AwaitingBroadcast);
    assert_eq!(ops, vec![Operation::SetNetworkId([0xff; 4]), Operation::Receive]);

    let ops = a.step(Event::Received(broadcast()));
    assert_eq!(ops.len(), 1);

    let ops = a.step(Event::Completed);
    assert_eq!(a.state, AssociationState::NetworkSwitched);
    assert_eq!(ops, vec![Operation::SetNetworkId([5, 215, 25, 158]), Operation::Wait(200)]);

    let ops = a.step(Event::Completed);
    assert_eq!(a.state, AssociationState::Initialized);
    assert_eq!(
        ops,
        vec![
            Operation::Send(hex::decode("088020830001430000").unwrap()),
            Operation::Wait(200)
        ]
    );

    let ops = a.step(Event::Completed);
    assert_eq!(a.state, AssociationState::Confirming { attempts: 1 });
    assert_eq!(
        ops,
        vec![
            Operation::Wait(1000),
            Operation::Send(hex::decode("118020878401179c540004a02900010200b4").unwrap()),
            Operation::Receive
        ]
    );

    let ops = a.step(Event::Received(hex::decode("06802020948241").unwrap()));
    assert_eq!(a.state, AssociationState::Confirming { attempts: 2 });
    assert_eq!(ops.len(), 3);

    let ops = a.step(Event::Received(hex::decode("0f2080ba408117082304051131172803").unwrap()));
    assert_eq!(a.state, AssociationState::Paired);
    assert!(ops.is_empty());
    assert!(a.is_finished());
    assert!(a.step(Event::Completed).is_empty());
    assert_eq!(a.state, AssociationState::Paired);
}

#[test]
fn handshake_times_out() {
    let mut a = Association::new(2, -15);
    a.state = AssociationState::Initialized;
    assert_eq!(a.step(Event::Completed).len(), 3);
    let probe_frame = hex::decode("088020830001430000").unwrap();
    assert_eq!(a.step(Event::Received(probe_frame.clone())).len(), 3);
    assert_eq!(a.state, AssociationState::Confirming { attempts: 2 });
    assert!(a.step(Event::Received(probe_frame)).is_empty());
    assert_eq!(a.state, AssociationState::TimedOut);
}

#[test]
fn handshake_fails_on_transport_error() {
    let mut a = Association::new(2, 0);
    a.step(Event::Completed);
    assert!(a.step(Event::TransportError).is_empty());
    assert_eq!(a.state, AssociationState::Failed);
    assert!(a.is_finished());
}

#[test]
fn handshake_ignores_unexpected_event() {
    let mut a = Association::new(2, 0);
    a.state = AssociationState::NetworkSwitched;
    assert!(a.step(Event::Received(broadcast())).is_empty());
    assert_eq!(a.state, AssociationState::NetworkSwitched);
}

#[test]
fn commands_carry_hex_text() {
    let nid = SetNetworkId::from_id(&[5, 215, 25, 158]);
    assert_eq!(nid.network_id, "05d7199e");
    assert_eq!(nid.serial_line(), "NID: 05d7199e\n");
    let send = SendData::from_frame(&[0x08, 0x80, 0x20, 0xab]);
    assert_eq!(send.payload, "088020ab");
    assert_eq!(send.serial_line(), "CMD: 088020ab\n");
    assert_eq!(Listen {}.serial_line(), "LST:\n");
    assert_eq!(Sleep {}.serial_line(), "SLP:\n");
}

#[test]
fn data_message_decodes_hex() {
    let m = DataMessage { data: "0B0080d3C8".to_string() };
    assert_eq!(m.frame_bytes(), Some(vec![0x0b, 0x00, 0x80, 0xd3, 0xc8]));
    assert_eq!(DataMessage { data: "0b0".to_string() }.frame_bytes(), None);
    assert_eq!(DataMessage { data: "zz".to_string() }.frame_bytes(), None);
    assert_eq!(DataMessage { data: String::new() }.frame_bytes(), Some(vec![]));
}

#[test]
fn serial_lines_become_frames() {
    let mut r = LineReader::new();
    r.feed(b"0880208300\r");
    assert_eq!(r.next_packet(), None);
    r.feed(b"01430000\r\nnot hex\n\r\n0b00");
    assert_eq!(r.next_packet(), Some(hex::decode("088020830001430000").unwrap()));
    assert_eq!(r.next_packet(), None);
    r.feed(b"80\n");
    assert_eq!(r.next_packet(), Some(vec![0x0b, 0x00, 0x80]));
    assert_eq!(r.next_packet(), None);
    assert!(r.buffer.is_empty());
}

#[test]
fn standalone_report_frame() {
    let bytes = report_frame(6648, 190);
    assert_eq!(bytes, hex::decode("11802019f801179c540004a02900010200be").unwrap());
    let frame = decode_frame(&bytes).unwrap();
    assert_eq!(frame.metadata.request_id, 6648);
    assert_eq!(
        frame.data,
        FrisquetData::Sonde(SondePayload::SondeTemperatureMessage {
            data: [156, 84, 0, 4, 160, 41, 0, 1, 2],
            temperature: 190
        })
    );
}
