use shared_state_machine::framing::{decode_frame, encode_frame};
use shared_state_machine::gate::{GateEvent, ReaderGate};
use shared_state_machine::messages::{ClientMessage, ServerMessage, UMessage};
use shared_state_machine::relay::{
    handle_incoming_message, read_group_id, Group, Incoming, ServerError, Step,
};
use shared_state_machine::replica::{
    check_join_reply, publish_step, to_connection_error, to_internal_error, to_server_error,
    update_message, ClientReplica, PublishStep, ResponseType, SError,
};
use shared_state_machine::umap::{UMap, UMapUpdate};

fn update(packet_id: u32, payload: &str) -> UMessage {
    UMessage::new(1, packet_id, payload.to_string())
}

#[test]
fn frame_has_big_endian_length_prefix() {
    assert_eq!(encode_frame(&b"abc".to_vec()), Some(vec![0, 0, 0, 3, 97, 98, 99]));
    assert_eq!(encode_frame(&Vec::new()), Some(vec![0, 0, 0, 0]));
    let long = vec![7u8; 300];
    let framed = encode_frame(&long).unwrap();
    assert_eq!(&framed[..4], &[0, 0, 1, 44]);
    assert_eq!(framed.len(), 304);
}

#[test]
fn frame_round_trip_keeps_what_follows() {
    let mut buffer = encode_frame(&b"hello".to_vec()).unwrap();
    buffer.extend_from_slice(&encode_frame(&b"world".to_vec()).unwrap());
    buffer.extend_from_slice(&[0, 0]);
    assert_eq!(decode_frame(&mut buffer), Some(b"hello".to_vec()));
    assert_eq!(decode_frame(&mut buffer), Some(b"world".to_vec()));
    assert_eq!(decode_frame(&mut buffer), None);
    assert_eq!(buffer, vec![0, 0]);
}

#[test]
fn partial_frame_is_left_in_the_buffer() {
    let mut buffer = vec![0, 0, 0, 5, 1, 2];
    assert_eq!(decode_frame(&mut buffer), None);
    assert_eq!(buffer, vec![0, 0, 0, 5, 1, 2]);
    buffer.extend_from_slice(&[3, 4, 5]);
    assert_eq!(decode_frame(&mut buffer), Some(vec![1, 2, 3, 4, 5]));
    assert!(buffer.is_empty());
}

#[test]
fn group_accepts_only_the_next_packet_id() {
    let mut group = Group::new();
    assert!(matches!(group.submit(update(1, "a")), ServerMessage::Error));
    assert_eq!(group.packet_counter(), 0);
    assert!(matches!(group.submit(update(0, "a")), ServerMessage::Correct));
    assert!(matches!(group.submit(update(0, "b")), ServerMessage::Error));
    assert!(matches!(group.submit(update(1, "b")), ServerMessage::Correct));
    assert_eq!(group.packet_counter(), 2);
    let history = group.history();
    assert_eq!(history.len(), 2);
    for (i, message) in history.iter().enumerate() {
        match message {
            ServerMessage::Update(m) => assert_eq!(m.packet_id as usize, i),
            _ => panic!("history holds only updates"),
        }
    }
}

#[test]
fn join_is_the_only_first_message() {
    assert!(matches!(read_group_id(Incoming::Message(ClientMessage::JoinGroup(4))), Ok(4)));
    assert!(matches!(
        read_group_id(Incoming::Message(ClientMessage::Update(update(0, "x")))),
        Err(ServerError::CommunicationError(_))
    ));
    assert!(matches!(read_group_id(Incoming::Malformed), Err(ServerError::CommunicationError(_))));
    assert!(matches!(read_group_id(Incoming::Closed), Err(ServerError::CommunicationError(_))));
    assert!(matches!(read_group_id(Incoming::Failed), Err(ServerError::ReadError(_))));
}

#[test]
fn relay_broadcasts_accepted_updates_and_rejects_stale_ones() {
    let mut group = Group::new();
    let step = handle_incoming_message(Incoming::Message(ClientMessage::Update(update(0, "u1"))), &mut group);
    match step {
        Ok(Step::Respond { broadcast: Some(ServerMessage::Update(m)), response: ServerMessage::Correct }) => {
            assert_eq!(m.packet_id, 0);
            assert_eq!(m.update, "u1");
        }
        _ => panic!("the update should have been accepted"),
    }
    let step = handle_incoming_message(Incoming::Message(ClientMessage::Update(update(0, "u2"))), &mut group);
    assert!(matches!(step, Ok(Step::Respond { broadcast: None, response: ServerMessage::Error })));
    assert_eq!(group.packet_counter(), 1);
    assert!(matches!(
        handle_incoming_message(Incoming::Message(ClientMessage::JoinGroup(1)), &mut group),
        Err(ServerError::CommunicationError(_))
    ));
    assert!(matches!(handle_incoming_message(Incoming::Malformed, &mut group), Err(ServerError::ReadError(_))));
    assert!(matches!(handle_incoming_message(Incoming::Failed, &mut group), Err(ServerError::ReadError(_))));
    assert!(matches!(handle_incoming_message(Incoming::Closed, &mut group), Ok(Step::Close)));
    assert_eq!(group.packet_counter(), 1);
}

#[test]
fn replica_applies_packets_in_order_only() {
    let mut replica: ClientReplica<UMap<String, i32>> = ClientReplica::new();
    assert_eq!(replica.last_packet_number(), 0);
    let out_of_order = replica.apply_remote(1, UMapUpdate::Insert("a".to_string(), 1));
    assert!(matches!(out_of_order, Err(SError::ServerError(_))));
    assert_eq!(replica.last_packet_number(), 0);
    assert!(replica.apply_remote(0, UMapUpdate::Insert("a".to_string(), 1)).is_ok());
    assert_eq!(replica.last_packet_number(), 1);
    assert_eq!(replica.get().get(&"a".to_string()), Some(1));
}

#[test]
fn replica_refuses_an_update_that_does_not_apply() {
    let mut replica: ClientReplica<UMap<String, UMap<i32, i32>>> = ClientReplica::new();
    let nested = UMapUpdate::Nested("missing".to_string(), UMapUpdate::Insert(1, 1));
    assert!(matches!(replica.apply_remote(0, nested), Err(SError::InternalError(_))));
    assert_eq!(replica.last_packet_number(), 0);
    assert!(replica.get().get(&"missing".to_string()).is_none());
}

#[test]
fn join_reply_and_publish_decisions() {
    assert!(check_join_reply(Some(ServerMessage::Correct)).is_ok());
    assert!(matches!(check_join_reply(Some(ServerMessage::Error)), Err(SError::ConnectionError(_))));
    assert!(matches!(check_join_reply(None), Err(SError::ConnectionError(_))));
    assert!(matches!(publish_step(Some(ResponseType::Accepted)), PublishStep::Done));
    assert!(matches!(publish_step(Some(ResponseType::Rejected)), PublishStep::Retry));
    assert!(matches!(publish_step(None), PublishStep::Fail(SError::InternalError(_))));
    match update_message(3, 9, "p".to_string()) {
        ClientMessage::Update(m) => {
            assert_eq!((m.group_id, m.packet_id, m.update.as_str()), (3, 9, "p"));
        }
        _ => panic!("an update message was expected"),
    }
}

#[test]
fn error_constructors_keep_their_text() {
    assert!(matches!(to_connection_error("a".to_string()), SError::ConnectionError(m) if m == "a"));
    assert!(matches!(to_server_error("b".to_string()), SError::ServerError(m) if m == "b"));
    assert!(matches!(to_internal_error("c".to_string()), SError::InternalError(m) if m == "c"));
}

#[test]
fn gate_defers_a_second_rejection_until_an_update() {
    let mut gate = ReaderGate::new();
    assert!(gate.on_event(GateEvent::Error) == Some(ResponseType::Rejected));
    assert!(gate.on_event(GateEvent::Error).is_none());
    assert!(gate.defer_rejected);
    assert!(gate.on_event(GateEvent::Update) == Some(ResponseType::Rejected));
    assert!(!gate.defer_rejected);
    assert!(!gate.can_send_rejected);
    assert!(gate.on_event(GateEvent::Correct) == Some(ResponseType::Accepted));
    assert!(gate.on_event(GateEvent::Update).is_none());
    assert!(gate.can_send_rejected);
    assert!(gate.on_event(GateEvent::Error) == Some(ResponseType::Rejected));
}
