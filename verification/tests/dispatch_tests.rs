use skylane_protocols::codec::{encode_message, BytesCursor, FdsCursor};
use skylane_protocols::dispatch::Handler;
use skylane_protocols::registry::{
    encode_announce, encode_bind, encode_destroy, RegistryDispatcher, RegistryObject,
    ERR_NULL_TARGET,
};
use skylane_protocols::types::{Bundle, DispatchError, ObjectId, OutboundMessage, Task};

type RegistryHandler = Handler<RegistryObject, RegistryDispatcher>;

/// Runs one whole message (bytes produced by an encoder, handles on the side
/// channel) through a handler, the way the transport would.
fn drive(
    handler: &mut RegistryHandler,
    msg: Vec<u8>,
    fds: Vec<i32>,
) -> Result<Task, DispatchError> {
    let mut bytes_buf = BytesCursor::new(msg);
    let mut fds_buf = FdsCursor::new(fds);
    let header = bytes_buf.read_header().expect("message must carry a header");
    let mut bundle = Bundle::new();
    handler.dispatch(&mut bundle, &header, &mut bytes_buf, &mut fds_buf)
}

#[test]
fn bind_invokes_the_method_with_the_decoded_value() {
    let mut handler = RegistryHandler::new(RegistryObject::new());
    let msg = encode_bind(ObjectId::new(3), 7);
    let r = drive(&mut handler, msg, Vec::new());
    assert_eq!(r, Ok(Task::Continue));
    assert_eq!(handler.object().bound(), &vec![7]);
}

#[test]
fn unknown_opcode_is_rejected_and_the_object_untouched() {
    let mut handler = RegistryHandler::new(RegistryObject::new());
    let msg = encode_message(3, 5, &Vec::new());
    let r = drive(&mut handler, msg, Vec::new());
    assert_eq!(
        r,
        Err(DispatchError::UnknownOpcode { object_id: 3, opcode: 5 })
    );
    assert!(handler.object().bound().is_empty());
    assert!(handler.object().announced().is_empty());
    assert!(handler.object().is_alive());
}

#[test]
fn destroy_returns_the_destroy_directive() {
    let mut handler = RegistryHandler::new(RegistryObject::new());
    let msg = encode_destroy(ObjectId::new(3));
    let r = drive(&mut handler, msg, Vec::new());
    assert_eq!(r, Ok(Task::Destroy));
    assert!(!handler.object().is_alive());
}

#[test]
fn double_destroy_terminates_the_connection() {
    let mut handler = RegistryHandler::new(RegistryObject::new());
    let first = drive(&mut handler, encode_destroy(ObjectId::new(3)), Vec::new());
    assert_eq!(first, Ok(Task::Destroy));
    let second = drive(&mut handler, encode_destroy(ObjectId::new(3)), Vec::new());
    assert_eq!(second, Ok(Task::Terminate));
}

#[test]
fn announce_round_trips_every_argument_category() {
    let mut handler = RegistryHandler::new(RegistryObject::new());
    let label = b"name".to_vec();
    let data = vec![1, 2, 3];
    let (msg, fds) = encode_announce(ObjectId::new(3), &label, &data, ObjectId::new(9), 5);
    let r = drive(&mut handler, msg, fds);
    assert_eq!(r, Ok(Task::Continue));
    assert_eq!(
        handler.object().announced(),
        &vec![(label, data, ObjectId::new(9), 5)]
    );
}

#[test]
fn announce_with_null_target_is_a_method_failure() {
    let mut handler = RegistryHandler::new(RegistryObject::new());
    let (msg, fds) = encode_announce(
        ObjectId::new(3),
        &b"name".to_vec(),
        &Vec::new(),
        ObjectId::new(0),
        5,
    );
    let r = drive(&mut handler, msg, fds);
    assert_eq!(r, Err(DispatchError::MethodFailure { code: ERR_NULL_TARGET }));
    assert!(handler.object().announced().is_empty());
}

#[test]
fn announce_without_its_handle_is_malformed() {
    let mut handler = RegistryHandler::new(RegistryObject::new());
    let (msg, _fds) = encode_announce(
        ObjectId::new(3),
        &b"name".to_vec(),
        &vec![1],
        ObjectId::new(9),
        5,
    );
    let r = drive(&mut handler, msg, Vec::new());
    assert_eq!(
        r,
        Err(DispatchError::MalformedArguments { object_id: 3, opcode: 2 })
    );
    assert!(handler.object().announced().is_empty());
}

/// Rebuilds a message with its payload truncated to `keep` bytes and the
/// header's size field adjusted to match, as a misbehaving peer would frame
/// it.
fn truncate_message(msg: &[u8], keep: usize) -> Vec<u8> {
    let object_id = u32::from_le_bytes([msg[0], msg[1], msg[2], msg[3]]);
    let opcode = u16::from_le_bytes([msg[4], msg[5]]);
    let payload = msg[8..8 + keep].to_vec();
    let out = encode_message(object_id, opcode, &payload);
    assert_eq!(out.len(), 8 + keep);
    out
}

#[test]
fn truncated_bind_is_malformed_and_leaves_the_object_alone() {
    let mut handler = RegistryHandler::new(RegistryObject::new());
    let full = encode_bind(ObjectId::new(3), 7);
    let msg = truncate_message(&full, 2);
    let r = drive(&mut handler, msg, Vec::new());
    assert_eq!(
        r,
        Err(DispatchError::MalformedArguments { object_id: 3, opcode: 0 })
    );
    assert!(handler.object().bound().is_empty());
}

#[test]
fn announce_truncated_at_every_cut_is_malformed() {
    let label = b"name".to_vec();
    let data = vec![1, 2, 3, 4, 5];
    let (full, fds) = encode_announce(ObjectId::new(3), &label, &data, ObjectId::new(9), 5);
    let payload_len = full.len() - 8;
    for keep in 0..payload_len {
        let mut handler = RegistryHandler::new(RegistryObject::new());
        let msg = truncate_message(&full, keep);
        let r = drive(&mut handler, msg, fds.clone());
        assert_eq!(
            r,
            Err(DispatchError::MalformedArguments { object_id: 3, opcode: 2 }),
            "payload cut to {} bytes must be malformed",
            keep
        );
        assert!(handler.object().announced().is_empty());
        assert!(handler.object().is_alive());
    }
}

#[test]
fn dispatch_leaves_the_cursor_at_the_end_of_the_message() {
    // Two messages in one buffer: an unknown opcode, then a bind.
    let mut first = encode_message(3, 5, &vec![9, 9, 9, 9]);
    let second = encode_bind(ObjectId::new(3), 7);
    first.extend_from_slice(&second);
    let mut handler = RegistryHandler::new(RegistryObject::new());
    let mut bytes_buf = BytesCursor::new(first);
    let mut fds_buf = FdsCursor::new(Vec::new());
    let mut bundle = Bundle::new();

    let h1 = bytes_buf.read_header().expect("first header");
    let r1 = handler.dispatch(&mut bundle, &h1, &mut bytes_buf, &mut fds_buf);
    assert!(r1.is_err());
    assert_eq!(bytes_buf.position(), 12);

    let h2 = bytes_buf.read_header().expect("second header");
    let r2 = handler.dispatch(&mut bundle, &h2, &mut bytes_buf, &mut fds_buf);
    assert_eq!(r2, Ok(Task::Continue));
    assert_eq!(handler.object().bound(), &vec![7]);
}

#[test]
fn handlers_built_from_equal_objects_behave_identically() {
    let mut h1 = RegistryHandler::new(RegistryObject::new());
    let mut h2 = RegistryHandler::new(RegistryObject::new());
    let messages = vec![
        encode_bind(ObjectId::new(3), 7),
        encode_message(3, 5, &Vec::new()),
        encode_destroy(ObjectId::new(3)),
        encode_destroy(ObjectId::new(3)),
    ];
    for msg in messages {
        let r1 = drive(&mut h1, msg.clone(), Vec::new());
        let r2 = drive(&mut h2, msg, Vec::new());
        assert_eq!(r1, r2);
    }
    assert_eq!(h1.object().bound(), h2.object().bound());
    assert_eq!(h1.object().is_alive(), h2.object().is_alive());
}

#[test]
fn bundle_queues_outbound_messages_in_order() {
    let mut bundle = Bundle::new();
    assert!(bundle.messages().is_empty());
    bundle.send(OutboundMessage { bytes: vec![1, 2], fds: vec![7] });
    bundle.send(OutboundMessage { bytes: vec![3], fds: Vec::new() });
    assert_eq!(bundle.messages().len(), 2);
    assert_eq!(bundle.messages()[0].bytes, vec![1, 2]);
    assert_eq!(bundle.messages()[0].fds, vec![7]);
    assert_eq!(bundle.messages()[1].bytes, vec![3]);
    assert!(bundle.messages()[1].fds.is_empty());
}
