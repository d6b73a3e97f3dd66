use std::cell::Cell;
use swoncord::ipc::{
    classify_reply, decode_header, encode_frame, read_reply, remaining, socket_dir_vars,
    socket_dirs, time_left, IpcError, ReplyAction, MAX_FRAME, OP_CLOSE, OP_FRAME, OP_PING,
};
use swoncord::transport::Clock;

struct FixedClock(Cell<u64>);
impl Clock for FixedClock {
    fn now(&self) -> u64 {
        self.0.get()
    }
}

#[test]
fn frames_carry_little_endian_opcode_and_length() {
    let frame = encode_frame(1, b"{}").unwrap();
    assert_eq!(frame, vec![1, 0, 0, 0, 2, 0, 0, 0, b'{', b'}']);
    let header = decode_header(&frame[..8]).unwrap();
    assert_eq!(header.opcode, 1);
    assert_eq!(header.length, 2);
}

#[test]
fn oversized_frames_are_refused_both_ways() {
    let body = vec![b' '; MAX_FRAME + 1];
    assert_eq!(encode_frame(1, &body), Err(IpcError::FrameTooLarge));
    assert!(encode_frame(1, &body[..MAX_FRAME]).is_ok());
    let mut header = Vec::new();
    header.extend(1u32.to_le_bytes());
    header.extend(u32::MAX.to_le_bytes());
    assert_eq!(decode_header(&header), Err(IpcError::FrameTooLarge));
}

#[test]
fn deadlines_end_when_no_time_is_left() {
    assert_eq!(time_left(100, 40), Ok(60));
    assert_eq!(time_left(100, 100), Err(IpcError::TimedOut));
    assert_eq!(time_left(100, 140), Err(IpcError::TimedOut));
    let clock = FixedClock(Cell::new(10));
    assert_eq!(remaining(&clock, 15), Ok(5));
    clock.0.set(15);
    assert_eq!(remaining(&clock, 15), Err(IpcError::TimedOut));
}

#[test]
fn replies_are_classified_by_opcode_event_and_nonce() {
    assert_eq!(classify_reply(3, Some("1"), None, None, None), ReplyAction::Pong);
    assert_eq!(
        classify_reply(2, None, None, None, None),
        ReplyAction::Fail(IpcError::Closed)
    );
    assert_eq!(
        classify_reply(1, None, Some("READY"), None, None),
        ReplyAction::Done
    );
    assert_eq!(
        classify_reply(1, None, Some("ERROR"), None, None),
        ReplyAction::Fail(IpcError::HandshakeRejected)
    );
    assert_eq!(
        classify_reply(1, Some("7"), None, Some("7"), Some("SET_ACTIVITY")),
        ReplyAction::Done
    );
    assert_eq!(
        classify_reply(1, Some("7"), Some("ERROR"), Some("7"), Some("SET_ACTIVITY")),
        ReplyAction::Fail(IpcError::ActivityRejected)
    );
    assert_eq!(
        classify_reply(1, Some("7"), None, Some("7"), Some("OTHER")),
        ReplyAction::Fail(IpcError::UnexpectedCommand)
    );
    assert_eq!(
        classify_reply(1, Some("7"), None, Some("unrelated"), Some("SET_ACTIVITY")),
        ReplyAction::Wait
    );
    assert_eq!(classify_reply(4, Some("7"), None, None, None), ReplyAction::Wait);
    assert_eq!(
        classify_reply(9, None, None, None, None),
        ReplyAction::Fail(IpcError::UnexpectedOpcode(9))
    );
}

#[test]
fn discord_sockets_are_numbered_from_zero_to_nine() {
    let names = swoncord::ipc::socket_names();
    assert_eq!(names.len(), 10);
    assert_eq!(names[0], "discord-ipc-0");
    assert_eq!(names[9], "discord-ipc-9");
}

#[test]
fn replies_are_read_from_their_json_body() {
    assert_eq!(
        read_reply(OP_FRAME, None, br#"{"cmd":"DISPATCH","evt":"READY","data":{}}"#),
        Some(ReplyAction::Done)
    );
    assert_eq!(
        read_reply(OP_FRAME, Some("7"), br#"{"cmd":"SET_ACTIVITY","nonce":"7","evt":null}"#),
        Some(ReplyAction::Done)
    );
    assert_eq!(
        read_reply(OP_FRAME, Some("7"), br#"{"cmd":"SET_ACTIVITY","nonce":"7","evt":"ERROR"}"#),
        Some(ReplyAction::Fail(IpcError::ActivityRejected))
    );
    assert_eq!(
        read_reply(OP_FRAME, Some("7"), br#"{"cmd":"SET_ACTIVITY","nonce":"6"}"#),
        Some(ReplyAction::Wait)
    );
    assert_eq!(read_reply(OP_FRAME, None, br#"{"evt":"ERROR"}"#), Some(ReplyAction::Fail(IpcError::HandshakeRejected)));
    assert_eq!(read_reply(OP_PING, None, b"[1, 2]"), Some(ReplyAction::Pong));
}

#[test]
fn a_reply_that_is_not_json_is_malformed() {
    assert_eq!(read_reply(OP_FRAME, None, b"READY"), None);
    assert_eq!(read_reply(OP_FRAME, None, br#"{"evt":"READY"} trailing"#), None);
    assert_eq!(read_reply(OP_PING, None, b""), None);
}

#[test]
fn socket_directories_come_from_the_environment_then_tmp() {
    assert_eq!(socket_dir_vars(), vec!["XDG_RUNTIME_DIR", "TMPDIR", "TMP", "TEMP"]);
    let dirs = socket_dirs(vec![
        Some(b"/run/user/501".to_vec()),
        None,
        Some(vec![b'/', 0xff, b'x']),
        None,
    ]);
    assert_eq!(
        dirs,
        vec![b"/run/user/501".to_vec(), vec![b'/', 0xff, b'x'], b"/tmp".to_vec()]
    );
    assert_eq!(socket_dirs(vec![None, None, None, None]), vec![b"/tmp".to_vec()]);
}

#[test]
fn an_exchange_ends_at_its_first_decisive_reply() {
    let frames: Vec<(u32, &[u8])> = vec![
        (OP_PING, b"{}"),
        (OP_FRAME, br#"{"cmd":"SET_ACTIVITY","nonce":"1"}"#),
        (OP_FRAME, br#"{"cmd":"SET_ACTIVITY","nonce":"2"}"#),
        (OP_CLOSE, b"{}"),
    ];
    let mut pongs = 0;
    let mut end = None;
    for (opcode, body) in frames {
        match read_reply(opcode, Some("2"), body).unwrap() {
            ReplyAction::Pong => pongs += 1,
            ReplyAction::Wait => {}
            action => {
                end = Some(action);
                break;
            }
        }
    }
    assert_eq!(pongs, 1);
    assert_eq!(end, Some(ReplyAction::Done));
}
