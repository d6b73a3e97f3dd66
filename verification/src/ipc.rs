//! Discord IPC framing and the decisions of the request/reply exchange.
//!
//! A frame is a little-endian `u32` opcode, a little-endian `u32` body length
//! and the body. Socket I/O and JSON stay with the caller; this module checks
//! the bytes and says what each reply means.

use vstd::prelude::*;
use vstd::bytes::{
    spec_u32_from_le_bytes,
    spec_u32_to_le_bytes,
    u32_from_le_bytes,
    u32_to_le_bytes,
};
use crate::json::{json_text, text_member};
use crate::text::{opt_as_str, opt_str, str_eq};
use crate::transport::Clock;

verus! {

/// Longest frame body accepted in either direction.
pub const MAX_FRAME: usize = 65536;

/// Deadline for a whole exchange with Discord.
pub const IO_TIMEOUT_NS: u64 = 5_000_000_000;

/// Opcode of the handshake.
pub const OP_HANDSHAKE: u32 = 0;

/// Opcode of commands and their replies.
pub const OP_FRAME: u32 = 1;

/// Opcode with which Discord closes the connection.
pub const OP_CLOSE: u32 = 2;

/// Opcode of a ping from Discord.
pub const OP_PING: u32 = 3;

/// Opcode of the answer to a ping.
pub const OP_PONG: u32 = 4;

/// What went wrong in an exchange with Discord.
#[derive(Debug, Clone, Copy, PartialEq, Eq, Structural)]
pub enum IpcError {
    /// The deadline passed.
    TimedOut,
    /// A frame body was longer than [`MAX_FRAME`].
    FrameTooLarge,
    /// Discord closed the connection.
    Closed,
    /// Discord answered the command with an error event.
    ActivityRejected,
    /// Discord answered the nonce with another command.
    UnexpectedCommand,
    /// Discord answered the handshake with an error event.
    HandshakeRejected,
    /// A frame carried an opcode that has no place in the exchange.
    UnexpectedOpcode(u32),
}

/// The bytes of the frame with `opcode` and `body`.
pub open spec fn frame_bytes(opcode: u32, body: Seq<u8>) -> Seq<u8> {
    spec_u32_to_le_bytes(opcode) + spec_u32_to_le_bytes(body.len() as u32) + body
}

/// The frame that carries `body` under `opcode`; bodies longer than
/// [`MAX_FRAME`] are refused.
pub fn encode_frame(opcode: u32, body: &[u8]) -> (r: Result<Vec<u8>, IpcError>)
    ensures
        match r {
            Ok(frame) => body@.len() <= MAX_FRAME && frame@ == frame_bytes(opcode, body@),
            Err(e) => body@.len() > MAX_FRAME && e == IpcError::FrameTooLarge,
        },
{
    if body.len() > MAX_FRAME {
        return Err(IpcError::FrameTooLarge);
    }
    let mut frame = u32_to_le_bytes(opcode);
    let mut length = u32_to_le_bytes(body.len() as u32);
    frame.append(&mut length);
    let mut i: usize = 0;
    let ghost head = frame@;
    while i < body.len()
        invariant
            i <= body@.len(),
            frame@ == head + body@.take(i as int),
        decreases body@.len() - i,
    {
        frame.push(body[i]);
        assert(body@.take(i + 1) =~= body@.take(i as int).push(body@[i as int]));
        i = i + 1;
    }
    assert(body@.take(body@.len() as int) =~= body@);
    Ok(frame)
}

/// The opcode and body length that a frame header announces.
#[derive(Debug, Clone, Copy, PartialEq, Eq, Structural)]
pub struct FrameHeader {
    pub opcode: u32,
    pub length: usize,
}

/// The opcode of an 8-byte header.
pub open spec fn header_opcode(header: Seq<u8>) -> u32 {
    spec_u32_from_le_bytes(header.subrange(0, 4))
}

/// The body length of an 8-byte header.
pub open spec fn header_length(header: Seq<u8>) -> u32 {
    spec_u32_from_le_bytes(header.subrange(4, 8))
}

/// Reads a frame header; a body longer than [`MAX_FRAME`] is refused before
/// anything is allocated for it.
pub fn decode_header(header: &[u8]) -> (r: Result<FrameHeader, IpcError>)
    requires
        header@.len() == 8,
    ensures
        match r {
            Ok(h) => h.opcode == header_opcode(header@) && h.length == header_length(header@)
                && h.length <= MAX_FRAME,
            Err(e) => header_length(header@) > MAX_FRAME && e == IpcError::FrameTooLarge,
        },
{
    let opcode = u32_from_le_bytes(vstd::slice::slice_subrange(header, 0, 4));
    let length = u32_from_le_bytes(vstd::slice::slice_subrange(header, 4, 8));
    if length as usize > MAX_FRAME {
        return Err(IpcError::FrameTooLarge);
    }
    Ok(FrameHeader { opcode, length: length as usize })
}

/// Time left until `deadline` at `now`; none once it has passed.
pub open spec fn remaining_at(deadline: u64, now: u64) -> Result<u64, IpcError> {
    if deadline > now {
        Ok((deadline - now) as u64)
    } else {
        Err(IpcError::TimedOut)
    }
}

/// Nanoseconds left until `deadline` on `clock`, or `TimedOut` when no time
/// is left.
pub fn remaining<C: Clock>(clock: &C, deadline: u64) -> (r: Result<u64, IpcError>)
    ensures
        exists|now: u64| r == #[trigger] remaining_at(deadline, now),
        r matches Ok(left) ==> 0 < left <= deadline,
{
    let now = clock.now();
    time_left(deadline, now)
}

/// [`remaining`] for a given reading of the clock.
pub fn time_left(deadline: u64, now: u64) -> (r: Result<u64, IpcError>)
    ensures
        r == remaining_at(deadline, now),
{
    if deadline > now {
        Ok(deadline - now)
    } else {
        Err(IpcError::TimedOut)
    }
}

/// What a reply asks of the client that waits for it.
#[derive(Debug, Clone, Copy, PartialEq, Eq, Structural)]
pub enum ReplyAction {
    /// Answer a ping with a pong that carries the same body, then keep
    /// waiting.
    Pong,
    /// Ignore the frame and keep waiting.
    Wait,
    /// The exchange succeeded.
    Done,
    /// The exchange failed.
    Fail(IpcError),
}

/// The action for a reply with `opcode` whose JSON body has the string
/// fields `evt`, `nonce` and `cmd` (`None` where absent or not a string),
/// while waiting for the handshake (`expected` is `None`) or for the answer
/// to the command with nonce `expected`.
pub open spec fn reply_action(
    opcode: u32,
    expected: Option<Seq<char>>,
    evt: Option<Seq<char>>,
    nonce: Option<Seq<char>>,
    cmd: Option<Seq<char>>,
) -> ReplyAction {
    if opcode == OP_PING {
        ReplyAction::Pong
    } else if opcode == OP_CLOSE {
        ReplyAction::Fail(IpcError::Closed)
    } else if opcode == OP_FRAME && expected is None && evt == Some("READY"@) {
        ReplyAction::Done
    } else if opcode == OP_FRAME && expected is Some && nonce == expected {
        if evt == Some("ERROR"@) {
            ReplyAction::Fail(IpcError::ActivityRejected)
        } else if cmd != Some("SET_ACTIVITY"@) {
            ReplyAction::Fail(IpcError::UnexpectedCommand)
        } else {
            ReplyAction::Done
        }
    } else if opcode == OP_FRAME && expected is None && evt == Some("ERROR"@) {
        ReplyAction::Fail(IpcError::HandshakeRejected)
    } else if opcode == OP_FRAME || opcode == OP_PONG {
        ReplyAction::Wait
    } else {
        ReplyAction::Fail(IpcError::UnexpectedOpcode(opcode))
    }
}

fn opt_eq(a: Option<&str>, b: Option<&str>) -> (r: bool)
    ensures
        r == (opt_str(a) == opt_str(b)),
{
    match (a, b) {
        (Some(x), Some(y)) => str_eq(x, y),
        (None, None) => true,
        _ => false,
    }
}

fn is_text(field: Option<&str>, text: &str) -> (r: bool)
    ensures
        r == (opt_str(field) == Some(text@)),
{
    match field {
        Some(f) => str_eq(f, text),
        None => false,
    }
}

/// Decides what a reply means (see [`reply_action`]).
pub fn classify_reply(
    opcode: u32,
    expected: Option<&str>,
    evt: Option<&str>,
    nonce: Option<&str>,
    cmd: Option<&str>,
) -> (r: ReplyAction)
    ensures
        r == reply_action(opcode, opt_str(expected), opt_str(evt), opt_str(nonce), opt_str(cmd)),
{
    if opcode == OP_PING {
        ReplyAction::Pong
    } else if opcode == OP_CLOSE {
        ReplyAction::Fail(IpcError::Closed)
    } else if opcode == OP_FRAME && expected.is_none() && is_text(evt, "READY") {
        ReplyAction::Done
    } else if opcode == OP_FRAME && expected.is_some() && opt_eq(nonce, expected) {
        if is_text(evt, "ERROR") {
            ReplyAction::Fail(IpcError::ActivityRejected)
        } else if !is_text(cmd, "SET_ACTIVITY") {
            ReplyAction::Fail(IpcError::UnexpectedCommand)
        } else {
            ReplyAction::Done
        }
    } else if opcode == OP_FRAME && expected.is_none() && is_text(evt, "ERROR") {
        ReplyAction::Fail(IpcError::HandshakeRejected)
    } else if opcode == OP_FRAME || opcode == OP_PONG {
        ReplyAction::Wait
    } else {
        ReplyAction::Fail(IpcError::UnexpectedOpcode(opcode))
    }
}

/// What the reply frame with `opcode` and JSON `body` means (see
/// [`reply_action`]); `None` when the body is not JSON, which the caller
/// reports as a malformed reply.
pub fn read_reply(opcode: u32, expected: Option<&str>, body: &[u8]) -> (r: Option<ReplyAction>)
    ensures
        match (json_text(body@, "evt"@), json_text(body@, "nonce"@), json_text(body@, "cmd"@)) {
            (Some(evt), Some(nonce), Some(cmd)) => r == Some(
                reply_action(opcode, opt_str(expected), evt, nonce, cmd),
            ),
            _ => r is None,
        },
{
    let evt = match text_member(body, "evt") {
        Some(evt) => evt,
        None => return None,
    };
    let nonce = match text_member(body, "nonce") {
        Some(nonce) => nonce,
        None => return None,
    };
    let cmd = match text_member(body, "cmd") {
        Some(cmd) => cmd,
        None => return None,
    };
    Some(classify_reply(opcode, expected, opt_as_str(&evt), opt_as_str(&nonce), opt_as_str(&cmd)))
}

/// Prefix of the names of Discord's IPC sockets.
pub const SOCKET_PREFIX: &'static str = "discord-ipc-";

/// How many socket names Discord may use.
pub const SOCKET_SLOTS: u8 = 10;

/// The decimal digit for `d`.
pub open spec fn digit_char(d: int) -> char {
    (48 + d) as char
}

fn digit_str(d: u8) -> (r: &'static str)
    requires
        d < 10,
    ensures
        r@ == seq![digit_char(d as int)],
{
    match d {
        0 => {
            proof {
                reveal_strlit("0");
            }
            "0"
        },
        1 => {
            proof {
                reveal_strlit("1");
            }
            "1"
        },
        2 => {
            proof {
                reveal_strlit("2");
            }
            "2"
        },
        3 => {
            proof {
                reveal_strlit("3");
            }
            "3"
        },
        4 => {
            proof {
                reveal_strlit("4");
            }
            "4"
        },
        5 => {
            proof {
                reveal_strlit("5");
            }
            "5"
        },
        6 => {
            proof {
                reveal_strlit("6");
            }
            "6"
        },
        7 => {
            proof {
                reveal_strlit("7");
            }
            "7"
        },
        8 => {
            proof {
                reveal_strlit("8");
            }
            "8"
        },
        _ => {
            proof {
                reveal_strlit("9");
            }
            "9"
        },
    }
}

/// The environment variables that may name the directory of Discord's
/// socket, in the order they are tried.
pub fn socket_dir_vars() -> (r: Vec<&'static str>)
    ensures
        r@.len() == 4,
        r@[0]@ == "XDG_RUNTIME_DIR"@,
        r@[1]@ == "TMPDIR"@,
        r@[2]@ == "TMP"@,
        r@[3]@ == "TEMP"@,
{
    let mut vars = Vec::new();
    vars.push("XDG_RUNTIME_DIR");
    vars.push("TMPDIR");
    vars.push("TMP");
    vars.push("TEMP");
    vars
}

/// The directory tried after those named by the environment.
pub open spec fn fallback_dir() -> Seq<u8> {
    seq![47u8, 116u8, 109u8, 112u8]
}

/// The view of an optional byte string.
pub open spec fn opt_bytes(v: Option<Vec<u8>>) -> Option<Seq<u8>> {
    match v {
        Some(b) => Some(b@),
        None => None,
    }
}

/// The directories named by `values`, the values of the variables of
/// [`socket_dir_vars`] in order (`None` where unset), skipping unset ones.
pub open spec fn named_dirs(values: Seq<Option<Seq<u8>>>) -> Seq<Seq<u8>>
    decreases values.len(),
{
    if values.len() == 0 {
        Seq::empty()
    } else {
        let before = named_dirs(values.drop_last());
        match values.last() {
            Some(dir) => before.push(dir),
            None => before,
        }
    }
}

/// The directories to look for the socket in, in order: those the
/// environment names (see [`named_dirs`]), then `/tmp`. The paths are the
/// variables' raw bytes.
pub fn socket_dirs(values: Vec<Option<Vec<u8>>>) -> (r: Vec<Vec<u8>>)
    ensures
        r@.map_values(|d: Vec<u8>| d@) == named_dirs(values@.map_values(|v: Option<Vec<u8>>| opt_bytes(v))).push(
            fallback_dir(),
        ),
{
    let ghost spec_values = values@.map_values(|v: Option<Vec<u8>>| opt_bytes(v));
    let mut dirs: Vec<Vec<u8>> = Vec::new();
    let mut i: usize = 0;
    while i < values.len()
        invariant
            i <= values.len(),
            spec_values == values@.map_values(|v: Option<Vec<u8>>| opt_bytes(v)),
            dirs@.map_values(|d: Vec<u8>| d@) == named_dirs(spec_values.take(i as int)),
        decreases values.len() - i,
    {
        assert(spec_values.take(i + 1).drop_last() =~= spec_values.take(i as int));
        match &values[i] {
            Some(dir) => {
                let ghost before = dirs@;
                dirs.push(dir.clone());
                assert(dirs@.map_values(|d: Vec<u8>| d@) =~= before.map_values(|d: Vec<u8>| d@).push(
                    dir@,
                ));
            },
            None => {},
        }
        i = i + 1;
    }
    assert(spec_values.take(values.len() as int) =~= spec_values);
    let ghost before = dirs@;
    let mut tmp: Vec<u8> = Vec::new();
    tmp.push(47u8);
    tmp.push(116u8);
    tmp.push(109u8);
    tmp.push(112u8);
    assert(tmp@ =~= fallback_dir());
    dirs.push(tmp);
    assert(dirs@.map_values(|d: Vec<u8>| d@) =~= before.map_values(|d: Vec<u8>| d@).push(
        fallback_dir(),
    ));
    dirs
}

/// The socket names to try in each candidate directory, in order:
/// `discord-ipc-0` to `discord-ipc-9`.
pub fn socket_names() -> (r: Vec<String>)
    ensures
        r@.len() == SOCKET_SLOTS,
        forall|i: int|
            0 <= i < SOCKET_SLOTS ==> #[trigger] r@[i]@ == SOCKET_PREFIX@ + seq![digit_char(i)],
{
    let mut names: Vec<String> = Vec::new();
    let mut i: u8 = 0;
    while i < SOCKET_SLOTS
        invariant
            i <= SOCKET_SLOTS,
            names@.len() == i,
            forall|j: int| 0 <= j < i ==> #[trigger] names@[j]@ == SOCKET_PREFIX@ + seq![digit_char(j)],
        decreases SOCKET_SLOTS - i,
    {
        let mut name = String::from_str(SOCKET_PREFIX);
        name.append(digit_str(i));
        names.push(name);
        i = i + 1;
    }
    names
}

} // verus!

verus! {

/// A frame's header announces the opcode and body length it was built
/// with, and the body follows the 8 header bytes.
pub proof fn law_frame_header_round_trips(opcode: u32, body: Seq<u8>)
    requires
        body.len() <= MAX_FRAME,
    ensures
        frame_bytes(opcode, body).len() == body.len() + 8,
        header_opcode(frame_bytes(opcode, body).take(8)) == opcode,
        header_length(frame_bytes(opcode, body).take(8)) == body.len(),
        frame_bytes(opcode, body).skip(8) == body,
{
    vstd::bytes::lemma_auto_spec_u32_to_from_le_bytes();
    let f = frame_bytes(opcode, body);
    let a = spec_u32_to_le_bytes(opcode);
    let b = spec_u32_to_le_bytes(body.len() as u32);
    assert(f.take(8).subrange(0, 4) =~= a);
    assert(f.take(8).subrange(4, 8) =~= b);
    assert(f.skip(8) =~= body);
}

/// A ping is always answered, whatever is awaited.
pub proof fn law_pings_are_answered(
    expected: Option<Seq<char>>,
    evt: Option<Seq<char>>,
    nonce: Option<Seq<char>>,
    cmd: Option<Seq<char>>,
)
    ensures
        reply_action(OP_PING, expected, evt, nonce, cmd) == ReplyAction::Pong,
{
}

/// While a command is awaited, a command reply for another nonce neither
/// completes nor fails the exchange: the client keeps waiting, and only the
/// deadline ends the wait.
pub proof fn law_unrelated_nonces_are_skipped(
    expected: Seq<char>,
    evt: Option<Seq<char>>,
    nonce: Option<Seq<char>>,
    cmd: Option<Seq<char>>,
)
    requires
        nonce != Some(expected),
    ensures
        reply_action(OP_FRAME, Some(expected), evt, nonce, cmd) == ReplyAction::Wait,
{
}

/// Discord's error answer to the awaited command is a failure, whether the
/// command set or cleared the activity.
pub proof fn law_errors_fail_the_command(expected: Seq<char>, cmd: Option<Seq<char>>)
    ensures
        reply_action(OP_FRAME, Some(expected), Some("ERROR"@), Some(expected), cmd)
            == ReplyAction::Fail(IpcError::ActivityRejected),
{
}

/// A reply frame as an exchange reads it: the opcode and the string
/// members `evt`, `nonce` and `cmd` of its JSON body.
pub struct ReplyFrame {
    pub opcode: u32,
    pub evt: Option<Seq<char>>,
    pub nonce: Option<Seq<char>>,
    pub cmd: Option<Seq<char>>,
}

/// The action for `frame` while `expected` is awaited.
pub open spec fn frame_action(expected: Option<Seq<char>>, frame: ReplyFrame) -> ReplyAction {
    reply_action(frame.opcode, expected, frame.evt, frame.nonce, frame.cmd)
}

/// Whether the exchange goes on after an action: a ping is answered and a
/// skipped frame ignored; anything else ends it.
pub open spec fn keeps_waiting(a: ReplyAction) -> bool {
    a is Pong || a is Wait
}

/// How an exchange that receives `frames`, in order, ends: with the action
/// of the first frame that does not keep it waiting; `None` while every
/// frame keeps it waiting, so that only the deadline ends it.
pub open spec fn exchange_end(expected: Option<Seq<char>>, frames: Seq<ReplyFrame>) -> Option<
    ReplyAction,
>
    decreases frames.len(),
{
    if frames.len() == 0 {
        None
    } else if keeps_waiting(frame_action(expected, frames[0])) {
        exchange_end(expected, frames.drop_first())
    } else {
        Some(frame_action(expected, frames[0]))
    }
}

/// A whole exchange ends at its first decisive reply: every frame before it
/// is a ping, which is answered, or a frame that is skipped; the exchange
/// succeeds there exactly on a `READY` event during the handshake, or on
/// the awaited nonce with the `SET_ACTIVITY` command and no `ERROR` event,
/// and fails on anything else decisive. Frames that all keep it waiting
/// leave it to the deadline.
pub proof fn law_exchange_ends_at_the_first_decisive_reply(
    expected: Option<Seq<char>>,
    frames: Seq<ReplyFrame>,
    i: int,
)
    requires
        0 <= i < frames.len(),
        forall|j: int| 0 <= j < i ==> keeps_waiting(#[trigger] frame_action(expected, frames[j])),
        !keeps_waiting(frame_action(expected, frames[i])),
    ensures
        exchange_end(expected, frames) == Some(frame_action(expected, frames[i])),
        exchange_end(expected, frames.take(i)) is None,
        forall|j: int|
            0 <= j < i ==> (#[trigger] frame_action(expected, frames[j]) is Pong <==> frames[j].opcode
                == OP_PING) && (frames[j].opcode == OP_PING || frames[j].opcode == OP_FRAME
                || frames[j].opcode == OP_PONG),
        frame_action(expected, frames[i]) == ReplyAction::Done <==> frames[i].opcode == OP_FRAME
            && ((expected is None && frames[i].evt == Some("READY"@)) || (expected is Some
            && frames[i].nonce == expected && frames[i].evt != Some("ERROR"@) && frames[i].cmd
            == Some("SET_ACTIVITY"@))),
        !(frame_action(expected, frames[i]) is Done) ==> frame_action(expected, frames[i]) is Fail,
    decreases i,
{
    if i > 0 {
        let rest = frames.drop_first();
        assert forall|j: int| 0 <= j < i - 1 implies keeps_waiting(
            #[trigger] frame_action(expected, rest[j]),
        ) by {
            assert(rest[j] == frames[j + 1]);
            assert(keeps_waiting(frame_action(expected, frames[j + 1])));
        }
        assert(rest[i - 1] == frames[i]);
        law_exchange_ends_at_the_first_decisive_reply(expected, rest, i - 1);
        assert(keeps_waiting(frame_action(expected, frames[0])));
        assert(frames.take(i).drop_first() =~= rest.take(i - 1));
        assert(frames.take(i)[0] == frames[0]);
    } else {
        assert(frames.take(0).len() == 0);
    }
}

/// Every variable that is set contributes its directory, wherever it
/// stands: a set value is among the directories searched.
pub proof fn law_every_set_directory_is_searched(values: Seq<Option<Seq<u8>>>, i: int)
    requires
        0 <= i < values.len(),
        values[i] is Some,
    ensures
        named_dirs(values).contains(values[i]->0),
    decreases values.len(),
{
    if i == values.len() - 1 {
        assert(named_dirs(values) == named_dirs(values.drop_last()).push(values[i]->0));
        assert(named_dirs(values)[named_dirs(values).len() - 1] == values[i]->0);
    } else {
        assert(values.drop_last()[i] == values[i]);
        law_every_set_directory_is_searched(values.drop_last(), i);
        let d = values[i]->0;
        let k = choose|k: int| 0 <= k < named_dirs(values.drop_last()).len() && #[trigger] named_dirs(
            values.drop_last(),
        )[k] == d;
        match values.last() {
            Some(x) => assert(named_dirs(values)[k] == d),
            None => assert(named_dirs(values)[k] == d),
        }
    }
}

/// The directories of two groups of variables are those of the first
/// followed by those of the second: each set value is kept, in order, and
/// which ones are kept does not depend on their positions.
pub proof fn law_directories_keep_their_order(a: Seq<Option<Seq<u8>>>, b: Seq<Option<Seq<u8>>>)
    ensures
        named_dirs(a + b) == named_dirs(a) + named_dirs(b),
    decreases b.len(),
{
    if b.len() == 0 {
        assert(a + b =~= a);
        assert(named_dirs(b) =~= Seq::<Seq<u8>>::empty());
        assert(named_dirs(a) + named_dirs(b) =~= named_dirs(a));
    } else {
        assert((a + b).drop_last() =~= a + b.drop_last());
        assert((a + b).last() == b.last());
        law_directories_keep_their_order(a, b.drop_last());
        match b.last() {
            Some(d) => {
                assert(named_dirs(a) + named_dirs(b) =~= (named_dirs(a) + named_dirs(
                    b.drop_last(),
                )).push(d));
            },
            None => {},
        }
    }
}

/// An unset variable contributes nothing, and a set one exactly its value.
pub proof fn law_one_variable(v: Option<Seq<u8>>)
    ensures
        named_dirs(seq![v]) == match v {
            Some(d) => seq![d],
            None => Seq::<Seq<u8>>::empty(),
        },
{
    let one = seq![v];
    assert(one.drop_last() =~= Seq::<Option<Seq<u8>>>::empty());
    assert(named_dirs(one.drop_last()) == Seq::<Seq<u8>>::empty());
    assert(one.last() == v);
    match v {
        Some(d) => assert(named_dirs(one) =~= seq![d]),
        None => {},
    }
}

/// The directories are exactly the set values, in the order of the
/// variables: `named_dirs` keeps the values that are set and nothing else.
pub proof fn law_directories_are_the_set_values(values: Seq<Option<Seq<u8>>>)
    ensures
        named_dirs(values) == values.filter_map(|v: Option<Seq<u8>>| v),
    decreases values.len(),
{
    if values.len() > 0 {
        law_directories_are_the_set_values(values.drop_last());
        match values.last() {
            Some(d) => assert(named_dirs(values) =~= values.drop_last().filter_map(
                |v: Option<Seq<u8>>| v,
            ) + seq![d]),
            None => {},
        }
    }
}

/// After the directories the environment names comes `/tmp`, always and
/// last, whatever is set.
pub proof fn law_tmp_is_searched_last(values: Seq<Option<Seq<u8>>>)
    ensures
        named_dirs(values).push(fallback_dir()).last() == seq!['/' as u8, 't' as u8, 'm' as u8, 'p' as u8],
        named_dirs(values).push(fallback_dir()).len() == named_dirs(values).len() + 1,
{
    assert(fallback_dir() =~= seq!['/' as u8, 't' as u8, 'm' as u8, 'p' as u8]);
}

} // verus!
