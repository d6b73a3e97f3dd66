//! Decisions of the artwork helper process. Each lookup runs in a child
//! process with a hard deadline, so a stuck lookup can be killed and reaped;
//! spawning, polling and killing the child stay with the caller.

use vstd::prelude::*;
use crate::json::{json_text, text_member};
use crate::text::{opt_string, str_eq};

verus! {

/// First argument that makes the program run as an artwork helper.
pub const HELPER_FLAG: &'static str = "--artwork-helper";

/// Deadline for one lookup, client creation and teardown included.
pub const LOOKUP_TIMEOUT_NS: u64 = 45_000_000_000;

/// Longest reply accepted from a helper, in bytes.
pub const MAX_REPLY: usize = 8192;

/// Exit code of a helper that ran out of time.
pub const DEADLINE_EXIT_CODE: i32 = 124;

/// Longest error message a helper reports, in characters.
pub const ERROR_MESSAGE_MAX: usize = 500;

/// Pause between two polls of a running helper.
pub const POLL_INTERVAL_MS: u64 = 25;

/// What the command-line arguments (after the program name) ask for.
#[derive(Debug)]
pub enum HelperInvocation {
    /// A normal start of the application.
    NotHelper,
    /// A lookup of the cover for `album` by `artist`.
    Lookup { artist: String, album: String },
    /// The helper flag without an artist.
    MissingArtist,
    /// The helper flag and an artist without an album.
    MissingAlbum,
}

/// Reads the arguments that follow the program name: the helper flag, the
/// artist and the album, in that order.
pub fn helper_invocation(args: &Vec<String>) -> (r: HelperInvocation)
    ensures
        args@.len() == 0 || args@[0]@ != HELPER_FLAG@ <==> r is NotHelper,
        args@.len() >= 1 && args@[0]@ == HELPER_FLAG@ && args@.len() == 1 <==> r is MissingArtist,
        args@.len() >= 1 && args@[0]@ == HELPER_FLAG@ && args@.len() == 2 <==> r is MissingAlbum,
        r matches HelperInvocation::Lookup { artist, album } ==> args@.len() >= 3
            && args@[0]@ == HELPER_FLAG@ && artist@ == args@[1]@ && album@ == args@[2]@,
{
    if args.len() == 0 || !str_eq(args[0].as_str(), HELPER_FLAG) {
        return HelperInvocation::NotHelper;
    }
    if args.len() < 2 {
        return HelperInvocation::MissingArtist;
    }
    if args.len() < 3 {
        return HelperInvocation::MissingAlbum;
    }
    HelperInvocation::Lookup { artist: args[1].clone(), album: args[2].clone() }
}

/// How a helper ended.
#[derive(Debug, Clone, Copy, PartialEq, Eq, Structural)]
pub enum HelperExit {
    /// It hit its own deadline.
    DeadlineExceeded,
    /// It failed otherwise.
    Failed,
    /// It succeeded; its output is the reply.
    Succeeded,
}

/// The meaning of a helper's exit code (`None` when killed by a signal) and
/// success flag.
pub open spec fn helper_exit_of(code: Option<i32>, success: bool) -> HelperExit {
    if code == Some(DEADLINE_EXIT_CODE) {
        HelperExit::DeadlineExceeded
    } else if !success {
        HelperExit::Failed
    } else {
        HelperExit::Succeeded
    }
}

/// Interprets a helper's exit status (see [`helper_exit_of`]).
pub fn helper_exit(code: Option<i32>, success: bool) -> (r: HelperExit)
    ensures
        r == helper_exit_of(code, success),
{
    if code == Some(DEADLINE_EXIT_CODE) {
        HelperExit::DeadlineExceeded
    } else if !success {
        HelperExit::Failed
    } else {
        HelperExit::Succeeded
    }
}

/// What to do at one poll of a running helper.
#[derive(Debug, Clone, Copy, PartialEq, Eq, Structural)]
pub enum PollStep {
    /// The lookup was superseded: kill the helper.
    Cancelled,
    /// The helper ended.
    Exited(HelperExit),
    /// The deadline passed: kill the helper.
    TimedOut,
    /// Sleep [`POLL_INTERVAL_MS`] and poll again.
    Sleep,
}

/// The step for a poll at `now`: cancellation first, then the helper's exit
/// status if it has one, then the deadline.
pub open spec fn poll_step_of(
    cancelled: bool,
    status: Option<(Option<i32>, bool)>,
    now: u64,
    deadline: u64,
) -> PollStep {
    if cancelled {
        PollStep::Cancelled
    } else {
        match status {
            Some((code, success)) => PollStep::Exited(helper_exit_of(code, success)),
            None => if now >= deadline {
                PollStep::TimedOut
            } else {
                PollStep::Sleep
            },
        }
    }
}

/// Decides one poll of a running helper (see [`poll_step_of`]).
pub fn poll_step(cancelled: bool, status: Option<(Option<i32>, bool)>, now: u64, deadline: u64) -> (r:
    PollStep)
    ensures
        r == poll_step_of(cancelled, status, now, deadline),
{
    if cancelled {
        PollStep::Cancelled
    } else {
        match status {
            Some((code, success)) => PollStep::Exited(helper_exit(code, success)),
            None => if now >= deadline {
                PollStep::TimedOut
            } else {
                PollStep::Sleep
            },
        }
    }
}

/// Whether a helper's reply of `len` bytes is short enough to read.
pub fn reply_fits(len: usize) -> (r: bool)
    ensures
        r == (len <= MAX_REPLY),
{
    len <= MAX_REPLY
}

/// What a helper's lookup came to.
#[derive(Debug)]
pub enum LookupOutcome {
    /// The cover URL.
    Found(String),
    /// No release or no cover.
    NoData,
    /// A failure, described.
    Failed(String),
}

/// What a helper writes back: the cover, `None` for no cover, or an error.
#[derive(Debug)]
pub enum HelperReply {
    Cover(Option<String>),
    Error(String),
}

/// The reply for an outcome; error messages are cut to
/// [`ERROR_MESSAGE_MAX`] characters so that the reply stays small.
pub fn helper_reply(outcome: LookupOutcome) -> (r: HelperReply)
    ensures
        match outcome {
            LookupOutcome::Found(cover) => r matches HelperReply::Cover(Some(c)) && c == cover,
            LookupOutcome::NoData => r matches HelperReply::Cover(None),
            LookupOutcome::Failed(m) => r matches HelperReply::Error(e) && e@ == if m@.len()
                > ERROR_MESSAGE_MAX {
                m@.take(ERROR_MESSAGE_MAX as int)
            } else {
                m@
            },
        },
{
    match outcome {
        LookupOutcome::Found(cover) => HelperReply::Cover(Some(cover)),
        LookupOutcome::NoData => HelperReply::Cover(None),
        LookupOutcome::Failed(message) => {
            let n = message.as_str().unicode_len();
            let cut = if n > ERROR_MESSAGE_MAX {
                ERROR_MESSAGE_MAX
            } else {
                n
            };
            let text = String::from_str(message.as_str().substring_char(0, cut));
            proof {
                assert(message@.subrange(0, cut as int) =~= if message@.len()
                    > ERROR_MESSAGE_MAX {
                    message@.take(ERROR_MESSAGE_MAX as int)
                } else {
                    message@
                });
            }
            HelperReply::Error(text)
        },
    }
}

/// What the parent reads from a helper's output: the cover URL and the
/// error message, each where the reply has it as a string.
#[derive(Debug)]
pub struct HelperOutput {
    pub cover: Option<String>,
    pub error: Option<String>,
}

/// Reads a helper's JSON reply; `None` when the output is not JSON, which
/// the caller reports as a failed helper.
pub fn read_helper_output(output: &[u8]) -> (r: Option<HelperOutput>)
    ensures
        match (json_text(output@, "cover"@), json_text(output@, "error"@)) {
            (Some(cover), Some(error)) => r matches Some(o) && opt_string(o.cover) == cover
                && opt_string(o.error) == error,
            _ => r is None,
        },
{
    let cover = match text_member(output, "cover") {
        Some(cover) => cover,
        None => return None,
    };
    let error = match text_member(output, "error") {
        Some(error) => error,
        None => return None,
    };
    Some(HelperOutput { cover, error })
}

/// A superseded lookup is abandoned at the next poll, whatever the helper
/// did; a helper that is still running once the deadline has passed is
/// given up on, so no lookup outlives its deadline by more than a poll.
pub proof fn law_cancellation_and_deadline_end_the_wait(
    status: Option<(Option<i32>, bool)>,
    now: u64,
    deadline: u64,
)
    ensures
        poll_step_of(true, status, now, deadline) == PollStep::Cancelled,
        now >= deadline ==> poll_step_of(false, None, now, deadline) == PollStep::TimedOut,
        poll_step_of(false, status, now, deadline) == PollStep::Sleep ==> now < deadline,
{
}

/// One poll of a running helper as the caller saw it: whether the lookup
/// had been superseded, the helper's exit status if it had one (code and
/// success), and the time since the helper started.
pub struct Poll {
    pub cancelled: bool,
    pub status: Option<(Option<i32>, bool)>,
    pub now: u64,
}

/// The exit code in an exit status, where there is one.
pub open spec fn exit_code(status: Option<(Option<i32>, bool)>) -> Option<i32> {
    match status {
        Some((code, _)) => code,
        None => None,
    }
}

/// Whether an exit status is there and reports success.
pub open spec fn exit_succeeded(status: Option<(Option<i32>, bool)>) -> bool {
    match status {
        Some((_, success)) => success,
        None => false,
    }
}

/// The step for `poll` against `deadline`.
pub open spec fn poll_of(poll: Poll, deadline: u64) -> PollStep {
    poll_step_of(poll.cancelled, poll.status, poll.now, deadline)
}

/// How a helper run that polls `polls`, in order, ends: at the first poll
/// whose step is not `Sleep`; `None` while every poll sleeps.
pub open spec fn run_end(polls: Seq<Poll>, deadline: u64) -> Option<PollStep>
    decreases polls.len(),
{
    if polls.len() == 0 {
        None
    } else if poll_of(polls[0], deadline) is Sleep {
        run_end(polls.drop_first(), deadline)
    } else {
        Some(poll_of(polls[0], deadline))
    }
}

/// What a bounded helper run yields.
#[derive(Debug, Clone, Copy, PartialEq, Eq, Structural)]
pub enum RunResult {
    /// The helper's whole output.
    Reply,
    /// The lookup was superseded (before the start or at a poll).
    Interrupted,
    /// The helper or the caller hit the deadline.
    TimedOut,
    /// The helper failed.
    Failed,
    /// The helper wrote more than [`MAX_REPLY`] bytes.
    TooLarge,
}

/// The result of a run that ended with `end` (not `Sleep`), where the
/// helper wrote `reply_len` bytes.
pub open spec fn run_result(end: PollStep, reply_len: nat) -> RunResult {
    match end {
        PollStep::Cancelled => RunResult::Interrupted,
        PollStep::TimedOut => RunResult::TimedOut,
        PollStep::Exited(HelperExit::DeadlineExceeded) => RunResult::TimedOut,
        PollStep::Exited(HelperExit::Failed) => RunResult::Failed,
        PollStep::Exited(HelperExit::Succeeded) => if reply_len <= MAX_REPLY {
            RunResult::Reply
        } else {
            RunResult::TooLarge
        },
        PollStep::Sleep => RunResult::Failed,
    }
}

/// The cover a lookup ends with, for a run that ended with `end` and the
/// helper's `output`: the cover of the reply when the run yields it and it
/// is JSON (see [`read_helper_output`]); nothing otherwise.
pub open spec fn lookup_cover(end: PollStep, output: Seq<u8>) -> Option<Seq<char>> {
    if run_result(end, output.len()) == RunResult::Reply {
        match (json_text(output, "cover"@), json_text(output, "error"@)) {
            (Some(cover), Some(_)) => cover,
            _ => None,
        }
    } else {
        None
    }
}

/// A bounded helper run ends at its first poll that does not sleep, at the
/// latest at the first poll at or after the deadline. It yields the output
/// only if the lookup was never superseded and the helper exited
/// successfully, other than with the deadline code, with at most
/// [`MAX_REPLY`] bytes; the deadline code is a timeout. A lookup ends with
/// a cover exactly when the run yields an output whose JSON has the cover
/// as a string.
pub proof fn law_bounded_run(polls: Seq<Poll>, deadline: u64, i: int, output: Seq<u8>)
    requires
        0 <= i < polls.len(),
        forall|j: int| 0 <= j < i ==> #[trigger] poll_of(polls[j], deadline) is Sleep,
        !(poll_of(polls[i], deadline) is Sleep),
    ensures
        run_end(polls, deadline) == Some(poll_of(polls[i], deadline)),
        run_end(polls.take(i), deadline) is None,
        forall|j: int|
            0 <= j < i ==> !(#[trigger] polls[j]).cancelled && polls[j].status is None
                && polls[j].now < deadline,
        polls[i].now >= deadline ==> run_end(polls.take(i + 1), deadline) is Some,
        run_result(poll_of(polls[i], deadline), output.len()) == RunResult::Reply <==> (
        !polls[i].cancelled && exit_succeeded(polls[i].status) && exit_code(polls[i].status)
            != Some(DEADLINE_EXIT_CODE) && output.len() <= MAX_REPLY),
        !polls[i].cancelled && exit_code(polls[i].status) == Some(DEADLINE_EXIT_CODE) ==> run_result(poll_of(polls[i], deadline), output.len()) == RunResult::TimedOut,
        polls[i].cancelled ==> run_result(poll_of(polls[i], deadline), output.len())
            == RunResult::Interrupted,
        lookup_cover(poll_of(polls[i], deadline), output) is Some ==> run_result(
            poll_of(polls[i], deadline),
            output.len(),
        ) == RunResult::Reply && json_text(output, "cover"@) == Some(
            lookup_cover(poll_of(polls[i], deadline), output),
        ),
        run_result(poll_of(polls[i], deadline), output.len()) == RunResult::Reply && json_text(
            output,
            "error"@,
        ) is Some && json_text(output, "cover"@) is Some ==> json_text(output, "cover"@)
            == Some(lookup_cover(poll_of(polls[i], deadline), output)),
    decreases i,
{
    if i > 0 {
        let rest = polls.drop_first();
        assert forall|j: int| 0 <= j < i - 1 implies #[trigger] poll_of(rest[j], deadline) is Sleep by {
            assert(rest[j] == polls[j + 1]);
            assert(poll_of(polls[j + 1], deadline) is Sleep);
        }
        assert(rest[i - 1] == polls[i]);
        law_bounded_run(rest, deadline, i - 1, output);
        assert(poll_of(polls[0], deadline) is Sleep);
        assert(polls.take(i).drop_first() =~= rest.take(i - 1));
        assert(polls.take(i)[0] == polls[0]);
        assert(polls.take(i + 1).drop_first() =~= rest.take(i));
        assert(polls.take(i + 1)[0] == polls[0]);
    } else {
        assert(polls.take(0).len() == 0);
        assert(polls.take(1)[0] == polls[0]);
    }
    assert forall|j: int| 0 <= j < i implies !(#[trigger] polls[j]).cancelled && polls[j].status
        is None && polls[j].now < deadline by {
        assert(poll_of(polls[j], deadline) is Sleep);
    }
}

} // verus!
