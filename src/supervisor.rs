//! Lifecycle decisions for the supervised child process: what to launch,
//! when to terminate, and which lifecycle lines go into the shared ring.
//! Spawning and killing themselves are left to the caller.
use vstd::prelude::*;
use crate::clock::{local_now_formatted, Stamped, LINE_STAMP_FORMAT};
use crate::ring::{LogRing, ring_push};
use crate::text::{decimal, u64_to_decimal};

verus! {

/// The line's text after the timestamp when the child has been stopped.
pub const SENTINEL: &'static str = "Yap Bot has been destroyed by your own hands...";

/// Interpreter used when none is found on the search path.
pub const DEFAULT_INTERPRETER: &'static str = "python";

/// The script run by the interpreter.
pub const SCRIPT_NAME: &'static str = "MarkovChainBot.py";

/// Interpreter flag for unbuffered standard streams.
pub const UNBUFFERED_FLAG: &'static str = "-u";

/// The working directory, relative to the per-user application data directory.
pub const WORKDIR_SUFFIX: &'static str = "\\YapBot\\TwitchMarkovChain";

pub const UNBUFFERED_VAR: &'static str = "PYTHONUNBUFFERED";
pub const UNBUFFERED_VALUE: &'static str = "1";
pub const ENCODING_VAR: &'static str = "PYTHONIOENCODING";
pub const ENCODING_VALUE: &'static str = "utf-8";

/// Errors of the supervisor's operations.
#[derive(Clone, Copy, Debug, PartialEq, Eq, Structural)]
pub enum SupervisorError {
    SpawnFailed,
    AlreadyRunning,
    TerminationFailed,
    IpcBindFailed,
}

/// The sentinel line appended when a running child is stopped.
pub open spec fn sentinel_line(stamp: Seq<char>) -> Seq<char> {
    "["@ + stamp + "] "@ + SENTINEL@
}

/// The line carrying a caller's message on restart.
pub open spec fn message_line(stamp: Seq<char>, msg: Seq<char>) -> Seq<char> {
    "["@ + stamp + "]: "@ + msg
}

/// The notice logged before a tree-wide forced termination of `pid`.
pub open spec fn kill_notice(pid: nat) -> Seq<char> {
    "[DEBUG] Ran: taskkill /PID "@ + decimal(pid) + " /F /T"@
}

/// The ring after a stop: one sentinel line only if a child was running.
pub open spec fn stop_ring(ring: Seq<Seq<char>>, cap: nat, running: bool, stamp: Seq<char>) -> Seq<Seq<char>> {
    if running {
        ring_push(ring, cap, sentinel_line(stamp))
    } else {
        ring
    }
}

/// The ring after a restart: the stop's lines, then the caller's message.
pub open spec fn restart_ring(
    ring: Seq<Seq<char>>,
    cap: nat,
    running: bool,
    stamp: Seq<char>,
    msg: Seq<char>,
) -> Seq<Seq<char>> {
    ring_push(stop_ring(ring, cap, running, stamp), cap, message_line(stamp, msg))
}

/// Two stops in a row, with no start between them, leave at most one
/// sentinel line: the second stop finds no child and changes nothing.
pub proof fn lemma_stop_idempotent(
    ring: Seq<Seq<char>>,
    cap: nat,
    running: bool,
    first: Seq<char>,
    second: Seq<char>,
)
    ensures
        stop_ring(stop_ring(ring, cap, running, first), cap, false, second)
            == stop_ring(ring, cap, running, first),
        stop_ring(ring, cap, running, first) == ring
            || stop_ring(ring, cap, running, first) == ring_push(ring, cap, sentinel_line(first)),
{
}

/// After restarting a running child and then pushing the next run's first
/// output line, a ring of capacity at least three ends with the sentinel
/// line, the caller's message line and that output line, in this order.
pub proof fn lemma_restart_order(
    ring: Seq<Seq<char>>,
    cap: nat,
    stamp: Seq<char>,
    msg: Seq<char>,
    first_output: Seq<char>,
)
    requires
        cap >= 3,
        ring.len() <= cap,
    ensures
        ({
            let after = ring_push(restart_ring(ring, cap, true, stamp, msg), cap, first_output);
            let n = after.len() as int;
            n >= 3 && after[n - 3] == sentinel_line(stamp) && after[n - 2] == message_line(stamp, msg)
                && after[n - 1] == first_output
        }),
{
    let r1 = ring_push(ring, cap, sentinel_line(stamp));
    let r2 = ring_push(r1, cap, message_line(stamp, msg));
    let r3 = ring_push(r2, cap, first_output);
    assert(r1.len() >= 1 && r1.len() <= cap && r1[r1.len() - 1] == sentinel_line(stamp));
    assert(r2.len() >= 2 && r2.len() <= cap && r2[r2.len() - 1] == message_line(stamp, msg)
        && r2[r2.len() - 2] == sentinel_line(stamp));
    assert(r3.len() >= 3 && r3[r3.len() - 1] == first_output && r3[r3.len() - 2] == message_line(
        stamp,
        msg,
    ) && r3[r3.len() - 3] == sentinel_line(stamp));
}

/// How to launch the child.
pub struct LaunchPlan {
    pub program: String,
    pub args: Vec<String>,
    pub workdir: String,
    pub env: Vec<(String, String)>,
}

/// What the caller must do to terminate the child.
pub struct StopOrder {
    /// The process to terminate, with its whole tree where the platform allows.
    pub pid: u32,
    /// The line to log before terminating.
    pub notice: String,
}

/// Bookkeeping of the current run: the id of the live child, if any.
pub struct Supervisor {
    pub child_pid: Option<u32>,
}

impl Supervisor {
    /// A supervisor with no child.
    pub fn new() -> (r: Supervisor)
        ensures
            r.child_pid is None,
    {
        Supervisor { child_pid: None }
    }

    pub fn is_running(&self) -> (r: bool)
        ensures
            r == self.child_pid is Some,
    {
        self.child_pid.is_some()
    }

    /// Whether a start may proceed: not while a child is current.
    pub fn start_request(&self) -> (r: Result<(), SupervisorError>)
        ensures
            self.child_pid is None <==> r is Ok,
            self.child_pid is Some ==> r == Err::<(), SupervisorError>(SupervisorError::AlreadyRunning),
    {
        if self.child_pid.is_some() {
            Err(SupervisorError::AlreadyRunning)
        } else {
            Ok(())
        }
    }

    /// Records the outcome of a spawn attempt: the new child's id, or `None`
    /// when the spawn failed.
    pub fn record_spawn(&mut self, spawned: Option<u32>) -> (r: Result<u32, SupervisorError>)
        ensures
            final(self).child_pid == spawned,
            spawned is Some ==> r == Ok::<u32, SupervisorError>(spawned->0),
            spawned is None ==> r == Err::<u32, SupervisorError>(SupervisorError::SpawnFailed),
    {
        self.child_pid = spawned;
        match spawned {
            Some(pid) => Ok(pid),
            None => Err(SupervisorError::SpawnFailed),
        }
    }
}

/// The launch of the child script: `found` is the interpreter located on the
/// search path, if any; `appdata` is the per-user application data directory.
pub fn launch_plan(appdata: &str, found: Option<String>) -> (r: LaunchPlan)
    ensures
        r.program@ == match found {
            Some(p) => p@,
            None => DEFAULT_INTERPRETER@,
        },
        r.args@.len() == 2,
        r.args@[0]@ == UNBUFFERED_FLAG@,
        r.args@[1]@ == SCRIPT_NAME@,
        r.workdir@ == appdata@ + WORKDIR_SUFFIX@,
        r.env@.len() == 2,
        r.env@[0].0@ == UNBUFFERED_VAR@,
        r.env@[0].1@ == UNBUFFERED_VALUE@,
        r.env@[1].0@ == ENCODING_VAR@,
        r.env@[1].1@ == ENCODING_VALUE@,
{
    let program = match found {
        Some(p) => p,
        None => String::from_str(DEFAULT_INTERPRETER),
    };
    let mut args: Vec<String> = Vec::new();
    args.push(String::from_str(UNBUFFERED_FLAG));
    args.push(String::from_str(SCRIPT_NAME));
    let workdir = String::from_str(appdata).concat(WORKDIR_SUFFIX);
    let mut env: Vec<(String, String)> = Vec::new();
    env.push((String::from_str(UNBUFFERED_VAR), String::from_str(UNBUFFERED_VALUE)));
    env.push((String::from_str(ENCODING_VAR), String::from_str(ENCODING_VALUE)));
    LaunchPlan { program, args, workdir, env }
}

/// Relies on `which::which`: the path of the first executable of that name
/// on the search path, or an error when there is none; a path that is not
/// valid Unicode counts as not found. Nothing is promised of the path, which
/// depends on the machine.
#[verifier::external_body]
fn find_program(name: &str) -> (r: Option<String>) {
    which::which(name).ok().and_then(|p| p.into_os_string().into_string().ok())
}

/// The launch plan with the interpreter looked up on the search path,
/// falling back to the default name when the lookup fails.
pub fn run_markov_chain_bot(appdata: &str) -> (r: LaunchPlan)
    ensures
        r.args@.len() == 2,
        r.args@[0]@ == UNBUFFERED_FLAG@,
        r.args@[1]@ == SCRIPT_NAME@,
        r.workdir@ == appdata@ + WORKDIR_SUFFIX@,
        r.env@.len() == 2,
        r.env@[0].0@ == UNBUFFERED_VAR@,
        r.env@[0].1@ == UNBUFFERED_VALUE@,
        r.env@[1].0@ == ENCODING_VAR@,
        r.env@[1].1@ == ENCODING_VALUE@,
{
    let found = find_program(DEFAULT_INTERPRETER);
    launch_plan(appdata, found)
}

/// The sentinel line for `stamp`.
pub fn make_sentinel_line(stamp: &str) -> (r: String)
    ensures
        r@ == sentinel_line(stamp@),
{
    let r = String::from_str("[").concat(stamp).concat("] ").concat(SENTINEL);
    assert(r@ =~= sentinel_line(stamp@));
    r
}

/// The restart message line for `stamp` and `msg`.
pub fn make_message_line(stamp: &str, msg: &str) -> (r: String)
    ensures
        r@ == message_line(stamp@, msg@),
{
    let r = String::from_str("[").concat(stamp).concat("]: ").concat(msg);
    assert(r@ =~= message_line(stamp@, msg@));
    r
}

/// Stops the current child at time `stamp`: forgets it, appends the sentinel
/// line to `ring` if one was running, and returns what the caller must
/// terminate. With no child this changes nothing.
pub fn stop_bot_at(sup: &mut Supervisor, ring: &mut LogRing, stamp: &str) -> (r: Option<StopOrder>)
    requires
        old(ring).wf(),
    ensures
        final(sup).child_pid is None,
        final(ring).wf(),
        final(ring).cap() == old(ring).cap(),
        final(ring)@ == stop_ring(old(ring)@, old(ring).cap(), old(sup).child_pid is Some, stamp@),
        r is Some <==> old(sup).child_pid is Some,
        r is Some ==> r->0.pid == old(sup).child_pid->0
            && r->0.notice@ == kill_notice(old(sup).child_pid->0 as nat),
{
    match sup.child_pid {
        None => None,
        Some(pid) => {
            let digits = u64_to_decimal(pid as u64);
            let notice = String::from_str("[DEBUG] Ran: taskkill /PID ").concat(digits.as_str()).concat(" /F /T");
            assert(notice@ =~= kill_notice(pid as nat));
            sup.child_pid = None;
            ring.push(make_sentinel_line(stamp));
            Some(StopOrder { pid, notice })
        },
    }
}

/// `stop_bot_at` at the current local time; the time used is returned.
pub fn stop_bot(sup: &mut Supervisor, ring: &mut LogRing) -> (r: Stamped<Option<StopOrder>>)
    requires
        old(ring).wf(),
    ensures
        final(sup).child_pid is None,
        final(ring).wf(),
        final(ring).cap() == old(ring).cap(),
        final(ring)@ == stop_ring(old(ring)@, old(ring).cap(), old(sup).child_pid is Some, r.stamp@),
        r.value is Some <==> old(sup).child_pid is Some,
        r.value is Some ==> r.value->0.pid == old(sup).child_pid->0
            && r.value->0.notice@ == kill_notice(old(sup).child_pid->0 as nat),
{
    let stamp = local_now_formatted(LINE_STAMP_FORMAT);
    let value = stop_bot_at(sup, ring, stamp.as_str());
    Stamped { value, stamp }
}

/// Restarts at time `stamp`: stops any current child as `stop_bot_at` does,
/// then appends the caller's message, so that both lines come before any
/// output of the next run. The caller terminates what is returned, launches
/// the next run and records it with `record_spawn`.
pub fn restart_bot_at(sup: &mut Supervisor, ring: &mut LogRing, msg: &str, stamp: &str) -> (r: Option<StopOrder>)
    requires
        old(ring).wf(),
    ensures
        final(sup).child_pid is None,
        final(ring).wf(),
        final(ring).cap() == old(ring).cap(),
        final(ring)@ == restart_ring(old(ring)@, old(ring).cap(), old(sup).child_pid is Some, stamp@, msg@),
        r is Some <==> old(sup).child_pid is Some,
        r is Some ==> r->0.pid == old(sup).child_pid->0
            && r->0.notice@ == kill_notice(old(sup).child_pid->0 as nat),
{
    let order = stop_bot_at(sup, ring, stamp);
    ring.push(make_message_line(stamp, msg));
    order
}

/// `restart_bot_at` at the current local time; the time used is returned.
pub fn restart_bot(sup: &mut Supervisor, ring: &mut LogRing, msg: &str) -> (r: Stamped<Option<StopOrder>>)
    requires
        old(ring).wf(),
    ensures
        final(sup).child_pid is None,
        final(ring).wf(),
        final(ring).cap() == old(ring).cap(),
        final(ring)@ == restart_ring(old(ring)@, old(ring).cap(), old(sup).child_pid is Some, r.stamp@, msg@),
        r.value is Some <==> old(sup).child_pid is Some,
        r.value is Some ==> r.value->0.pid == old(sup).child_pid->0
            && r.value->0.notice@ == kill_notice(old(sup).child_pid->0 as nat),
{
    let stamp = local_now_formatted(LINE_STAMP_FORMAT);
    let value = restart_bot_at(sup, ring, msg, stamp.as_str());
    Stamped { value, stamp }
}

} // verus!
