//! The asynchronous log writer's decisions: which file to write, which old
//! files to delete, what each queued message asks of the writer thread, and
//! the handle producers use to queue lines without blocking.
use std::sync::mpsc::Sender;
use vstd::prelude::*;
use vstd::relations::injective_on;
use vstd::set_lib::{lemma_int_range, lemma_map_size, lemma_set_difference_len, lemma_subset_equality, set_int_range};
use crate::clock::{local_now_formatted, Stamped, FILE_STAMP_FORMAT, LINE_STAMP_FORMAT};

verus! {

/// How many log files are kept.
pub const MAX_LOG_FILES: usize = 10;

/// Environment variable naming a log file to use instead of a generated one.
pub const LOG_PATH_VAR: &'static str = "YAPBOT_LOG_PATH";

/// Prefix of lines the application itself logs.
pub const APP_TAG: &'static str = "[TwitchYapBot.exe] ";

/// One entry of the log directory, as rotation sees it.
#[derive(Clone, Copy, Debug, PartialEq, Eq, Structural)]
pub struct LogFileEntry {
    /// The entry's extension is `log`.
    pub is_log: bool,
    /// Creation time, when the file system reports one.
    pub created: Option<u64>,
}

/// The rotation order key: a file whose creation time is unknown sorts first.
pub open spec fn age_key(e: LogFileEntry) -> int {
    match e.created {
        Some(t) => t as int,
        None => -1,
    }
}

/// Entry `a` goes before entry `b` in rotation order: older, or equally
/// old and listed first.
pub open spec fn goes_before(s: Seq<LogFileEntry>, a: int, b: int) -> bool {
    age_key(s[a]) < age_key(s[b]) || (age_key(s[a]) == age_key(s[b]) && a < b)
}

/// How many log files among the first `k` entries come after entry `i` in
/// rotation order.
pub open spec fn count_after(s: Seq<LogFileEntry>, i: int, k: int) -> nat
    decreases k,
{
    if k <= 0 {
        0
    } else {
        count_after(s, i, k - 1) + if s[k - 1].is_log && goes_before(s, i, k - 1) { 1nat } else { 0nat }
    }
}

/// A log file is deleted when at least `keep` log files are newer than it:
/// what remains is the `keep` newest.
pub open spec fn is_victim(s: Seq<LogFileEntry>, keep: nat, i: int) -> bool {
    s[i].is_log && count_after(s, i, s.len() as int) >= keep
}

proof fn lemma_count_after_bound(s: Seq<LogFileEntry>, i: int, k: int)
    requires
        0 <= k <= s.len(),
    ensures
        count_after(s, i, k) + (if 0 <= i < k { 1int } else { 0int }) <= k,
    decreases k,
{
    if k > 0 {
        lemma_count_after_bound(s, i, k - 1);
    }
}

proof fn lemma_count_after_monotone(s: Seq<LogFileEntry>, a: int, b: int, k: int)
    requires
        0 <= k <= s.len(),
        0 <= a < s.len(),
        0 <= b < s.len(),
        goes_before(s, a, b),
    ensures
        count_after(s, a, k) >= count_after(s, b, k) + (if b < k && s[b].is_log { 1int } else { 0int }),
    decreases k,
{
    if k > 0 {
        lemma_count_after_monotone(s, a, b, k - 1);
    }
}

/// With `keep + 2` log files of distinct creation times, rotation deletes
/// exactly two of them, `keep` remain, and every deleted file is older than
/// every remaining one.
pub proof fn lemma_rotation_keeps_newest(s: Seq<LogFileEntry>, keep: nat)
    requires
        s.len() == keep + 2,
        forall|i: int| 0 <= i < s.len() ==> (#[trigger] s[i]).is_log && s[i].created is Some,
        forall|i: int, j: int| 0 <= i < s.len() && 0 <= j < s.len() && i != j ==> s[i].created != s[j].created,
    ensures
        Set::new(|i: int| 0 <= i < s.len() && is_victim(s, keep, i)).len() == 2,
        Set::new(|i: int| 0 <= i < s.len() && !is_victim(s, keep, i)).len() == keep,
        forall|v: int, k: int|
            0 <= v < s.len() && 0 <= k < s.len() && is_victim(s, keep, v) && !is_victim(s, keep, k)
                ==> age_key(s[v]) < age_key(s[k]),
{
    let n = s.len() as int;
    let dom = set_int_range(0, n);
    let c = |i: int| count_after(s, i, n) as int;
    lemma_int_range(0, n);
    assert forall|i: int| 0 <= i < n implies #[trigger] count_after(s, i, n) < n by {
        lemma_count_after_bound(s, i, n);
    }
    assert forall|a: int, b: int| 0 <= a < n && 0 <= b < n && #[trigger] goes_before(s, a, b) implies count_after(s, a, n) > count_after(s, b, n) by {
        lemma_count_after_monotone(s, a, b, n);
    }
    assert forall|a: int, b: int| 0 <= a < n && 0 <= b < n && a != b implies goes_before(s, a, b)
        || goes_before(s, b, a) by {
        assert(s[a].created != s[b].created);
    }
    assert(injective_on(c, dom)) by {
        assert forall|x1: int, x2: int| dom.contains(x1) && dom.contains(x2) && c(x1) == c(x2) implies x1
            == x2 by {
            if x1 != x2 {
                assert(goes_before(s, x1, x2) || goes_before(s, x2, x1));
            }
        }
    }
    let image = dom.map(c);
    lemma_map_size(dom, image, c);
    assert(image.subset_of(dom));
    lemma_subset_equality(image, dom);
    assert(dom.contains(keep as int));
    assert(image.contains(keep as int));
    let v1 = choose|i: int| dom.contains(i) && c(i) == keep as int;
    assert(dom.contains(keep + 1int));
    assert(image.contains(keep + 1int));
    let v2 = choose|i: int| dom.contains(i) && c(i) == keep + 1int;
    let victims = Set::new(|i: int| 0 <= i < s.len() && is_victim(s, keep, i));
    assert(victims =~= set![v1, v2]) by {
        assert forall|x: int| victims.contains(x) implies x == v1 || x == v2 by {
            assert(c(x) == keep || c(x) == keep + 1);
        }
    }
    assert(set![v1, v2].len() == 2) by {
        assert(set![v1].len() == 1);
        assert(!set![v1].contains(v2));
    }
    let survivors = Set::new(|i: int| 0 <= i < s.len() && !is_victim(s, keep, i));
    assert(survivors =~= dom.difference(victims));
    assert(dom.intersect(victims) =~= victims);
    lemma_set_difference_len(dom, victims);
    assert forall|v: int, k: int|
        0 <= v < s.len() && 0 <= k < s.len() && is_victim(s, keep, v) && !is_victim(s, keep, k)
            implies age_key(s[v]) < age_key(s[k]) by {
        assert(v != k);
        assert(s[v].created != s[k].created);
        if goes_before(s, k, v) {
            assert(c(k) > c(v));
        }
    }
}

fn goes_before_exec(entries: &Vec<LogFileEntry>, a: usize, b: usize) -> (r: bool)
    requires
        a < entries@.len(),
        b < entries@.len(),
    ensures
        r == goes_before(entries@, a as int, b as int),
{
    let ka = entries[a].created;
    let kb = entries[b].created;
    match (ka, kb) {
        (None, None) => a < b,
        (None, Some(_)) => true,
        (Some(_), None) => false,
        (Some(x), Some(y)) => x < y || (x == y && a < b),
    }
}

/// The indices, in increasing order, of the log files to delete so that
/// only the `keep` newest remain; other entries are never chosen.
pub fn rotation_victims(entries: &Vec<LogFileEntry>, keep: usize) -> (r: Vec<usize>)
    ensures
        forall|j: int| 0 <= j < r@.len() ==> r@[j] < entries@.len(),
        forall|j: int, k: int| 0 <= j < k < r@.len() ==> r@[j] < r@[k],
        forall|i: int| 0 <= i < entries@.len() ==> (r@.contains(i as usize) <==> is_victim(entries@, keep as nat, i)),
{
    let n = entries.len();
    let mut out: Vec<usize> = Vec::new();
    let mut i: usize = 0;
    while i < n
        invariant
            n == entries@.len(),
            i <= n,
            forall|j: int| 0 <= j < out@.len() ==> out@[j] < i,
            forall|j: int, k: int| 0 <= j < k < out@.len() ==> out@[j] < out@[k],
            forall|x: int| 0 <= x < i ==> (out@.contains(x as usize) <==> is_victim(entries@, keep as nat, x)),
        decreases n - i,
    {
        let ghost before = out@;
        if entries[i].is_log {
            let mut count: usize = 0;
            let mut k: usize = 0;
            while k < n
                invariant
                    n == entries@.len(),
                    i < n,
                    k <= n,
                    count == count_after(entries@, i as int, k as int),
                    count <= k,
                decreases n - k,
            {
                if entries[k].is_log && goes_before_exec(entries, i, k) {
                    count = count + 1;
                }
                k = k + 1;
            }
            if count >= keep {
                out.push(i);
            }
            assert(count_after(entries@, i as int, n as int) >= keep <==> out@ == before.push(i));
        }
        assert(out@ == before || out@ == before.push(i));
        assert(out@ == before.push(i) <==> is_victim(entries@, keep as nat, i as int));
        proof {
            assert forall|x: int| 0 <= x < i + 1 implies (out@.contains(x as usize) <==> is_victim(
                entries@,
                keep as nat,
                x,
            )) by {
                if x < i {
                    if out@.contains(x as usize) {
                        let j = choose|j: int| 0 <= j < out@.len() && out@[j] == x as usize;
                        if j < before.len() {
                            assert(before[j] == x as usize);
                        }
                    }
                    if before.contains(x as usize) {
                        let j = choose|j: int| 0 <= j < before.len() && before[j] == x as usize;
                        assert(out@[j] == x as usize);
                    }
                } else {
                    if out@.contains(x as usize) {
                        let j = choose|j: int| 0 <= j < out@.len() && out@[j] == x as usize;
                        if j < before.len() {
                            assert(before[j] < i);
                        }
                    }
                    if out@.contains(x as usize) {
                        assert(entries@[x].is_log);
                    }
                    if is_victim(entries@, keep as nat, x) {
                        assert(out@[out@.len() - 1] == x as usize);
                    }
                }
            }
        }
        i = i + 1;
    }
    out
}

/// Where the log goes: a path given by the environment, or a generated
/// file name inside the log directory (which is then rotated first).
pub enum LogTarget {
    Override(String),
    InLogDir(String),
}

/// The log target for an optional override path and a generated name.
pub fn choose_log_target(env_override: Option<String>, generated_name: String) -> (r: LogTarget)
    ensures
        env_override is Some ==> r == LogTarget::Override(env_override->0),
        env_override is None ==> r == LogTarget::InLogDir(generated_name),
{
    match env_override {
        Some(p) => LogTarget::Override(p),
        None => LogTarget::InLogDir(generated_name),
    }
}

/// The log target for an optional override path, naming a generated file
/// after the current local time.
pub fn log_target(env_override: Option<String>) -> (r: LogTarget)
    ensures
        env_override is Some ==> r == LogTarget::Override(env_override->0),
        env_override is None ==> r is InLogDir,
{
    let name = local_now_formatted(FILE_STAMP_FORMAT);
    choose_log_target(env_override, name)
}

/// A message to the writer thread.
pub enum LogMsg {
    Line(String),
    Shutdown,
}

/// What the writer thread does on one message.
pub enum WriterAction {
    /// Append the line, then rotate the log directory.
    AppendAndRotate(String),
    /// Flush the file and stop.
    FlushAndStop,
}

/// The writer thread's response to `msg`.
pub fn writer_step(msg: LogMsg) -> (r: WriterAction)
    ensures
        msg is Shutdown ==> r is FlushAndStop,
        msg is Line ==> r == WriterAction::AppendAndRotate(msg->Line_0),
{
    match msg {
        LogMsg::Line(l) => WriterAction::AppendAndRotate(l),
        LogMsg::Shutdown => WriterAction::FlushAndStop,
    }
}

#[verifier::external_type_specification]
#[verifier::external_body]
#[verifier::reject_recursive_types(T)]
pub struct ExSender<T>(Sender<T>);

/// What a message records in a logger's history: the line's text, or
/// `None` for a shutdown request.
pub open spec fn msg_record(msg: LogMsg) -> Option<Seq<char>> {
    match msg {
        LogMsg::Line(l) => Some(l@),
        LogMsg::Shutdown => None,
    }
}

/// Relies on `std::sync::mpsc::Sender::send`: queues `msg` without blocking;
/// it fails only when the receiving side is gone, and then queues nothing.
/// The logger's history records exactly the messages that were queued.
#[verifier::external_body]
fn send_log_msg(logger: &mut Logger, msg: LogMsg) -> (r: bool)
    ensures
        r ==> final(logger).queued() == old(logger).queued().push(msg_record(msg)),
        !r ==> final(logger).queued() == old(logger).queued(),
{
    logger.sender.send(msg).is_ok()
}

/// A producer's handle on the writer thread, with the history of what it
/// has queued.
pub struct Logger {
    sender: Sender<LogMsg>,
    history: Ghost<Seq<Option<Seq<char>>>>,
}

impl Logger {
    /// The messages queued through this handle, oldest first: a line's text,
    /// or `None` for a shutdown request.
    pub closed spec fn queued(&self) -> Seq<Option<Seq<char>>> {
        self.history@
    }

    /// A handle that queues on `sender`; the writer thread owns the receiver.
    pub fn new(sender: Sender<LogMsg>) -> (r: Logger)
        ensures
            r.queued() == Seq::<Option<Seq<char>>>::empty(),
    {
        Logger { sender, history: Ghost(Seq::empty()) }
    }

    /// Queues `line` for the writer thread; never blocks. Returns whether
    /// it was queued, which fails only once the writer thread has gone.
    pub fn log(&mut self, line: String) -> (r: bool)
        ensures
            r ==> final(self).queued() == old(self).queued().push(Some(line@)),
            !r ==> final(self).queued() == old(self).queued(),
    {
        send_log_msg(self, LogMsg::Line(line))
    }

    /// Asks the writer thread to flush and stop.
    pub fn shutdown(&mut self) -> (r: bool)
        ensures
            r ==> final(self).queued() == old(self).queued().push(None),
            !r ==> final(self).queued() == old(self).queued(),
    {
        send_log_msg(self, LogMsg::Shutdown)
    }
}

/// Queues `msg` on `logger`.
pub fn log_message(logger: &mut Logger, msg: &str) -> (r: bool)
    ensures
        r ==> final(logger).queued() == old(logger).queued().push(Some(msg@)),
        !r ==> final(logger).queued() == old(logger).queued(),
{
    logger.log(String::from_str(msg))
}

/// Asks `logger`'s writer thread to flush the log and stop.
pub fn shutdown_logger(logger: &mut Logger) -> (r: bool)
    ensures
        r ==> final(logger).queued() == old(logger).queued().push(None),
        !r ==> final(logger).queued() == old(logger).queued(),
{
    logger.shutdown()
}

/// A line the application logs about itself at time `stamp`.
pub open spec fn app_line(stamp: Seq<char>, msg: Seq<char>) -> Seq<char> {
    APP_TAG@ + "["@ + stamp + "]: "@ + msg
}

pub fn make_app_line(stamp: &str, msg: &str) -> (r: String)
    ensures
        r@ == app_line(stamp@, msg@),
{
    let r = String::from_str(APP_TAG).concat("[").concat(stamp).concat("]: ").concat(msg);
    assert(r@ =~= app_line(stamp@, msg@));
    r
}

/// Logs `msg` as a line of the application's own, stamped with the current
/// local time; the time used is returned with whether the line was queued.
pub fn log_and_print(logger: &mut Logger, msg: &str) -> (r: Stamped<bool>)
    ensures
        r.value ==> final(logger).queued() == old(logger).queued().push(Some(app_line(r.stamp@, msg@))),
        !r.value ==> final(logger).queued() == old(logger).queued(),
{
    let stamp = local_now_formatted(LINE_STAMP_FORMAT);
    let value = logger.log(make_app_line(stamp.as_str(), msg));
    Stamped { value, stamp }
}

} // verus!
