//! Turning the child's output lines into log entries, ring-buffer lines and
//! UI notifications, with known noise dropped.
use vstd::prelude::*;
use crate::ring::{LogRing, ring_push, texts};
use crate::text::{contains_str, has_substring};

verus! {

/// Output that the child prints on a manual trigger; it is not shown or logged.
pub const NOISE_MARKER: &'static str = "Generate command triggered manually";

/// Tag put before each stdout line in the log file.
pub const STDOUT_TAG: &'static str = "[MarkovChainBot.py] ";

/// Tag put before each stderr line in the log file.
pub const STDERR_TAG: &'static str = "[MarkovChainBot.py][stderr] ";

/// Which standard stream of the child a line came from.
#[derive(Clone, Copy, Debug, PartialEq, Eq, Structural)]
pub enum StreamKind {
    Stdout,
    Stderr,
}

/// A line is noise when it holds the marker anywhere.
pub open spec fn is_noise(line: Seq<char>) -> bool {
    has_substring(line, NOISE_MARKER@)
}

/// The log-file entry for `line` read from `origin`.
pub open spec fn tagged(origin: StreamKind, line: Seq<char>) -> Seq<char> {
    match origin {
        StreamKind::Stdout => STDOUT_TAG@ + line,
        StreamKind::Stderr => STDERR_TAG@ + line,
    }
}

/// Whether `line` is noise that must not reach the log, the ring or the UI.
pub fn is_noise_line(line: &str) -> (r: bool)
    ensures
        r == is_noise(line@),
{
    contains_str(line, NOISE_MARKER)
}

/// What one output line produces besides its place in the ring.
pub struct PumpedLine {
    /// The entry handed to the log writer.
    pub log_entry: String,
    /// The line sent on the UI notification channel.
    pub notice: String,
}

/// Handles one complete line read from `origin`: noise is dropped
/// entirely; any other line is pushed into `ring`, and its tagged log entry
/// and its UI notification are returned.
pub fn pump_line(ring: &mut LogRing, line: String, origin: StreamKind) -> (r: Option<PumpedLine>)
    requires
        old(ring).wf(),
    ensures
        final(ring).wf(),
        final(ring).cap() == old(ring).cap(),
        is_noise(line@) ==> r is None && final(ring)@ == old(ring)@,
        !is_noise(line@) ==> r is Some && final(ring)@ == ring_push(old(ring)@, old(ring).cap(), line@)
            && r->0.log_entry@ == tagged(origin, line@) && r->0.notice@ == line@,
{
    if is_noise_line(line.as_str()) {
        return None;
    }
    let tag = match origin {
        StreamKind::Stdout => STDOUT_TAG,
        StreamKind::Stderr => STDERR_TAG,
    };
    let log_entry = String::from_str(tag).concat(line.as_str());
    let notice = line.clone();
    ring.push(line);
    Some(PumpedLine { log_entry, notice })
}

/// The lines of `xs` that are not noise, in order.
pub open spec fn kept(xs: Seq<Seq<char>>) -> Seq<Seq<char>>
    decreases xs.len(),
{
    if xs.len() == 0 {
        Seq::empty()
    } else if is_noise(xs.last()) {
        kept(xs.drop_last())
    } else {
        kept(xs.drop_last()).push(xs.last())
    }
}

/// The ring after pushing each of `ys` in order.
pub open spec fn push_all(ring: Seq<Seq<char>>, cap: nat, ys: Seq<Seq<char>>) -> Seq<Seq<char>>
    decreases ys.len(),
{
    if ys.len() == 0 {
        ring
    } else {
        ring_push(push_all(ring, cap, ys.drop_last()), cap, ys.last())
    }
}

/// The log entries for the lines `ys` read from `origin`.
pub open spec fn tagged_all(origin: StreamKind, ys: Seq<Seq<char>>) -> Seq<Seq<char>> {
    ys.map_values(|l: Seq<char>| tagged(origin, l))
}

/// What one stream's lines produce once pumped.
pub struct PumpedStream {
    /// The entries handed to the log writer, in order.
    pub log_entries: Vec<String>,
    /// The lines sent to the UI, in order.
    pub notices: Vec<String>,
}

/// Pumps the complete lines `lines` read from one stream, in order, as
/// `pump_line` does for each: noise lines reach neither the ring, nor the
/// log entries, nor the notices.
pub fn pump_lines(ring: &mut LogRing, lines: &Vec<String>, origin: StreamKind) -> (r: PumpedStream)
    requires
        old(ring).wf(),
    ensures
        final(ring).wf(),
        final(ring).cap() == old(ring).cap(),
        final(ring)@ == push_all(old(ring)@, old(ring).cap(), kept(texts(lines@))),
        texts(r.notices@) == kept(texts(lines@)),
        texts(r.log_entries@) == tagged_all(origin, kept(texts(lines@))),
{
    let mut log_entries: Vec<String> = Vec::new();
    let mut notices: Vec<String> = Vec::new();
    let ghost start = ring@;
    let ghost all = texts(lines@);
    let n = lines.len();
    let mut i: usize = 0;
    while i < n
        invariant
            n == all.len(),
            i <= n,
            all == texts(lines@),
            ring.wf(),
            ring.cap() == old(ring).cap(),
            start == old(ring)@,
            ring@ == push_all(start, ring.cap(), kept(all.subrange(0, i as int))),
            texts(notices@) == kept(all.subrange(0, i as int)),
            texts(log_entries@) == tagged_all(origin, kept(all.subrange(0, i as int))),
        decreases n - i,
    {
        let line = lines[i].clone();
        let ghost prefix = all.subrange(0, i as int);
        let ghost next = all.subrange(0, i + 1);
        assert(next.drop_last() =~= prefix);
        assert(next.last() == line@);
        let ghost notices_before = notices@;
        let ghost entries_before = log_entries@;
        match pump_line(ring, line, origin) {
            Some(p) => {
                let PumpedLine { log_entry, notice } = p;
                log_entries.push(log_entry);
                notices.push(notice);
                assert(texts(notices@) =~= texts(notices_before).push(notice@));
                assert(texts(log_entries@) =~= texts(entries_before).push(log_entry@));
                assert(tagged_all(origin, kept(next)) =~= tagged_all(origin, kept(prefix)).push(
                    tagged(origin, next.last()),
                ));
                assert(kept(next).drop_last() =~= kept(prefix));
            },
            None => {},
        }
        i = i + 1;
    }
    assert(all.subrange(0, n as int) =~= all);
    PumpedStream { log_entries, notices }
}

proof fn lemma_kept_clean(xs: Seq<Seq<char>>)
    ensures
        forall|i: int| 0 <= i < kept(xs).len() ==> !is_noise(#[trigger] kept(xs)[i]),
    decreases xs.len(),
{
    if xs.len() > 0 {
        lemma_kept_clean(xs.drop_last());
        let k = kept(xs.drop_last());
        if !is_noise(xs.last()) {
            assert forall|i: int| 0 <= i < kept(xs).len() implies !is_noise(#[trigger] kept(xs)[i]) by {
                if i < k.len() {
                    assert(kept(xs)[i] == k[i]);
                }
            }
        }
    }
}

proof fn lemma_push_all_from(ring: Seq<Seq<char>>, cap: nat, ys: Seq<Seq<char>>)
    ensures
        forall|i: int| 0 <= i < push_all(ring, cap, ys).len()
            ==> ring.contains(#[trigger] push_all(ring, cap, ys)[i]) || ys.contains(push_all(ring, cap, ys)[i]),
    decreases ys.len(),
{
    if ys.len() > 0 {
        let prev = push_all(ring, cap, ys.drop_last());
        lemma_push_all_from(ring, cap, ys.drop_last());
        let cur = push_all(ring, cap, ys);
        assert forall|i: int| 0 <= i < cur.len() implies ring.contains(#[trigger] cur[i]) || ys.contains(
            cur[i],
        ) by {
            let full = prev.push(ys.last());
            let off = if full.len() <= cap { 0 } else { full.len() - cap };
            assert(cur[i] == full[i + off]);
            if i + off < prev.len() {
                if ys.drop_last().contains(prev[i + off]) {
                    let j = choose|j: int| 0 <= j < ys.drop_last().len() && ys.drop_last()[j] == prev[i + off];
                    assert(ys[j] == cur[i]);
                }
            } else {
                assert(ys[ys.len() - 1] == cur[i]);
            }
        }
    }
}

/// Noise never passes the pump: after pumping any lines of one stream, every
/// notice, every log entry's line and every line the ring gained is free of
/// noise; a ring that held no noise still holds none.
pub proof fn lemma_noise_filtered(ring: Seq<Seq<char>>, cap: nat, origin: StreamKind, lines: Seq<Seq<char>>)
    ensures
        forall|i: int| 0 <= i < kept(lines).len() ==> !is_noise(#[trigger] kept(lines)[i]),
        forall|i: int| 0 <= i < kept(lines).len() ==> #[trigger] tagged_all(origin, kept(lines))[i] == tagged(
            origin,
            kept(lines)[i],
        ),
        (forall|i: int| 0 <= i < ring.len() ==> !is_noise(#[trigger] ring[i])) ==> (forall|i: int|
            0 <= i < push_all(ring, cap, kept(lines)).len() ==> !is_noise(
                #[trigger] push_all(ring, cap, kept(lines))[i],
            )),
{
    lemma_kept_clean(lines);
    lemma_push_all_from(ring, cap, kept(lines));
    let out = push_all(ring, cap, kept(lines));
    if forall|i: int| 0 <= i < ring.len() ==> !is_noise(#[trigger] ring[i]) {
        assert forall|i: int| 0 <= i < out.len() implies !is_noise(#[trigger] out[i]) by {
            if ring.contains(out[i]) {
                let j = choose|j: int| 0 <= j < ring.len() && ring[j] == out[i];
                assert(!is_noise(ring[j]));
            } else {
                let j = choose|j: int| 0 <= j < kept(lines).len() && kept(lines)[j] == out[i];
                assert(!is_noise(kept(lines)[j]));
            }
        }
    }
}

} // verus!
