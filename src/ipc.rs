//! The loopback restart channel: a second process writes one fixed command
//! and the listener raises a shared flag that the control loop consumes.
use std::sync::atomic::{AtomicBool, Ordering};
use vstd::prelude::*;
use crate::text::{is_space, trim, trim_end, trim_start, trimmed_chars};

verus! {

/// The only message of the protocol.
pub const RESTART_COMMAND: &'static str = "RESTART_BOT";

/// The loopback address the listener binds and the sender connects to.
pub const IPC_ADDRESS: &'static str = "127.0.0.1:9876";

/// How many bytes the listener reads from one connection.
pub const IPC_BUFFER_LEN: usize = 32;

/// What `String::from_utf8_lossy` makes of the bytes `b`.
pub uninterp spec fn utf8_lossy(b: Seq<u8>) -> Seq<char>;

/// The characters of bytes that are all ASCII.
pub open spec fn ascii_chars(b: Seq<u8>) -> Seq<char> {
    b.map_values(|x: u8| x as char)
}

pub open spec fn all_ascii(b: Seq<u8>) -> bool {
    forall|i: int| 0 <= i < b.len() ==> b[i] < 128
}

/// Decoded text is a restart request when, trimmed, it is the command.
pub open spec fn is_restart_text(t: Seq<char>) -> bool {
    trim(t) == RESTART_COMMAND@
}

/// The bytes that the sender writes are a restart request: they are ASCII,
/// and the command they spell is already trimmed.
pub proof fn lemma_ipc_round_trip(payload: Seq<u8>)
    requires
        all_ascii(payload),
        ascii_chars(payload) == RESTART_COMMAND@,
    ensures
        is_restart_text(ascii_chars(payload)),
{
    reveal_strlit("RESTART_BOT");
    let t = RESTART_COMMAND@;
    assert(!is_space(t[0]));
    assert(trim_start(t) == t);
    assert(!is_space(t.last()));
    assert(trim_end(t) == t);
}

/// Relies on `String::from_utf8_lossy`: the bytes decoded as UTF-8, each
/// invalid sequence replaced by U+FFFD. ASCII bytes are valid UTF-8 and
/// decode one character per byte.
#[verifier::external_body]
fn decode_lossy(b: &[u8]) -> (r: String)
    ensures
        r@ == utf8_lossy(b@),
        all_ascii(b@) ==> r@ == ascii_chars(b@),
{
    String::from_utf8_lossy(b).into_owned()
}

/// Whether decoded text, once trimmed, is exactly the restart command.
pub fn is_restart_message(text: &str) -> (r: bool)
    ensures
        r == is_restart_text(text@),
{
    let t = trimmed_chars(text);
    let want = crate::text::chars_of(RESTART_COMMAND);
    if t.len() != want.len() {
        return false;
    }
    let n = t.len();
    let mut i: usize = 0;
    while i < n
        invariant
            n == t@.len(),
            n == want@.len(),
            t@ == trim(text@),
            want@ == RESTART_COMMAND@,
            i <= n,
            forall|k: int| 0 <= k < i ==> t@[k] == want@[k],
        decreases n - i,
    {
        if t[i] != want[i] {
            return false;
        }
        i = i + 1;
    }
    assert(t@ =~= want@);
    true
}

/// Whether the bytes read from one connection request a restart.
pub fn restart_requested(payload: &[u8]) -> (r: bool)
    ensures
        r == is_restart_text(utf8_lossy(payload@)),
        all_ascii(payload@) ==> r == is_restart_text(ascii_chars(payload@)),
{
    let text = decode_lossy(payload);
    is_restart_message(text.as_str())
}

/// Handles one connection's bytes: raises `flag` when they request a
/// restart, and leaves it alone otherwise. Returns whether it was raised.
pub fn handle_ipc_payload(flag: &AtomicBool, payload: &[u8]) -> (r: bool)
    ensures
        r == is_restart_text(utf8_lossy(payload@)),
        all_ascii(payload@) ==> r == is_restart_text(ascii_chars(payload@)),
{
    let requested = restart_requested(payload);
    if requested {
        flag.store(true, Ordering::SeqCst);
    }
    requested
}

/// Takes a pending restart request from `flag`, lowering it.
pub fn take_restart_request(flag: &AtomicBool) -> bool {
    flag.swap(false, Ordering::SeqCst)
}

/// The bytes a second process sends to request a restart.
pub fn restart_payload() -> (r: Vec<u8>)
    ensures
        all_ascii(r@),
        ascii_chars(r@) == RESTART_COMMAND@,
{
    proof {
        reveal_strlit("RESTART_BOT");
    }
    let out: Vec<u8> = vec![82u8, 69, 83, 84, 65, 82, 84, 95, 66, 79, 84];
    assert(ascii_chars(out@) =~= RESTART_COMMAND@);
    out
}

} // verus!
