//! Wall-clock timestamps in the two layouts the log uses.
use vstd::prelude::*;

verus! {

/// Layout of the timestamp inside log and ring lines: `MM/DD/YYYY - HH:MM:SS`.
pub const LINE_STAMP_FORMAT: &'static str = "%m/%d/%Y - %H:%M:%S";

/// Layout of a generated log file name: `MM-DD-YY_HH-MM-SS.log`.
pub const FILE_STAMP_FORMAT: &'static str = "%m-%d-%y_%H-%M-%S.log";

/// Relies on chrono's `Local::now().format(fmt).to_string()`: the local time
/// now, laid out by `fmt`. Both layouts above are valid strftime patterns, so
/// rendering them does not fail. Nothing is promised of the time itself.
#[verifier::external_body]
pub(crate) fn local_now_formatted(fmt: &str) -> (r: String)
    requires
        fmt@ == LINE_STAMP_FORMAT@ || fmt@ == FILE_STAMP_FORMAT@,
{
    chrono::Local::now().format(fmt).to_string()
}

/// An outcome together with the local time it was stamped with.
pub struct Stamped<T> {
    pub value: T,
    pub stamp: String,
}

} // verus!
