//! How much the service logs.

use vstd::prelude::*;

verus! {

/// The log filter that stands for `loglevel` where the environment names
/// none: `info` for 0, `debug` for 1 and `trace` for anything above.
pub fn log_filter(loglevel: u32) -> (filter: &'static str)
    ensures
        filter@ == match loglevel {
            0 => "info"@,
            1 => "debug"@,
            _ => "trace"@,
        },
{
    match loglevel {
        0 => "info",
        1 => "debug",
        _ => "trace",
    }
}

} // verus!
