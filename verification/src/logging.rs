//! What a log file opens with.

use vstd::prelude::*;

verus! {

/// The first line of a log. Only warnings and panics are logged, so a healthy
/// run's file would otherwise be empty, and an empty file is indistinguishable
/// from a sink that never worked.
pub fn banner(version: &str) -> (line: String)
    ensures
        line@ == "jamstream-app "@ + version@
            + " log; warnings and panics land here; empty after this line is a healthy run"@,
{
    let mut line = "jamstream-app ".to_owned();
    line.append(version);
    line.append(" log; warnings and panics land here; empty after this line is a healthy run");
    line
}

} // verus!
