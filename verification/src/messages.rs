//! The fixed user-facing texts of the first-run check, and the marker file's
//! payload.

use vstd::prelude::*;

use vstd::string::StringExecFns;

verus! {

/// The question asked on a first run.
pub fn first_run_prompt_text() -> (r: String)
    ensures
        r@ == "It seems like you are running tere for the first time. Would you like to configure your shell now? (y/n) "@,
{
    String::from_str(
        "It seems like you are running tere for the first time. Would you like to configure your shell now? (y/n) ",
    )
}

/// The message printed when the user declines the first-run prompt, just
/// before startup aborts.
pub fn cancellation_message() -> (r: String)
    ensures
        r@ == "Cancelled."@,
{
    String::from_str("Cancelled.")
}

/// What the marker file is written with. Only the file's existence is ever
/// read back, but the payload is kept non-empty.
pub fn marker_file_contents() -> (r: String)
    ensures
        r@ == "1"@,
        r@.len() > 0,
{
    proof {
        reveal_strlit("1");
    }
    String::from_str("1")
}

} // verus!
