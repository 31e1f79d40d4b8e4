//! The logging collaborator's pure parts: the shape of a log line, and the
//! rotation rule for the log file.

use vstd::prelude::*;

verus! {

/// A log file larger than this is cleared before new entries are written.
pub const LOG_SIZE_LIMIT: u64 = 1048576;

/// One log line: `[<timestamp>] <level> - <context>: <message>` and a
/// trailing newline.
pub fn format_log_line(timestamp: &str, level: &str, context: &str, message: &str) -> (r: String)
    ensures
        r@ == "["@ + timestamp@ + "] "@ + level@ + " - "@ + context@ + ": "@ + message@
            + "\n"@,
{
    let r = "[".to_owned().concat(timestamp).concat("] ").concat(level).concat(" - ").concat(
        context,
    ).concat(": ").concat(message).concat("\n");
    proof {
        assert(r@ =~= "["@ + timestamp@ + "] "@ + level@ + " - "@ + context@ + ": "@ + message@
            + "\n"@);
    }
    r
}

/// Whether the log file has outgrown the limit and must be cleared.
pub fn log_needs_rotation(size: u64) -> (r: bool)
    ensures
        r == (size > LOG_SIZE_LIMIT),
{
    size > LOG_SIZE_LIMIT
}

} // verus!
