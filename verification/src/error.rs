//! Shared error taxonomy for every scanner.
//!
//! A scanner invocation fails in exactly one of two ways: the external tool is
//! absent (`NotInstalled`), or the tool could not be spawned or exited
//! abnormally (`Runtime`). Neither is fatal to the run as a whole; the caller
//! logs the message and goes on with the remaining scanners.

use vstd::prelude::*;

verus! {

/// Why one scanner invocation produced no results.
///
/// Both variants carry the scanner's name, so the report can say which
/// scanner was skipped.
#[derive(Debug)]
pub enum ScanError {
    /// The required executable is absent from the search path.
    NotInstalled(String),
    /// The subprocess could not be spawned or terminated abnormally.
    Runtime(String),
}

/// The log line for one scanner failure: the scanner's name followed by what
/// went wrong. The caller prints it; failures never abort the run.
pub fn handle_scan_error(err: &ScanError) -> (msg: String)
    ensures
        err matches ScanError::NotInstalled(s) ==> msg@ == s@
            + ": Not installed, skipping this scan."@,
        err matches ScanError::Runtime(s) ==> msg@ == s@ + ": Encountered runtime error"@,
{
    match err {
        ScanError::NotInstalled(scan) => {
            let mut msg = scan.clone();
            msg.append(": Not installed, skipping this scan.");
            msg
        },
        ScanError::Runtime(scan) => {
            let mut msg = scan.clone();
            msg.append(": Encountered runtime error");
            msg
        },
    }
}

} // verus!
