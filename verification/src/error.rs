//! The fatal errors a run can end with, and how raw failure reports from the
//! shell are classified into them.

use vstd::prelude::*;
use vstd::string::*;

verus! {

/// A fatal error: the run stops before any report is printed, and the user
/// sees only the generic category that [`CliError::describe`] renders, never
/// the captured detail.
#[derive(Debug)]
pub enum CliError {
    /// The listing backend could not be started at all, which means the host
    /// lacks the required tool.
    UnsupportedOS,
    /// The root path does not exist or is not a directory; nothing was
    /// scanned.
    InvalidRoot,
    /// The listing backend ran but exited unsuccessfully; `message` holds its
    /// captured diagnostic output.
    ScanBackendFailure { message: String },
    /// Any other failure, with its captured detail.
    Other { message: String },
}

impl CliError {
    /// The generic category shown to the user. Captured detail is deliberately
    /// not included.
    pub fn describe(&self) -> (s: String)
        ensures
            self is UnsupportedOS ==> s@ == "unsupported OS"@,
            self is InvalidRoot ==> s@ == "root path is not an existing directory"@,
            self is ScanBackendFailure ==> s@ == "the file listing failed"@,
            self is Other ==> s@ == "unexpected error"@,
    {
        match self {
            CliError::UnsupportedOS => String::from_str("unsupported OS"),
            CliError::InvalidRoot => String::from_str("root path is not an existing directory"),
            CliError::ScanBackendFailure { message: _ } => String::from_str(
                "the file listing failed",
            ),
            CliError::Other { message: _ } => String::from_str("unexpected error"),
        }
    }
}

/// Classifies a failure to start the listing backend. A missing tool means
/// the platform is unsupported; anything else keeps its captured detail.
pub fn classify_spawn_error(tool_missing: bool, message: String) -> (e: CliError)
    ensures
        tool_missing ==> e is UnsupportedOS,
        !tool_missing ==> e == (CliError::Other { message }),
{
    if tool_missing {
        CliError::UnsupportedOS
    } else {
        CliError::Other { message }
    }
}

/// Checks the root path's reported shape before any scanning work begins:
/// the scan may proceed exactly when the root exists and is a directory.
pub fn validate_root(exists: bool, is_dir: bool) -> (r: Result<(), CliError>)
    ensures
        r is Ok <==> (exists && is_dir),
        r is Err ==> r->Err_0 is InvalidRoot,
{
    if exists && is_dir {
        Ok(())
    } else {
        Err(CliError::InvalidRoot)
    }
}

} // verus!
