//! Failures of the camera SDK, and how they are reported.
//!
//! Every failure that the SDK reports is fatal: the driver logs the report and
//! ends the process with [`FAILURE_EXIT_CODE`]. That no camera qualifies is no
//! failure; it shows as an absent session.

use vstd::prelude::*;
use vstd::string::StringExecFns;

verus! {

/// Exit code of a process that ends on a failure of the SDK.
pub const FAILURE_EXIT_CODE: i32 = 1;

/// A failure as the SDK describes it.
#[derive(Clone, Debug)]
pub struct SdkError {
    /// Name of the SDK operation that failed.
    pub operation: String,
    /// The arguments of that call, as the SDK prints them.
    pub arguments: String,
    /// The SDK's message.
    pub message: String,
}

/// The report of a failure: a line that names the operation and its arguments,
/// then the message.
pub open spec fn report_text(
    operation: Seq<char>,
    arguments: Seq<char>,
    message: Seq<char>,
) -> Seq<char> {
    "rs_error was raised when calling "@ + operation + "("@ + arguments + "):\n"@ + message
}

impl SdkError {
    /// The text to log for this failure.
    pub fn report(&self) -> (text: String)
        ensures
            text@ == report_text(self.operation@, self.arguments@, self.message@),
    {
        let mut text: String = String::from_str("rs_error was raised when calling ");
        text.append(self.operation.as_str());
        text.append("(");
        text.append(self.arguments.as_str());
        text.append("):\n");
        text.append(self.message.as_str());
        text
    }
}

} // verus!
