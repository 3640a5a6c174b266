//! Reading the outcome of answering a prompt.
use vstd::prelude::*;

use crate::errors::PromptError;
use crate::text::join_text;

verus! {

/// The message reported when switching relative number notation on or off fails.
pub open spec fn relative_notation_failure_text(enable: bool) -> Seq<char> {
    "failed to "@ + (if enable {
        "enable"@
    } else {
        "disable"@
    }) + " relative number notation"@
}

/// Interprets the status returned after switching relative number notation on or off: `0` is
/// a success, anything else a configuration error.
pub fn relative_notation_outcome(enable: bool, status: i32) -> (r: Result<(), PromptError>)
    ensures
        r is Ok <==> status == 0,
        r matches Err(e) ==> e matches PromptError::Config(m) && m@
            == relative_notation_failure_text(enable),
{
    if status == 0 {
        Ok(())
    } else {
        let op = if enable {
            "enable"
        } else {
            "disable"
        };
        let mut m = join_text("failed to ", op);
        m.append(" relative number notation");
        Err(PromptError::Config(m))
    }
}

/// The message reported when answering a yes/no question fails; the answer is quoted.
pub open spec fn yes_no_failure_text(answer: bool) -> Seq<char> {
    "failed to set answer to yes/no question to: "@ + (if answer {
        "\"yes\""@
    } else {
        "\"no\""@
    })
}

/// Interprets the status returned after answering a yes/no question: `0` is a success,
/// anything else a configuration error.
pub fn yes_no_outcome(answer: bool, status: i32) -> (r: Result<(), PromptError>)
    ensures
        r is Ok <==> status == 0,
        r matches Err(e) ==> e matches PromptError::Config(m) && m@ == yes_no_failure_text(answer),
{
    if status == 0 {
        Ok(())
    } else {
        let quoted = if answer {
            "\"yes\""
        } else {
            "\"no\""
        };
        Err(PromptError::Config(join_text("failed to set answer to yes/no question to: ", quoted)))
    }
}

} // verus!
