//! The confirmation asked before destructive changes.
use vstd::prelude::*;
use crate::error::ClaireError;
use crate::text::{same_text, trim, trimmed};

verus! {

/// The answer confirms the changes: without surrounding white space it is `yes`.
pub fn is_confirmation(input: &str) -> (r: bool)
    ensures
        r == (trimmed(input@) == "yes"@),
{
    let t = trim(input);
    same_text(t.as_str(), "yes")
}

/// Goes on only when the answer confirms the changes; any other answer gives `Aborted`.
pub fn confirmation(input: &str) -> (r: Result<(), ClaireError>)
    ensures
        r is Ok <==> trimmed(input@) == "yes"@,
        r is Err ==> r matches Err(ClaireError::Aborted),
{
    if is_confirmation(input) {
        Ok(())
    } else {
        Err(ClaireError::Aborted)
    }
}

} // verus!
