//! What the WebCodecs muxer inputs answer when they are finished: each
//! input tells the completion handle through a one-shot channel.

use vstd::prelude::*;
use crate::error::CommonError;

verus! {

/// The text of a finish signal that could not be delivered.
pub open spec fn finish_failed_text() -> Seq<char> {
    "Failed to finish video: ()"@
}

/// What finishing an input answers: `Ok` when the completion handle was
/// told, an error when it had already gone away. Both inputs answer with
/// the same text.
pub fn finish_signal_result(sent: Result<(), ()>) -> (res: Result<(), CommonError>)
    ensures
        match sent {
            Ok(_) => res is Ok,
            Err(_) => res matches Err(CommonError::Other(s)) && s@ == finish_failed_text(),
        },
{
    match sent {
        Ok(()) => Ok(()),
        Err(()) => Err(CommonError::Other(String::from_str("Failed to finish video: ()"))),
    }
}

} // verus!
