//! What the C interface answers through its callbacks. Each encoder input
//! and output, muxer input and completion handle is a slot that holds the
//! object until it is finished; finishing takes the object out, so every
//! later call on that handle is answered with a resource error.

use vstd::prelude::*;
use crate::error::{
    common_category, common_message, with_context_text, CategorizedError, CommonError,
    ErrorCategory, ResultExt,
};

verus! {

/// An error as it is handed to a callback: its category and its text.
#[derive(Debug)]
pub struct UniencError {
    pub category: ErrorCategory,
    pub message: String,
}

impl UniencError {
    fn categorized(category: ErrorCategory, message: &str) -> (res: Self)
        ensures
            res.category == category,
            res.message@ == message@,
    {
        UniencError { category, message: String::from_str(message) }
    }

    /// A required argument was missing or malformed.
    pub fn invalid_input_error(message: &str) -> (res: Self)
        ensures
            res.category == ErrorCategory::InvalidInput,
            res.message@ == message@,
    {
        Self::categorized(ErrorCategory::InvalidInput, message)
    }

    /// The object behind a handle is gone.
    pub fn resource_allocation_error(message: &str) -> (res: Self)
        ensures
            res.category == ErrorCategory::ResourceAllocation,
            res.message@ == message@,
    {
        Self::categorized(ErrorCategory::ResourceAllocation, message)
    }

    /// Encoded data could not be read.
    pub fn encoding_error(message: &str) -> (res: Self)
        ensures
            res.category == ErrorCategory::Encoding,
            res.message@ == message@,
    {
        Self::categorized(ErrorCategory::Encoding, message)
    }

    /// The platform cannot do what was asked.
    pub fn platform_error(message: &str) -> (res: Self)
        ensures
            res.category == ErrorCategory::Platform,
            res.message@ == message@,
    {
        Self::categorized(ErrorCategory::Platform, message)
    }

    /// A back end's error, with its category and its text.
    pub fn from_common(e: CommonError) -> (res: Self)
        ensures
            res.category == common_category(e),
            res.message@ == common_message(e),
    {
        let category = e.category();
        let message = e.message();
        UniencError { category, message }
    }
}

/// The text answered for missing arguments.
pub open spec fn invalid_input_text() -> Seq<char> {
    "Invalid input parameters"@
}

/// The text answered for a handle whose object is gone.
pub open spec fn resource_gone_text() -> Seq<char> {
    "Resource is None"@
}

/// The answer when one of the required pointers was null.
pub fn check_arguments(all_present: bool) -> (res: Result<(), UniencError>)
    ensures
        all_present ==> res is Ok,
        !all_present ==> (res matches Err(e) && e.category == ErrorCategory::InvalidInput
            && e.message@ == invalid_input_text()),
{
    if all_present {
        Ok(())
    } else {
        Err(UniencError::invalid_input_error("Invalid input parameters"))
    }
}

/// The object behind a handle, for an operation that keeps it.
pub fn resource_in<T>(slot: &mut Option<T>) -> (res: Result<&mut T, UniencError>)
    ensures
        match *old(slot) {
            Some(v) => res matches Ok(r) && *r == v && *final(slot) == Some(*final(r)),
            None => *final(slot) is None && (res matches Err(e) && e.category
                == ErrorCategory::ResourceAllocation && e.message@ == resource_gone_text()),
        },
{
    match slot.as_mut() {
        Some(r) => Ok(r),
        None => Err(UniencError::resource_allocation_error("Resource is None")),
    }
}

/// The object behind a handle, taken out for an operation that finishes
/// it; the slot is empty afterwards.
pub fn take_resource<T>(slot: &mut Option<T>) -> (res: Result<T, UniencError>)
    ensures
        *final(slot) is None,
        match *old(slot) {
            Some(v) => res == Ok::<T, UniencError>(v),
            None => res matches Err(e) && e.category == ErrorCategory::ResourceAllocation
                && e.message@ == resource_gone_text(),
        },
{
    match slot.take() {
        Some(v) => Ok(v),
        None => Err(UniencError::resource_allocation_error("Resource is None")),
    }
}

/// What an operation on a back end object answers: its value, or its error
/// with the operation named in front. Because the context wraps the error,
/// the answer's category is always `General`.
pub fn operation_result<T>(r: Result<T, CommonError>, context: &str) -> (res: Result<
    T,
    UniencError,
>)
    ensures
        match r {
            Ok(v) => res == Ok::<T, UniencError>(v),
            Err(e) => res matches Err(u) && u.category == ErrorCategory::General && u.message@
                == with_context_text(context@, common_message(e)),
        },
{
    match r.context(context) {
        Ok(v) => Ok(v),
        Err(e) => Err(UniencError::from_common(e)),
    }
}

/// The text answered for encoded data that could not be decoded.
pub open spec fn decode_failed_text() -> Seq<char> {
    "Failed to decode encoded data"@
}

/// The text answered where the platform cannot take a blit source.
pub open spec fn not_supported_text() -> Seq<char> {
    "Not supported"@
}

/// What pushing a blit source to a video encoder answers in a build without
/// the engine's graphics integration: a missing input or texture is invalid
/// input, and otherwise the platform cannot do it.
pub fn blit_source_answer(input_present: bool, source_present: bool) -> (res: UniencError)
    ensures
        !(input_present && source_present) ==> res.category == ErrorCategory::InvalidInput
            && res.message@ == invalid_input_text(),
        input_present && source_present ==> res.category == ErrorCategory::Platform
            && res.message@ == not_supported_text(),
{
    if !(input_present && source_present) {
        UniencError::invalid_input_error("Invalid input parameters")
    } else {
        UniencError::platform_error("Not supported")
    }
}

/// The first step of pushing encoded data to a muxer input: the arguments
/// must all be there, and the data must decode.
pub fn muxer_push_answer<D>(args_present: bool, decoded: Option<D>) -> (res: Result<
    D,
    UniencError,
>)
    ensures
        !args_present ==> (res matches Err(e) && e.category == ErrorCategory::InvalidInput
            && e.message@ == invalid_input_text()),
        args_present && decoded is None ==> (res matches Err(e) && e.category
            == ErrorCategory::Encoding && e.message@ == decode_failed_text()),
        args_present && decoded is Some ==> res == Ok::<D, UniencError>(decoded->0),
{
    if !args_present {
        return Err(UniencError::invalid_input_error("Invalid input parameters"));
    }
    match decoded {
        Some(d) => Ok(d),
        None => Err(UniencError::encoding_error("Failed to decode encoded data")),
    }
}

/// The answer of the push itself: a finished input is a resource error;
/// otherwise the push's own result, with the operation named in front of an
/// error.
pub fn muxer_push_result(slot_present: bool, pushed: Result<(), CommonError>, context: &str) -> (res:
    Result<(), UniencError>)
    ensures
        !slot_present ==> (res matches Err(e) && e.category == ErrorCategory::ResourceAllocation
            && e.message@ == resource_gone_text()),
        slot_present ==> match pushed {
            Ok(_) => res is Ok,
            Err(e) => res matches Err(u) && u.category == ErrorCategory::General && u.message@
                == with_context_text(context@, common_message(e)),
        },
{
    if !slot_present {
        return Err(UniencError::resource_allocation_error("Resource is None"));
    }
    operation_result(pushed, context)
}

/// Whether a muxer is to be created: only when every argument is there and
/// the output path is valid UTF-8.
pub fn may_create_muxer(args_present: bool, path_is_utf8: bool) -> (res: bool)
    ensures
        res == (args_present && path_is_utf8),
{
    args_present && path_is_utf8
}

/// What creating a muxer answers: invalid input for a missing argument or a
/// path that is not UTF-8; the back end's error when creating the muxer
/// failed; the error of taking its inputs, named as such; `Ok` otherwise.
pub fn new_muxer_answer(
    args_present: bool,
    path_is_utf8: bool,
    created: Result<(), CommonError>,
    inputs: Result<(), CommonError>,
) -> (res: Result<(), UniencError>)
    ensures
        !(args_present && path_is_utf8) ==> (res matches Err(e) && e.category
            == ErrorCategory::InvalidInput && e.message@ == invalid_input_text()),
        args_present && path_is_utf8 ==> match created {
            Err(c) => res matches Err(e) && e.category == common_category(c) && e.message@
                == common_message(c),
            Ok(_) => match inputs {
                Err(i) => res matches Err(e) && e.category == ErrorCategory::General && e.message@
                    == with_context_text("Failed to get muxer input"@, common_message(i)),
                Ok(_) => res is Ok,
            },
        },
{
    if !may_create_muxer(args_present, path_is_utf8) {
        return Err(UniencError::invalid_input_error("Invalid input parameters"));
    }
    match created {
        Err(c) => Err(UniencError::from_common(c)),
        Ok(()) => operation_result(inputs, "Failed to get muxer input"),
    }
}

/// What creating an encoder answers: invalid input without an encoding
/// system; the back end's error when creating the encoder failed; the error
/// of splitting it into input and output, named by `context`; `Ok`
/// otherwise.
pub fn new_encoder_answer(
    system_present: bool,
    created: Result<(), CommonError>,
    split: Result<(), CommonError>,
    context: &str,
) -> (res: Result<(), UniencError>)
    ensures
        !system_present ==> (res matches Err(e) && e.category == ErrorCategory::InvalidInput
            && e.message@ == invalid_input_text()),
        system_present ==> match created {
            Err(c) => res matches Err(e) && e.category == common_category(c) && e.message@
                == common_message(c),
            Ok(_) => match split {
                Err(i) => res matches Err(e) && e.category == ErrorCategory::General && e.message@
                    == with_context_text(context@, common_message(i)),
                Ok(_) => res is Ok,
            },
        },
{
    if !system_present {
        return Err(UniencError::invalid_input_error("Invalid input parameters"));
    }
    match created {
        Err(c) => Err(UniencError::from_common(c)),
        Ok(()) => operation_result(split, context),
    }
}

} // verus!
