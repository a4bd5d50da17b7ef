//! Errors of the Media Foundation back end and how they map onto the
//! common error categories.

use vstd::prelude::*;
use crate::error::{
    category_code, common_category, common_message, with_context_text, join_context, CategorizedError,
    CommonError, ErrorCategory,
};

verus! {

#[verifier::external_type_specification]
#[verifier::external_body]
pub struct ExWindowsCoreError(windows_core::Error);

#[verifier::external_type_specification]
#[verifier::external_body]
pub struct ExOneshotRecvError(tokio::sync::oneshot::error::RecvError);

#[verifier::external_type_specification]
#[verifier::external_body]
#[verifier::reject_recursive_types(T)]
pub struct ExMpscSendError<T>(tokio::sync::mpsc::error::SendError<T>);

/// Text of a platform error: `windows_core::Error`'s `Display`, which asks
/// the system for the message of the error code and appends the code. What
/// the system answers depends on the machine and its locale, so nothing is
/// stated of the text.
#[verifier::external_body]
fn windows_error_text(e: &windows_core::Error) -> String {
    e.to_string()
}

/// Copy of a platform error: `windows_core::Error` derives `Clone`, which
/// copies the error code and shares the same error-info object, so the copy
/// is the same value.
#[verifier::external_body]
fn windows_error_clone(e: &windows_core::Error) -> (res: windows_core::Error)
    ensures
        res == *e,
{
    e.clone()
}

/// Text of a closed oneshot channel: tokio's `RecvError` displays as
/// `channel closed`.
#[verifier::external_body]
pub(crate) fn recv_error_text(e: &tokio::sync::oneshot::error::RecvError) -> (res: String)
    ensures
        res@ == "channel closed"@,
{
    e.to_string()
}

/// Copy of tokio's `RecvError`, a struct of one unit field that derives
/// `Clone`: every value of it is the same.
#[verifier::external_body]
fn recv_error_clone(e: &tokio::sync::oneshot::error::RecvError) -> (res:
    tokio::sync::oneshot::error::RecvError)
    ensures
        res == *e,
{
    e.clone()
}

/// Error type of the Media Foundation back end.
#[derive(Debug)]
pub enum WindowsError {
    NoSuitableMft,
    InvalidStreamCount,
    InputTypeNone,
    OutputTypeNone,
    OutputGetFailed,
    MediaEventReceiveFailed,
    SampleSendFailed(String),
    StreamNotInitialized,
    StreamGetFailed,
    MediaTypeSendFailed,
    StreamSendFailed,
    FinishSignalSendFailed,
    UnsupportedVideoFrameFormat,
    MuxerSendFailed(String),
    MuxerCompletionWaitFailed(String),
    ChannelSendFailed,
    Windows(windows_core::Error),
    Common(CommonError),
    OneshotRecv(tokio::sync::oneshot::error::RecvError),
    Utf16ToStringConversionFailed,
    Other(String),
}

/// The category of each Media Foundation error.
pub open spec fn windows_category(e: WindowsError) -> ErrorCategory {
    match e {
        WindowsError::NoSuitableMft => ErrorCategory::Initialization,
        WindowsError::InvalidStreamCount => ErrorCategory::Configuration,
        WindowsError::InputTypeNone => ErrorCategory::Configuration,
        WindowsError::OutputTypeNone => ErrorCategory::Configuration,
        WindowsError::StreamNotInitialized => ErrorCategory::Initialization,
        WindowsError::OutputGetFailed => ErrorCategory::Encoding,
        WindowsError::UnsupportedVideoFrameFormat => ErrorCategory::InvalidInput,
        WindowsError::MediaEventReceiveFailed => ErrorCategory::Communication,
        WindowsError::SampleSendFailed(_) => ErrorCategory::Communication,
        WindowsError::StreamGetFailed => ErrorCategory::Communication,
        WindowsError::MediaTypeSendFailed => ErrorCategory::Communication,
        WindowsError::StreamSendFailed => ErrorCategory::Communication,
        WindowsError::FinishSignalSendFailed => ErrorCategory::Communication,
        WindowsError::ChannelSendFailed => ErrorCategory::Communication,
        WindowsError::OneshotRecv(_) => ErrorCategory::Communication,
        WindowsError::MuxerSendFailed(_) => ErrorCategory::Muxing,
        WindowsError::MuxerCompletionWaitFailed(_) => ErrorCategory::Muxing,
        WindowsError::Windows(_) => ErrorCategory::Platform,
        WindowsError::Common(c) => common_category(c),
        WindowsError::Other(_) => ErrorCategory::General,
        WindowsError::Utf16ToStringConversionFailed => ErrorCategory::General,
    }
}

/// The text each Media Foundation error displays; `None` for a platform
/// error, whose text comes from the system.
pub open spec fn windows_message(e: WindowsError) -> Option<Seq<char>> {
    match e {
        WindowsError::NoSuitableMft => Some("No suitable MFT found"@),
        WindowsError::InvalidStreamCount => Some(
            "Expected 1 input and 1 output stream for encoder"@,
        ),
        WindowsError::InputTypeNone => Some("Input type is None"@),
        WindowsError::OutputTypeNone => Some("Output type is None"@),
        WindowsError::OutputGetFailed => Some("Failed to get output"@),
        WindowsError::MediaEventReceiveFailed => Some("Failed to receive media event"@),
        WindowsError::SampleSendFailed(s) => Some("Failed to send video sample: "@ + s@),
        WindowsError::StreamNotInitialized => Some("Stream is not initialized"@),
        WindowsError::StreamGetFailed => Some("Failed to get stream"@),
        WindowsError::MediaTypeSendFailed => Some("Failed to send media type"@),
        WindowsError::StreamSendFailed => Some("Failed to send stream"@),
        WindowsError::FinishSignalSendFailed => Some("Failed to send finish signal"@),
        WindowsError::UnsupportedVideoFrameFormat => Some(
            "MediaFoundationVideoEncoder only supports Bgra32 frames"@,
        ),
        WindowsError::MuxerSendFailed(s) => Some("Failed to send video data to muxer: "@ + s@),
        WindowsError::MuxerCompletionWaitFailed(s) => Some(
            "Failed to wait for muxer completion: "@ + s@,
        ),
        WindowsError::ChannelSendFailed => Some("Failed to send to channel"@),
        WindowsError::Windows(_) => None,
        WindowsError::Common(c) => Some(common_message(c)),
        WindowsError::OneshotRecv(_) => Some("channel closed"@),
        WindowsError::Utf16ToStringConversionFailed => Some(
            "Failed to convert UTF-16 into String"@,
        ),
        WindowsError::Other(s) => Some(s@),
    }
}

/// The text a Media Foundation error displays when a platform error's
/// system text reads `platform_text`.
pub open spec fn windows_text(e: WindowsError, platform_text: Seq<char>) -> Seq<char> {
    match windows_message(e) {
        Some(m) => m,
        None => platform_text,
    }
}

fn prefixed(prefix: &str, s: &String) -> (res: String)
    ensures
        res@ == prefix@ + s@,
{
    let mut r = String::from_str(prefix);
    r.append(s.as_str());
    r
}

impl Clone for WindowsError {
    fn clone(&self) -> (res: Self)
        ensures
            res == *self,
    {
        match self {
            WindowsError::NoSuitableMft => WindowsError::NoSuitableMft,
            WindowsError::InvalidStreamCount => WindowsError::InvalidStreamCount,
            WindowsError::InputTypeNone => WindowsError::InputTypeNone,
            WindowsError::OutputTypeNone => WindowsError::OutputTypeNone,
            WindowsError::OutputGetFailed => WindowsError::OutputGetFailed,
            WindowsError::MediaEventReceiveFailed => WindowsError::MediaEventReceiveFailed,
            WindowsError::SampleSendFailed(s) => WindowsError::SampleSendFailed(s.clone()),
            WindowsError::StreamNotInitialized => WindowsError::StreamNotInitialized,
            WindowsError::StreamGetFailed => WindowsError::StreamGetFailed,
            WindowsError::MediaTypeSendFailed => WindowsError::MediaTypeSendFailed,
            WindowsError::StreamSendFailed => WindowsError::StreamSendFailed,
            WindowsError::FinishSignalSendFailed => WindowsError::FinishSignalSendFailed,
            WindowsError::UnsupportedVideoFrameFormat => WindowsError::UnsupportedVideoFrameFormat,
            WindowsError::MuxerSendFailed(s) => WindowsError::MuxerSendFailed(s.clone()),
            WindowsError::MuxerCompletionWaitFailed(s) => WindowsError::MuxerCompletionWaitFailed(
                s.clone(),
            ),
            WindowsError::ChannelSendFailed => WindowsError::ChannelSendFailed,
            WindowsError::Windows(e) => WindowsError::Windows(windows_error_clone(e)),
            WindowsError::Common(c) => WindowsError::Common(c.clone()),
            WindowsError::OneshotRecv(e) => WindowsError::OneshotRecv(recv_error_clone(e)),
            WindowsError::Utf16ToStringConversionFailed => {
                WindowsError::Utf16ToStringConversionFailed
            },
            WindowsError::Other(s) => WindowsError::Other(s.clone()),
        }
    }
}

impl CategorizedError for WindowsError {
    fn category(&self) -> (res: ErrorCategory)
        ensures
            res == windows_category(*self),
    {
        match self {
            WindowsError::NoSuitableMft => ErrorCategory::Initialization,
            WindowsError::InvalidStreamCount => ErrorCategory::Configuration,
            WindowsError::InputTypeNone => ErrorCategory::Configuration,
            WindowsError::OutputTypeNone => ErrorCategory::Configuration,
            WindowsError::StreamNotInitialized => ErrorCategory::Initialization,
            WindowsError::OutputGetFailed => ErrorCategory::Encoding,
            WindowsError::UnsupportedVideoFrameFormat => ErrorCategory::InvalidInput,
            WindowsError::MediaEventReceiveFailed => ErrorCategory::Communication,
            WindowsError::SampleSendFailed(_) => ErrorCategory::Communication,
            WindowsError::StreamGetFailed => ErrorCategory::Communication,
            WindowsError::MediaTypeSendFailed => ErrorCategory::Communication,
            WindowsError::StreamSendFailed => ErrorCategory::Communication,
            WindowsError::FinishSignalSendFailed => ErrorCategory::Communication,
            WindowsError::ChannelSendFailed => ErrorCategory::Communication,
            WindowsError::OneshotRecv(_) => ErrorCategory::Communication,
            WindowsError::MuxerSendFailed(_) => ErrorCategory::Muxing,
            WindowsError::MuxerCompletionWaitFailed(_) => ErrorCategory::Muxing,
            WindowsError::Windows(_) => ErrorCategory::Platform,
            WindowsError::Common(e) => e.category(),
            WindowsError::Other(_) => ErrorCategory::General,
            WindowsError::Utf16ToStringConversionFailed => ErrorCategory::General,
        }
    }
}

impl WindowsError {
    /// The text this error displays; a platform error shows the system's
    /// text for its code.
    pub fn message(&self) -> (res: String)
        ensures
            exists|platform_text: Seq<char>| res@ == #[trigger] windows_text(*self, platform_text),
            windows_message(*self) matches Some(m) ==> res@ == m,
    {
        let platform = match self {
            WindowsError::Windows(e) => windows_error_text(e),
            _ => String::new(),
        };
        let res = self.message_from(platform.as_str());
        assert(res@ == windows_text(*self, platform@));
        res
    }

    /// The text this error displays, given the system's text for a platform
    /// error.
    pub fn message_from(&self, platform_text: &str) -> (res: String)
        ensures
            res@ == windows_text(*self, platform_text@),
    {
        match self {
            WindowsError::NoSuitableMft => String::from_str("No suitable MFT found"),
            WindowsError::InvalidStreamCount => String::from_str(
                "Expected 1 input and 1 output stream for encoder",
            ),
            WindowsError::InputTypeNone => String::from_str("Input type is None"),
            WindowsError::OutputTypeNone => String::from_str("Output type is None"),
            WindowsError::OutputGetFailed => String::from_str("Failed to get output"),
            WindowsError::MediaEventReceiveFailed => String::from_str(
                "Failed to receive media event",
            ),
            WindowsError::SampleSendFailed(s) => prefixed("Failed to send video sample: ", s),
            WindowsError::StreamNotInitialized => String::from_str("Stream is not initialized"),
            WindowsError::StreamGetFailed => String::from_str("Failed to get stream"),
            WindowsError::MediaTypeSendFailed => String::from_str("Failed to send media type"),
            WindowsError::StreamSendFailed => String::from_str("Failed to send stream"),
            WindowsError::FinishSignalSendFailed => String::from_str(
                "Failed to send finish signal",
            ),
            WindowsError::UnsupportedVideoFrameFormat => String::from_str(
                "MediaFoundationVideoEncoder only supports Bgra32 frames",
            ),
            WindowsError::MuxerSendFailed(s) => prefixed(
                "Failed to send video data to muxer: ",
                s,
            ),
            WindowsError::MuxerCompletionWaitFailed(s) => prefixed(
                "Failed to wait for muxer completion: ",
                s,
            ),
            WindowsError::ChannelSendFailed => String::from_str("Failed to send to channel"),
            WindowsError::Windows(_) => String::from_str(platform_text),
            WindowsError::Common(e) => e.message(),
            WindowsError::OneshotRecv(e) => recv_error_text(e),
            WindowsError::Utf16ToStringConversionFailed => String::from_str(
                "Failed to convert UTF-16 into String",
            ),
            WindowsError::Other(s) => s.clone(),
        }
    }

    /// The common error that this error becomes at the back end's boundary:
    /// its category and its text.
    pub fn into_common(self) -> (res: CommonError)
        ensures
            res matches CommonError::Categorized { category, message } && category
                == windows_category(self) && (windows_message(self) matches Some(m) ==> message@
                == m) && (exists|platform_text: Seq<char>| message@ == #[trigger] windows_text(
                self,
                platform_text,
            )),
    {
        let category = self.category();
        let message = self.message();
        CommonError::Categorized { category, message }
    }
}

impl From<WindowsError> for CommonError {
    /// The common error a Media Foundation error becomes: see `into_common`.
    fn from(e: WindowsError) -> (res: Self)
        ensures
            res matches CommonError::Categorized { category, message } && category
                == windows_category(e) && (exists|platform_text: Seq<char>| message@
                == #[trigger] windows_text(e, platform_text)),
    {
        e.into_common()
    }
}

/// The result of the conversion is given by the `ensures` of `from` and of
/// `into_common`: its text is the error's text, which for a platform error is
/// the system's, so no single value can be named in advance.
impl vstd::std_specs::convert::FromSpecImpl<WindowsError> for CommonError {
    open spec fn obeys_from_spec() -> bool {
        false
    }

    open spec fn from_spec(e: WindowsError) -> CommonError {
        CommonError::Other(arbitrary())
    }
}

/// Converting a Media Foundation error to a common error keeps its
/// category, and the text the error displays.
pub proof fn lemma_conversion_keeps_category_and_text(e: WindowsError, converted: CommonError)
    requires
        converted matches CommonError::Categorized { category, message } && category
            == windows_category(e) && (exists|platform_text: Seq<char>| message@
            == #[trigger] windows_text(e, platform_text)),
    ensures
        common_category(converted) == windows_category(e),
        exists|platform_text: Seq<char>| common_message(converted) == #[trigger] windows_text(
            e,
            platform_text,
        ),
{
}

impl From<CommonError> for WindowsError {
    fn from(e: CommonError) -> (res: Self) {
        WindowsError::Common(e)
    }
}

impl vstd::std_specs::convert::FromSpecImpl<CommonError> for WindowsError {
    open spec fn obeys_from_spec() -> bool {
        true
    }

    open spec fn from_spec(e: CommonError) -> WindowsError {
        WindowsError::Common(e)
    }
}

impl From<windows_core::Error> for WindowsError {
    fn from(e: windows_core::Error) -> (res: Self) {
        WindowsError::Windows(e)
    }
}

impl vstd::std_specs::convert::FromSpecImpl<windows_core::Error> for WindowsError {
    open spec fn obeys_from_spec() -> bool {
        true
    }

    open spec fn from_spec(e: windows_core::Error) -> WindowsError {
        WindowsError::Windows(e)
    }
}

impl From<tokio::sync::oneshot::error::RecvError> for WindowsError {
    fn from(e: tokio::sync::oneshot::error::RecvError) -> (res: Self) {
        WindowsError::OneshotRecv(e)
    }
}

impl vstd::std_specs::convert::FromSpecImpl<tokio::sync::oneshot::error::RecvError> for
    WindowsError {
    open spec fn obeys_from_spec() -> bool {
        true
    }

    open spec fn from_spec(e: tokio::sync::oneshot::error::RecvError) -> WindowsError {
        WindowsError::OneshotRecv(e)
    }
}

impl<T> From<tokio::sync::mpsc::error::SendError<T>> for WindowsError {
    fn from(e: tokio::sync::mpsc::error::SendError<T>) -> (res: Self) {
        WindowsError::ChannelSendFailed
    }
}

impl<T> vstd::std_specs::convert::FromSpecImpl<tokio::sync::mpsc::error::SendError<T>> for
    WindowsError {
    open spec fn obeys_from_spec() -> bool {
        true
    }

    open spec fn from_spec(e: tokio::sync::mpsc::error::SendError<T>) -> WindowsError {
        WindowsError::ChannelSendFailed
    }
}

/// How the Media Foundation errors fall into categories at the C boundary
/// (by code): a missing or wrong media type or stream layout is a
/// configuration error (3), a missing transform or stream an initialization
/// error (2), a failed channel or event exchange a communication error (7),
/// a failed hand-over to the muxer a muxing error (6), a refused frame
/// invalid input (9), a failed output an encoding error (5), a system error
/// a platform error (10), and a wrapped common error keeps its own category.
pub proof fn lemma_windows_category_classes(s: String, c: CommonError)
    ensures
        category_code(windows_category(WindowsError::InputTypeNone)) == 3,
        category_code(windows_category(WindowsError::OutputTypeNone)) == 3,
        category_code(windows_category(WindowsError::InvalidStreamCount)) == 3,
        category_code(windows_category(WindowsError::NoSuitableMft)) == 2,
        category_code(windows_category(WindowsError::StreamNotInitialized)) == 2,
        category_code(windows_category(WindowsError::MediaEventReceiveFailed)) == 7,
        category_code(windows_category(WindowsError::SampleSendFailed(s))) == 7,
        category_code(windows_category(WindowsError::StreamGetFailed)) == 7,
        category_code(windows_category(WindowsError::MediaTypeSendFailed)) == 7,
        category_code(windows_category(WindowsError::StreamSendFailed)) == 7,
        category_code(windows_category(WindowsError::FinishSignalSendFailed)) == 7,
        category_code(windows_category(WindowsError::ChannelSendFailed)) == 7,
        category_code(windows_category(WindowsError::MuxerSendFailed(s))) == 6,
        category_code(windows_category(WindowsError::MuxerCompletionWaitFailed(s))) == 6,
        category_code(windows_category(WindowsError::UnsupportedVideoFrameFormat)) == 9,
        category_code(windows_category(WindowsError::OutputGetFailed)) == 5,
        category_code(windows_category(WindowsError::Other(s))) == 1,
        category_code(windows_category(WindowsError::Utf16ToStringConversionFailed)) == 1,
        windows_category(WindowsError::Common(c)) == common_category(c),
        forall|w: windows_core::Error| #[trigger] category_code(windows_category(WindowsError::Windows(w))) == 10,
        forall|r: tokio::sync::oneshot::error::RecvError|
            #[trigger] category_code(windows_category(WindowsError::OneshotRecv(r))) == 7,
{
}

/// What the back end's `context` turns a result into.
pub open spec fn windows_context_applied<T>(
    r: Result<T, WindowsError>,
    res: Result<T, WindowsError>,
    context: Seq<char>,
) -> bool {
    match r {
        Ok(v) => res == Ok::<T, WindowsError>(v),
        Err(e) => res matches Err(WindowsError::Other(s)) && (exists|platform_text: Seq<char>|
            s@ == with_context_text(context, #[trigger] windows_text(e, platform_text))),
    }
}

/// Adds context to the error of a result, as a Media Foundation error.
pub trait ResultExt<T>: Sized {
    fn context(self, context: &str) -> Result<T, WindowsError>;
}

impl<T> ResultExt<T> for Result<T, WindowsError> {
    fn context(self, context: &str) -> (res: Result<T, WindowsError>)
        ensures
            windows_context_applied(self, res, context@),
    {
        match self {
            Ok(v) => Ok(v),
            Err(e) => {
                let m = e.message();
                Err(WindowsError::Other(join_context(context, m.as_str())))
            },
        }
    }
}

impl<T> ResultExt<T> for Result<T, CommonError> {
    fn context(self, context: &str) -> (res: Result<T, WindowsError>)
        ensures
            match self {
                Ok(v) => res == Ok::<T, WindowsError>(v),
                Err(e) => res matches Err(WindowsError::Other(s)) && s@ == with_context_text(
                    context@,
                    common_message(e),
                ),
            },
    {
        match self {
            Ok(v) => Ok(v),
            Err(e) => {
                let m = e.message();
                Err(WindowsError::Other(join_context(context, m.as_str())))
            },
        }
    }
}

/// Turns an absent value into a Media Foundation error.
pub trait OptionExt<T>: Sized {
    fn context(self, context: &str) -> Result<T, WindowsError>;
}

impl<T> OptionExt<T> for Option<T> {
    fn context(self, context: &str) -> (res: Result<T, WindowsError>)
        ensures
            match self {
                Some(v) => res == Ok::<T, WindowsError>(v),
                None => res matches Err(WindowsError::Other(s)) && s@ == context@,
            },
    {
        match self {
            Some(v) => Ok(v),
            None => Err(WindowsError::Other(String::from_str(context))),
        }
    }
}

} // verus!
