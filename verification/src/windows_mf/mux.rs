//! States of a Media Foundation muxer stream. A stream exists only once the
//! first media type has been pushed: that media type goes to the task that
//! builds the sink, which answers with the stream or an error. The answer is
//! kept, so later media types get the same answer without asking again, and
//! samples can only go to a stream that was built.

use vstd::prelude::*;
use crate::error::{CategorizedError, CommonError, ErrorCategory};
use crate::windows_mf::error::{recv_error_text, windows_category, windows_message, WindowsError};

verus! {

/// Text of a failed channel send: tokio's `mpsc::error::SendError` displays
/// as `channel closed`.
#[verifier::external_body]
fn send_error_text<T>(e: &tokio::sync::mpsc::error::SendError<T>) -> (res: String)
    ensures
        res@ == "channel closed"@,
{
    e.to_string()
}

/// A stream of the muxer: still waiting for its first media type (holding
/// the channels to the sink builder), or settled with the builder's answer.
pub enum LazyStream<P, S> {
    Waiting { channels: P },
    Settled(Result<S, WindowsError>),
}

/// The answer a stream was settled with, if any.
pub open spec fn settled<P, S>(s: LazyStream<P, S>) -> Option<Result<S, WindowsError>> {
    match s {
        LazyStream::Waiting { .. } => None,
        LazyStream::Settled(r) => Some(r),
    }
}

impl<P, S> LazyStream<P, S> {
    /// A stream that waits for its first media type.
    pub fn new(channels: P) -> (res: Self)
        ensures
            res == (LazyStream::<P, S>::Waiting { channels }),
    {
        LazyStream::Waiting { channels }
    }

    /// The built stream, if there is one.
    pub fn some(&self) -> (res: Option<&S>)
        ensures
            res == (match settled(*self) {
                Some(Ok(s)) => Some(&s),
                _ => None,
            }),
    {
        match self {
            LazyStream::Waiting { .. } => None,
            LazyStream::Settled(stream) => match stream {
                Ok(s) => Some(s),
                Err(_) => None,
            },
        }
    }

    /// Starts answering a media type. A waiting stream hands out its channels
    /// (the media type must go to the sink builder) and counts as failed with
    /// `StreamGetFailed` until it is settled; a settled stream keeps its
    /// answer and hands out nothing.
    pub fn take_pending(&mut self) -> (res: Option<P>)
        ensures
            match *old(self) {
                LazyStream::Waiting { channels } => res == Some(channels) && *final(self)
                    == LazyStream::<P, S>::Settled(Err(WindowsError::StreamGetFailed)),
                LazyStream::Settled(_) => res is None && *final(self) == *old(self),
            },
    {
        if let LazyStream::Settled(_) = self {
            return None;
        }
        let mut old = LazyStream::Settled(Err(WindowsError::StreamGetFailed));
        std::mem::swap(self, &mut old);
        match old {
            LazyStream::Waiting { channels } => Some(channels),
            LazyStream::Settled(_) => None,
        }
    }

    /// Settles the stream with the sink builder's answer.
    pub fn settle(&mut self, answer: Result<S, WindowsError>)
        ensures
            *final(self) == LazyStream::<P, S>::Settled(answer),
    {
        *self = LazyStream::Settled(answer);
    }

    /// What pushing a media type answers once the stream is settled: `Ok`
    /// for a built stream, the kept error otherwise.
    pub fn status(&self) -> (res: Result<(), WindowsError>)
        requires
            settled(*self) is Some,
        ensures
            res == (match settled(*self) {
                Some(Ok(_)) => Ok(()),
                Some(Err(e)) => Err(e),
                None => Ok(()),
            }),
    {
        match self {
            LazyStream::Settled(Ok(_)) => Ok(()),
            LazyStream::Settled(Err(e)) => Err(e.clone()),
            LazyStream::Waiting { .. } => Ok(()),
        }
    }
}

/// The stream after a media type was pushed and `answer` is what the sink
/// builder would answer: a waiting stream settles with it, a settled stream
/// keeps what it has.
pub open spec fn answered<P, S>(s: LazyStream<P, S>, answer: Result<S, WindowsError>) -> LazyStream<
    P,
    S,
> {
    match s {
        LazyStream::Waiting { .. } => LazyStream::Settled(answer),
        LazyStream::Settled(r) => LazyStream::Settled(r),
    }
}

/// Pushing a media type is `take_pending`, then `settle` with the builder's
/// answer when channels were handed out: the stream ends up as `answered`
/// says.
pub proof fn lemma_push_format_steps<P, S>(
    before: LazyStream<P, S>,
    after_take: LazyStream<P, S>,
    taken: Option<P>,
    answer: Result<S, WindowsError>,
)
    requires
        match before {
            LazyStream::Waiting { channels } => taken == Some(channels) && after_take
                == LazyStream::<P, S>::Settled(Err(WindowsError::StreamGetFailed)),
            LazyStream::Settled(_) => taken is None && after_take == before,
        },
    ensures
        (if taken is Some {
            LazyStream::<P, S>::Settled(answer)
        } else {
            after_take
        }) == answered(before, answer),
{
}

/// Only the first media type reaches the sink builder: whatever later
/// answers would be, the stream keeps the first one, and a stream that
/// was built keeps taking samples.
pub proof fn lemma_first_answer_is_kept<P, S>(
    s: LazyStream<P, S>,
    first: Result<S, WindowsError>,
    later: Result<S, WindowsError>,
)
    ensures
        answered(answered(s, first), later) == answered(s, first),
        s is Waiting ==> settled(answered(s, first)) == Some(first),
        settled(s) matches Some(r) ==> settled(answered(s, first)) == Some(r),
{
}

/// The sink builder's answer for a media type: `None` when the media type
/// could not be sent, otherwise what came back on the stream channel.
pub fn stream_answer<S>(
    received: Option<Result<Result<S, WindowsError>, tokio::sync::oneshot::error::RecvError>>,
) -> (res: Result<S, WindowsError>)
    ensures
        res == (match received {
            None => Err(WindowsError::MediaTypeSendFailed),
            Some(Err(e)) => Err(WindowsError::OneshotRecv(e)),
            Some(Ok(answer)) => answer,
        }),
{
    match received {
        None => Err(WindowsError::MediaTypeSendFailed),
        Some(Err(e)) => Err(WindowsError::OneshotRecv(e)),
        Some(Ok(answer)) => answer,
    }
}

/// The common error for a failed media type push: the stream's error,
/// retold as a general error with the same text.
pub fn format_push_result(status: Result<(), WindowsError>) -> (res: Result<(), CommonError>)
    ensures
        match status {
            Ok(_) => res is Ok,
            Err(e) => res matches Err(CommonError::Categorized { category, message }) && category
                == ErrorCategory::General && (windows_message(e) matches Some(m) ==> message@
                == m),
        },
{
    match status {
        Ok(()) => Ok(()),
        Err(e) => {
            let general = WindowsError::Other(e.message());
            Err(general.into_common())
        },
    }
}

/// Where a sample goes: the built stream, or, before there is one, an
/// initialization error saying so.
pub fn sample_stream<P, S>(stream: &LazyStream<P, S>) -> (res: Result<&S, CommonError>)
    ensures
        match settled(*stream) {
            Some(Ok(s)) => res == Ok::<&S, CommonError>(&s),
            _ => res matches Err(CommonError::Categorized { category, message }) && category
                == ErrorCategory::Initialization && message@ == "Stream is not initialized"@,
        },
{
    match stream.some() {
        Some(s) => Ok(s),
        None => Err(WindowsError::StreamNotInitialized.into_common()),
    }
}

/// The common error for a sample that could not be handed to the stream's
/// writer: a muxing error.
pub fn sample_send_result<T>(sent: Result<(), tokio::sync::mpsc::error::SendError<T>>) -> (res:
    Result<(), CommonError>)
    ensures
        match sent {
            Ok(_) => res is Ok,
            Err(_) => res matches Err(CommonError::Categorized { category, message }) && category
                == ErrorCategory::Muxing && message@
                == "Failed to send video data to muxer: channel closed"@,
        },
{
    proof {
        reveal_strlit("Failed to send video data to muxer: ");
        reveal_strlit("channel closed");
        reveal_strlit("Failed to send video data to muxer: channel closed");
    }
    match sent {
        Ok(()) => Ok(()),
        Err(e) => Err(WindowsError::MuxerSendFailed(send_error_text(&e)).into_common()),
    }
}

/// What waiting for the muxer to complete answers: the finalizer's own
/// result, or a muxing error when it went away without answering.
pub fn completion_result(
    received: Result<Result<(), WindowsError>, tokio::sync::oneshot::error::RecvError>,
) -> (res: Result<(), CommonError>)
    ensures
        match received {
            Ok(Ok(_)) => res is Ok,
            Ok(Err(e)) => res matches Err(CommonError::Categorized { category, message })
                && category == windows_category(e) && (windows_message(e) matches Some(m)
                ==> message@ == m),
            Err(_) => res matches Err(CommonError::Categorized { category, message }) && category
                == ErrorCategory::Muxing && message@
                == "Failed to wait for muxer completion: channel closed"@,
        },
{
    proof {
        reveal_strlit("Failed to wait for muxer completion: ");
        reveal_strlit("channel closed");
        reveal_strlit("Failed to wait for muxer completion: channel closed");
    }
    match received {
        Ok(Ok(())) => Ok(()),
        Ok(Err(e)) => Err(e.into_common()),
        Err(e) => Err(WindowsError::MuxerCompletionWaitFailed(recv_error_text(&e)).into_common()),
    }
}

} // verus!
