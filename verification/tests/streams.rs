use unienc::error::{CategorizedError, CommonError, ErrorCategory};
use unienc::runtime::RuntimeGuard;
use unienc::webcodecs::mux::finish_signal_result;
use unienc::webcodecs::WebCodecsEncodingSystem;
use unienc::windows_mf::error::WindowsError;
use unienc::windows_mf::mux::{
    completion_result, format_push_result, sample_send_result, sample_stream, stream_answer,
    LazyStream,
};
use unienc::windows_mf::stream::{on_sink_event, SampleAction, SinkEvent, SinkEventAction, SinkFeeder};

#[test]
fn entering_installs_only_when_nothing_is_current() {
    let mut current: Option<u32> = None;
    let outer = RuntimeGuard::enter(&mut current, 1);
    assert!(outer.acquired());
    assert_eq!(current, Some(1));
    let inner = RuntimeGuard::enter(&mut current, 2);
    assert!(!inner.acquired());
    assert_eq!(current, Some(1));
    inner.release(&mut current);
    assert_eq!(current, Some(1));
    outer.release(&mut current);
    assert_eq!(current, None);
}

#[test]
fn runtime_error_message_starts_with_its_prefix() {
    let e = unienc::runtime::RuntimeError::from(std::io::Error::new(std::io::ErrorKind::Other, "no threads"));
    assert_eq!(e.message(), "Failed to create tokio runtime: no threads");
}

#[test]
fn lazy_stream_first_answer_is_kept() {
    let mut s: LazyStream<&str, u32> = LazyStream::new("channels");
    assert!(s.some().is_none());
    assert_eq!(s.take_pending(), Some("channels"));
    assert!(matches!(s.status(), Err(WindowsError::StreamGetFailed)));
    s.settle(stream_answer(Some(Ok(Ok(7)))));
    assert_eq!(s.some(), Some(&7));
    assert!(s.status().is_ok());
    assert_eq!(s.take_pending(), None);
    assert_eq!(s.some(), Some(&7));
}

#[test]
fn lazy_stream_failure_is_kept() {
    let mut s: LazyStream<(), u32> = LazyStream::new(());
    assert_eq!(s.take_pending(), Some(()));
    s.settle(stream_answer(None));
    assert!(matches!(s.status(), Err(WindowsError::MediaTypeSendFailed)));
    assert_eq!(s.take_pending(), None);
    assert!(matches!(s.status(), Err(WindowsError::MediaTypeSendFailed)));
    assert!(s.some().is_none());
}

#[test]
fn stream_answer_cases() {
    let (tx, rx) = tokio::sync::oneshot::channel::<u8>();
    drop(tx);
    let recv_err = rx.blocking_recv().unwrap_err();
    assert!(matches!(stream_answer::<u8>(Some(Err(recv_err))), Err(WindowsError::OneshotRecv(_))));
    assert!(matches!(stream_answer::<u8>(Some(Ok(Err(WindowsError::NoSuitableMft)))), Err(WindowsError::NoSuitableMft)));
    assert_eq!(stream_answer::<u8>(Some(Ok(Ok(3)))).unwrap(), 3);
}

#[test]
fn samples_before_a_format_are_refused() {
    let s: LazyStream<(), u32> = LazyStream::new(());
    match sample_stream(&s) {
        Err(CommonError::Categorized { category, message }) => {
            assert_eq!(category, ErrorCategory::Initialization);
            assert_eq!(message, "Stream is not initialized");
        }
        other => panic!("unexpected {:?}", other.map(|x| *x)),
    }
    let mut ready: LazyStream<(), u32> = LazyStream::new(());
    ready.take_pending();
    ready.settle(Ok(11));
    assert_eq!(*sample_stream(&ready).unwrap(), 11);
}

#[test]
fn format_push_errors_become_general() {
    match format_push_result(Err(WindowsError::StreamSendFailed)) {
        Err(CommonError::Categorized { category, message }) => {
            assert_eq!(category, ErrorCategory::General);
            assert_eq!(message, "Failed to send stream");
        }
        other => panic!("unexpected {:?}", other),
    }
    assert!(format_push_result(Ok(())).is_ok());
}

#[test]
fn sample_send_failure_is_a_muxing_error() {
    let (tx, rx) = tokio::sync::mpsc::channel::<u8>(1);
    drop(rx);
    let err = tx.blocking_send(1).unwrap_err();
    match sample_send_result(Err(err)) {
        Err(CommonError::Categorized { category, message }) => {
            assert_eq!(category, ErrorCategory::Muxing);
            assert_eq!(message, "Failed to send video data to muxer: channel closed");
        }
        other => panic!("unexpected {:?}", other),
    }
    assert!(sample_send_result::<u8>(Ok(())).is_ok());
}

#[test]
fn completion_results() {
    assert!(completion_result(Ok(Ok(()))).is_ok());
    let e = completion_result(Ok(Err(WindowsError::FinishSignalSendFailed))).unwrap_err();
    assert_eq!(e.category(), ErrorCategory::Communication);
    assert_eq!(e.message(), "Failed to send finish signal");
    let (tx, rx) = tokio::sync::oneshot::channel::<Result<(), WindowsError>>();
    drop(tx);
    let recv_err = rx.blocking_recv().unwrap_err();
    let e2 = completion_result(Err(recv_err)).unwrap_err();
    assert_eq!(e2.category(), ErrorCategory::Muxing);
    assert_eq!(e2.message(), "Failed to wait for muxer completion: channel closed");
}

#[test]
fn sink_events_and_finish_signal() {
    assert_eq!(on_sink_event(SinkEvent::RequestSample), SinkEventAction::AwaitSample);
    assert_eq!(on_sink_event(SinkEvent::Other(305)), SinkEventAction::Report(305));
    assert_eq!(on_sink_event(SinkEvent::Unreadable), SinkEventAction::Skip);
    let mut f = SinkFeeder::new();
    assert_eq!(f.on_sample(true), SampleAction::Process);
    assert_eq!(f.on_sample(false), SampleAction::EndSegment { signal_finish: true });
    assert_eq!(f.on_sample(false), SampleAction::EndSegment { signal_finish: false });
    assert_eq!(f.on_sample(true), SampleAction::Process);
    assert_eq!(f.on_sample(false), SampleAction::EndSegment { signal_finish: false });
}

#[test]
fn webcodecs_finish_signal() {
    assert!(finish_signal_result(Ok(())).is_ok());
    match finish_signal_result(Err(())) {
        Err(CommonError::Other(s)) => assert_eq!(s, "Failed to finish video: ()"),
        other => panic!("unexpected {:?}", other),
    }
    assert_eq!(format!("Failed to finish video: {:?}", ()), "Failed to finish video: ()");
}

#[test]
fn webcodecs_system_keeps_its_options() {
    let sys = WebCodecsEncodingSystem::new(&(1920u32, 1080u32), &(48000u32, 2u32), "rt");
    assert_eq!(*sys.video_options(), (1920, 1080));
    assert_eq!(*sys.audio_options(), (48000, 2));
    assert_eq!(*sys.runtime(), "rt");
}

#[test]
fn creation_message_puts_the_io_text_after_the_prefix() {
    assert_eq!(
        unienc::runtime::creation_message("permission denied"),
        "Failed to create tokio runtime: permission denied"
    );
}
