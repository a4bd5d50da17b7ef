use unienc::error::{CategorizedError, CommonError, ErrorCategory, OptionExt, ResultExt};
use unienc::windows_mf::error::{
    OptionExt as WindowsOptionExt, ResultExt as WindowsResultExt, WindowsError,
};

#[test]
fn category_codes_match_the_boundary_values() {
    let all = [
        ErrorCategory::General,
        ErrorCategory::Initialization,
        ErrorCategory::Configuration,
        ErrorCategory::ResourceAllocation,
        ErrorCategory::Encoding,
        ErrorCategory::Muxing,
        ErrorCategory::Communication,
        ErrorCategory::Timeout,
        ErrorCategory::InvalidInput,
        ErrorCategory::Platform,
    ];
    let codes: Vec<u32> = all.iter().map(|c| c.code()).collect();
    assert_eq!(codes, vec![1, 2, 3, 4, 5, 6, 7, 8, 9, 10]);
}

#[test]
fn common_error_categories() {
    assert_eq!(CommonError::BufferPoolExceeded.category(), ErrorCategory::ResourceAllocation);
    assert_eq!(CommonError::BlitNotSupported.category(), ErrorCategory::Configuration);
    assert_eq!(CommonError::Other("x".to_string()).category(), ErrorCategory::General);
    let c = CommonError::Categorized { category: ErrorCategory::Timeout, message: "late".to_string() };
    assert_eq!(c.category(), ErrorCategory::Timeout);
}

#[test]
fn common_error_messages() {
    assert_eq!(CommonError::BufferPoolExceeded.message(), "Buffer pool limit exceeded");
    assert_eq!(
        CommonError::BlitNotSupported.message(),
        "Blit not supported in this encoding system"
    );
    assert_eq!(CommonError::Other("boom".to_string()).message(), "boom");
    let c = CommonError::Categorized { category: ErrorCategory::Timeout, message: "late".to_string() };
    assert_eq!(c.message(), "late");
}

#[test]
fn result_context_wraps_the_error_text() {
    let r: Result<u32, CommonError> = Err(CommonError::BlitNotSupported);
    match ResultExt::context(r, "Failed to push video sample") {
        Err(CommonError::Other(s)) => assert_eq!(
            s,
            "Failed to push video sample: Blit not supported in this encoding system"
        ),
        other => panic!("unexpected {:?}", other),
    }
    let ok: Result<u32, CommonError> = Ok(7);
    assert_eq!(ResultExt::context(ok, "unused").unwrap(), 7);
}

#[test]
fn result_with_context_is_lazy_and_wraps() {
    let r: Result<u32, CommonError> = Err(CommonError::Other("inner".to_string()));
    match r.with_context(|| "outer".to_string()) {
        Err(CommonError::Other(s)) => assert_eq!(s, "outer: inner"),
        other => panic!("unexpected {:?}", other),
    }
    let ok: Result<u32, CommonError> = Ok(3);
    let mut called = false;
    let res = ok.with_context(|| {
        called = true;
        "never".to_string()
    });
    assert_eq!(res.unwrap(), 3);
    assert!(!called);
}

#[test]
fn result_context_on_error_text() {
    let r: Result<(), String> = Err("disk full".to_string());
    match r.context("Failed to write encoded frame") {
        Err(CommonError::Other(s)) => assert_eq!(s, "Failed to write encoded frame: disk full"),
        other => panic!("unexpected {:?}", other),
    }
}

#[test]
fn option_context_names_the_absence() {
    let none: Option<u8> = None;
    match OptionExt::context(none, "Output path has no filename") {
        Err(CommonError::Other(s)) => assert_eq!(s, "Output path has no filename"),
        other => panic!("unexpected {:?}", other),
    }
    assert_eq!(OptionExt::context(Some(5u8), "x").unwrap(), 5);
    match OptionExt::with_context(None::<u8>, || "lazy".to_string()) {
        Err(CommonError::Other(s)) => assert_eq!(s, "lazy"),
        other => panic!("unexpected {:?}", other),
    }
}

#[test]
fn windows_error_categories() {
    assert_eq!(WindowsError::NoSuitableMft.category(), ErrorCategory::Initialization);
    assert_eq!(WindowsError::InvalidStreamCount.category(), ErrorCategory::Configuration);
    assert_eq!(WindowsError::OutputGetFailed.category(), ErrorCategory::Encoding);
    assert_eq!(WindowsError::UnsupportedVideoFrameFormat.category(), ErrorCategory::InvalidInput);
    assert_eq!(WindowsError::SampleSendFailed("x".into()).category(), ErrorCategory::Communication);
    assert_eq!(WindowsError::ChannelSendFailed.category(), ErrorCategory::Communication);
    assert_eq!(WindowsError::MuxerSendFailed("x".into()).category(), ErrorCategory::Muxing);
    assert_eq!(
        WindowsError::MuxerCompletionWaitFailed("x".into()).category(),
        ErrorCategory::Muxing
    );
    assert_eq!(WindowsError::Other("x".into()).category(), ErrorCategory::General);
    assert_eq!(WindowsError::Utf16ToStringConversionFailed.category(), ErrorCategory::General);
    let platform = WindowsError::from(windows_core::Error::from_hresult(windows_core::HRESULT(
        0x80004005u32 as i32,
    )));
    assert_eq!(platform.category(), ErrorCategory::Platform);
    let inner = WindowsError::from(CommonError::BufferPoolExceeded);
    assert_eq!(inner.category(), ErrorCategory::ResourceAllocation);
}

#[test]
fn windows_error_messages() {
    assert_eq!(WindowsError::NoSuitableMft.message(), "No suitable MFT found");
    assert_eq!(
        WindowsError::SampleSendFailed("queue full".into()).message(),
        "Failed to send video sample: queue full"
    );
    assert_eq!(
        WindowsError::MuxerCompletionWaitFailed("channel closed".into()).message(),
        "Failed to wait for muxer completion: channel closed"
    );
    assert_eq!(
        WindowsError::UnsupportedVideoFrameFormat.message(),
        "MediaFoundationVideoEncoder only supports Bgra32 frames"
    );
    assert_eq!(WindowsError::Common(CommonError::BlitNotSupported).message(),
        "Blit not supported in this encoding system");
}

#[test]
fn oneshot_receive_error_is_a_communication_error() {
    let (tx, rx) = tokio::sync::oneshot::channel::<()>();
    drop(tx);
    let err = rx.blocking_recv().unwrap_err();
    let e = WindowsError::from(err);
    assert_eq!(e.category(), ErrorCategory::Communication);
    assert_eq!(e.message(), "channel closed");
}

#[test]
fn send_error_becomes_channel_send_failed() {
    let (tx2, rx2) = tokio::sync::mpsc::channel::<u8>(1);
    drop(rx2);
    let send_err = tx2.blocking_send(9).unwrap_err();
    let e = WindowsError::from(send_err);
    assert!(matches!(e, WindowsError::ChannelSendFailed));
    assert_eq!(e.message(), "Failed to send to channel");
}

#[test]
fn into_common_keeps_category_and_text() {
    match WindowsError::StreamNotInitialized.into_common() {
        CommonError::Categorized { category, message } => {
            assert_eq!(category, ErrorCategory::Initialization);
            assert_eq!(message, "Stream is not initialized");
        }
        other => panic!("unexpected {:?}", other),
    }
    let c = WindowsError::Common(CommonError::Other("deep".into())).into_common();
    assert_eq!(c.category(), ErrorCategory::General);
    assert_eq!(c.message(), "deep");
}

#[test]
fn windows_context_and_option_context() {
    let r: Result<(), WindowsError> = Err(WindowsError::OutputTypeNone);
    match WindowsResultExt::context(r, "Configuring encoder") {
        Err(WindowsError::Other(s)) => assert_eq!(s, "Configuring encoder: Output type is None"),
        other => panic!("unexpected {:?}", other),
    }
    let r2: Result<(), CommonError> = Err(CommonError::BufferPoolExceeded);
    match WindowsResultExt::context(r2, "pool") {
        Err(WindowsError::Other(s)) => assert_eq!(s, "pool: Buffer pool limit exceeded"),
        other => panic!("unexpected {:?}", other),
    }
    match WindowsOptionExt::context(None::<u8>, "missing stream") {
        Err(WindowsError::Other(s)) => assert_eq!(s, "missing stream"),
        other => panic!("unexpected {:?}", other),
    }
}

#[test]
fn clones_are_equal_in_text_and_category() {
    let e = WindowsError::MuxerSendFailed("x".into());
    let c = e.clone();
    assert_eq!(c.message(), e.message());
    assert_eq!(c.category(), e.category());
    let ce = CommonError::Categorized { category: ErrorCategory::Encoding, message: "m".into() };
    let cc = ce.clone();
    assert_eq!(cc.category(), ErrorCategory::Encoding);
    assert_eq!(cc.message(), "m");
}

#[test]
fn platform_text_is_used_only_for_platform_errors() {
    let platform = WindowsError::from(windows_core::Error::from_hresult(windows_core::HRESULT(
        0x80004005u32 as i32,
    )));
    assert_eq!(platform.message_from("Unspecified error (0x80004005)"), "Unspecified error (0x80004005)");
    assert_eq!(WindowsError::StreamGetFailed.message_from("ignored"), "Failed to get stream");
    match platform.into_common() {
        CommonError::Categorized { category, .. } => assert_eq!(category, ErrorCategory::Platform),
        other => panic!("unexpected {:?}", other),
    }
}

#[test]
fn windows_context_keeps_platform_text() {
    let platform = WindowsError::from(windows_core::Error::from_hresult(windows_core::HRESULT(
        0x80004005u32 as i32,
    )));
    let text = platform.message();
    let r: Result<(), WindowsError> = Err(platform);
    match WindowsResultExt::context(r, "Creating sink") {
        Err(WindowsError::Other(s)) => assert_eq!(s, format!("Creating sink: {}", text)),
        other => panic!("unexpected {:?}", other),
    }
}

#[test]
fn from_windows_error_keeps_category() {
    let c = CommonError::from(WindowsError::MuxerSendFailed("closed".into()));
    assert_eq!(c.category(), ErrorCategory::Muxing);
    assert_eq!(c.message(), "Failed to send video data to muxer: closed");
}
