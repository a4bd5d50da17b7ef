use unienc::api::{
    blit_source_answer, check_arguments, may_create_muxer, muxer_push_answer, muxer_push_result,
    new_encoder_answer, new_muxer_answer, operation_result, resource_in, take_resource, UniencError,
};
use unienc::error::{CommonError, ErrorCategory};

#[test]
fn missing_arguments_are_invalid_input() {
    assert!(check_arguments(true).is_ok());
    let e = check_arguments(false).unwrap_err();
    assert_eq!(e.category, ErrorCategory::InvalidInput);
    assert_eq!(e.message, "Invalid input parameters");
}

#[test]
fn finished_handle_answers_resource_error() {
    let mut slot: Option<Vec<u8>> = Some(vec![1]);
    resource_in(&mut slot).unwrap().push(2);
    assert_eq!(slot, Some(vec![1, 2]));
    assert_eq!(take_resource(&mut slot).unwrap(), vec![1, 2]);
    assert_eq!(slot, None);
    let again = take_resource(&mut slot).unwrap_err();
    assert_eq!(again.category, ErrorCategory::ResourceAllocation);
    assert_eq!(again.message, "Resource is None");
    let keep = resource_in(&mut slot).unwrap_err();
    assert_eq!(keep.category, ErrorCategory::ResourceAllocation);
    assert_eq!(keep.message, "Resource is None");
}

#[test]
fn operation_errors_are_reported_as_general_with_context() {
    let r: Result<(), CommonError> = Err(CommonError::BufferPoolExceeded);
    let e = operation_result(r, "Failed to push audio sample").unwrap_err();
    assert_eq!(e.category, ErrorCategory::General);
    assert_eq!(e.message, "Failed to push audio sample: Buffer pool limit exceeded");
    assert_eq!(operation_result(Ok(5u8), "unused").unwrap(), 5);
}

#[test]
fn error_constructors() {
    let e = UniencError::encoding_error("Failed to decode encoded data");
    assert_eq!(e.category, ErrorCategory::Encoding);
    assert_eq!(e.message, "Failed to decode encoded data");
    let p = UniencError::platform_error("Not supported");
    assert_eq!(p.category, ErrorCategory::Platform);
    let c = UniencError::from_common(CommonError::Categorized {
        category: ErrorCategory::Timeout,
        message: "late".into(),
    });
    assert_eq!(c.category, ErrorCategory::Timeout);
    assert_eq!(c.message, "late");
    let r = UniencError::resource_allocation_error("gone");
    assert_eq!(r.category, ErrorCategory::ResourceAllocation);
    let i = UniencError::invalid_input_error("Invalid runtime pointer");
    assert_eq!(i.category, ErrorCategory::InvalidInput);
    assert_eq!(i.message, "Invalid runtime pointer");
}

#[test]
fn blit_source_answers() {
    let missing = blit_source_answer(true, false);
    assert_eq!(missing.category, ErrorCategory::InvalidInput);
    assert_eq!(missing.message, "Invalid input parameters");
    assert_eq!(blit_source_answer(false, true).category, ErrorCategory::InvalidInput);
    let unsupported = blit_source_answer(true, true);
    assert_eq!(unsupported.category, ErrorCategory::Platform);
    assert_eq!(unsupported.message, "Not supported");
}

#[test]
fn muxer_push_answers() {
    let e = muxer_push_answer::<u8>(false, Some(1)).unwrap_err();
    assert_eq!(e.category, ErrorCategory::InvalidInput);
    assert_eq!(e.message, "Invalid input parameters");
    let d = muxer_push_answer::<u8>(true, None).unwrap_err();
    assert_eq!(d.category, ErrorCategory::Encoding);
    assert_eq!(d.message, "Failed to decode encoded data");
    assert_eq!(muxer_push_answer(true, Some(9u8)).unwrap(), 9);

    let gone = muxer_push_result(false, Ok(()), "x").unwrap_err();
    assert_eq!(gone.category, ErrorCategory::ResourceAllocation);
    assert_eq!(gone.message, "Resource is None");
    assert!(muxer_push_result(true, Ok(()), "x").is_ok());
    let failed = muxer_push_result(
        true,
        Err(CommonError::Other("closed".into())),
        "Failed to push encoded video sample to muxer",
    )
    .unwrap_err();
    assert_eq!(failed.category, ErrorCategory::General);
    assert_eq!(failed.message, "Failed to push encoded video sample to muxer: closed");
}

#[test]
fn new_muxer_answers() {
    assert!(may_create_muxer(true, true));
    assert!(!may_create_muxer(true, false));
    assert!(!may_create_muxer(false, true));
    let bad_path = new_muxer_answer(true, false, Ok(()), Ok(())).unwrap_err();
    assert_eq!(bad_path.category, ErrorCategory::InvalidInput);
    assert_eq!(bad_path.message, "Invalid input parameters");
    let created = new_muxer_answer(
        true,
        true,
        Err(CommonError::Categorized { category: ErrorCategory::Muxing, message: "no sink".into() }),
        Ok(()),
    )
    .unwrap_err();
    assert_eq!(created.category, ErrorCategory::Muxing);
    assert_eq!(created.message, "no sink");
    let inputs = new_muxer_answer(true, true, Ok(()), Err(CommonError::BufferPoolExceeded)).unwrap_err();
    assert_eq!(inputs.category, ErrorCategory::General);
    assert_eq!(inputs.message, "Failed to get muxer input: Buffer pool limit exceeded");
    assert!(new_muxer_answer(true, true, Ok(()), Ok(())).is_ok());
}

#[test]
fn new_encoder_answers() {
    let e = new_encoder_answer(false, Ok(()), Ok(()), "ctx").unwrap_err();
    assert_eq!(e.category, ErrorCategory::InvalidInput);
    let c = new_encoder_answer(true, Err(CommonError::BlitNotSupported), Ok(()), "ctx").unwrap_err();
    assert_eq!(c.category, ErrorCategory::Configuration);
    let s = new_encoder_answer(true, Ok(()), Err(CommonError::Other("split".into())), "Failed to get encoded video sample").unwrap_err();
    assert_eq!(s.message, "Failed to get encoded video sample: split");
    assert!(new_encoder_answer(true, Ok(()), Ok(()), "ctx").is_ok());
}
