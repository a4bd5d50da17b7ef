use unienc::webcodecs::js::{
    accepted_encoder_index, flush_audio_script, flush_video_script, free_audio_encoder_script,
    free_video_encoder_script, make_download, new_audio_encoder_script, new_video_encoder_script,
    push_audio_frame_script, push_video_frame_script,
};

#[test]
fn new_video_encoder_script_text() {
    let (width, height, bitrate, framerate) = (1920u32, 1080u32, 8_000_000u32, 29.97f64);
    let (on_output, on_output_ctx, on_complete, on_complete_ctx) = (17usize, 4096usize, 23usize, 0usize);
    let expected = format!(
        "
            (function() {{
                const width = {width};
                const height = {height};
                const bitrate = {bitrate};
                const framerate = {framerate};
                const onOutput = {on_output};
                const onOutputCtx = {on_output_ctx};
                const onComplete = {on_complete};
                const onCompleteCtx = {on_complete_ctx};
                window.unienc_webcodecs.video.new({{ width, height, bitrate, framerate }}, onOutput, onOutputCtx, onComplete, onCompleteCtx);
            }})();
            "
    );
    let got = new_video_encoder_script(
        width, height, bitrate, &framerate.to_string(), on_output, on_output_ctx, on_complete,
        on_complete_ctx,
    );
    assert_eq!(got, expected);
}

#[test]
fn push_video_frame_script_text() {
    let (encoder_index, data_ptr, data_length, width, height, timestamp, is_key) =
        (-3i32, 123456usize, 8294400usize, 1920u32, 1080u32, 1.5f64, true);
    let expected = format!(
        "
            (function() {{
                const encoderIndex = {encoder_index};
                const dataPtr = {data_ptr};
                const dataLength = {data_length};
                const width = {width};
                const height = {height};
                const timestamp = {timestamp};
                const isKey = {is_key};
                const dataArray = Module.HEAPU8.subarray(dataPtr, dataPtr + dataLength);
                window.unienc_webcodecs.video.push(encoderIndex, dataArray, {{width, height, timestamp, isKey}});
            }})();
            ",
        timestamp = timestamp
    );
    let got = push_video_frame_script(
        encoder_index, data_ptr, data_length, width, height, &timestamp.to_string(), is_key,
    );
    assert_eq!(got, expected);
    let not_key = push_video_frame_script(0, 0, 0, 0, 0, "0", false);
    assert!(not_key.contains("const isKey = false;"));
}

#[test]
fn flush_and_free_scripts_text() {
    let (id, on_complete, on_complete_ctx) = (2147483647i32, 99usize, 18446744usize);
    let expected_flush = format!(
        "
            (function() {{
                const index = {id};
                const onComplete = {on_complete};
                const onCompleteCtx = {on_complete_ctx};
                window.unienc_webcodecs.video.flush(index, onComplete, onCompleteCtx);
            }})();
            "
    );
    assert_eq!(flush_video_script(id, on_complete, on_complete_ctx), expected_flush);
    let expected_audio_flush = expected_flush.replace("video.flush", "audio.flush");
    assert_eq!(flush_audio_script(id, on_complete, on_complete_ctx), expected_audio_flush);

    let encoder_id = i32::MIN;
    let expected_free = format!(
        "
            (function() {{
                const encoderId = {encoder_id};
                window.unienc_webcodecs.video.free(encoderId);
            }})();
            ",
        encoder_id = encoder_id
    );
    assert_eq!(free_video_encoder_script(encoder_id), expected_free);
    assert_eq!(
        free_audio_encoder_script(encoder_id),
        expected_free.replace("video.free", "audio.free")
    );
}

#[test]
fn audio_scripts_text() {
    let (bitrate, channels, sample_rate) = (128000u32, 2u32, 48000u32);
    let (on_output, on_output_ctx, on_complete, on_complete_ctx) = (1usize, 2usize, 3usize, 4usize);
    let expected_new = format!(
        "
            (function() {{
                const bitrate = {bitrate};
                const channels = {channels};
                const sample_rate = {sample_rate};
                const onOutput = {on_output};
                const onOutputCtx = {on_output_ctx};
                const onComplete = {on_complete};
                const onCompleteCtx = {on_complete_ctx};
                window.unienc_webcodecs.video.new({{ bitrate, channels, sample_rate }}, onOutput, onOutputCtx, onComplete, onCompleteCtx);
            }})();
            "
    );
    assert_eq!(
        new_audio_encoder_script(bitrate, channels, sample_rate, on_output, on_output_ctx, on_complete, on_complete_ctx),
        expected_new
    );
    let (encoder_index, data_ptr, data_length, timestamp) = (5i32, 777usize, 4096usize, 0.25f64);
    let expected_push = format!(
        "
            (function() {{
                const encoderIndex = {encoder_index};
                const dataPtr = {data_ptr};
                const dataLength = {data_length};
                const channels = {channels};
                const sample_rate = {sample_rate};
                const timestamp = {timestamp};
                const dataArray = new Uint8Array(Module.HEAPU8.buffer, dataPtr, dataLength);
                window.unienc_webcodecs.video.push(encoderIndex, dataArray, {{channels, sample_rate, timestamp}});
            }})();
            ",
        timestamp = timestamp
    );
    assert_eq!(
        push_audio_frame_script(encoder_index, data_ptr, data_length, channels, sample_rate, &timestamp.to_string()),
        expected_push
    );
}

#[test]
fn make_download_script_text() {
    let (parts_ptr, parts_len, mime_ptr, filename_ptr) = (1000usize, 3usize, 2000usize, 3000usize);
    let expected = format!(
        "
            (function() {{
                const partsPtr = {parts_ptr};
                const partsLen = {parts_len};
                const mimePtr = '{mime_ptr}';
                const filenamePtr = '{filename_ptr}';
                window.unienc_webcodecs.makeDownload(partsPtr, partsLen, mimePtr, filenamePtr);
            }})();
            "
    );
    let got = make_download(parts_ptr, parts_len, mime_ptr, filename_ptr);
    assert_eq!(got, expected);
    assert!(!got.contains('\0'));
}

#[test]
fn decimal_text_of_edge_values() {
    assert!(free_video_encoder_script(0).contains("const encoderId = 0;"));
    assert!(free_video_encoder_script(-1).contains("const encoderId = -1;"));
    assert!(free_video_encoder_script(10).contains("const encoderId = 10;"));
    let s = make_download(usize::MAX, 0, 0, 0);
    assert!(s.contains(&format!("const partsPtr = {};", usize::MAX)));
}

#[test]
fn encoder_index_acceptance() {
    assert_eq!(accepted_encoder_index(Some(0)), Some(0));
    assert_eq!(accepted_encoder_index(Some(12)), Some(12));
    assert_eq!(accepted_encoder_index(Some(-1)), None);
    assert_eq!(accepted_encoder_index(None), None);
}
