//! Scripts through which the module drives the encoders that live on the
//! page. Each script is plain text: the numbers in it are written in
//! decimal, and the texts handed in (a frame rate, a timestamp) are placed
//! as they are.

use vstd::prelude::*;
use vstd::seq_lib::lemma_concat_associative;
use crate::text::{bool_text, decimal, lemma_decimal_digits, push_bool, push_decimal, push_signed_decimal, signed_decimal};

verus! {

/// The index that the page reports for a new encoder names an encoder only
/// when it arrived and is not negative.
pub fn accepted_encoder_index(reported: Option<i32>) -> (res: Option<i32>)
    ensures
        res == (match reported {
            Some(id) => if id < 0 { None } else { Some(id) },
            None => None,
        }),
{
    match reported {
        Some(id) => if id < 0 {
            None
        } else {
            Some(id)
        },
        None => None,
    }
}

/// The text of `new_video_encoder_script`.
pub open spec fn new_video_encoder_text(width: u32, height: u32, bitrate: u32, framerate: Seq<char>, on_output: usize, on_output_ctx: usize, on_complete: usize, on_complete_ctx: usize) -> Seq<char> {
    "\n            (function() {\n                const width = "@
        + decimal(width as nat)
        + ";\n                const height = "@
        + decimal(height as nat)
        + ";\n                const bitrate = "@
        + decimal(bitrate as nat)
        + ";\n                const framerate = "@
        + framerate
        + ";\n                const onOutput = "@
        + decimal(on_output as nat)
        + ";\n                const onOutputCtx = "@
        + decimal(on_output_ctx as nat)
        + ";\n                const onComplete = "@
        + decimal(on_complete as nat)
        + ";\n                const onCompleteCtx = "@
        + decimal(on_complete_ctx as nat)
        + ";\n                window.unienc_webcodecs.video.new({ width, height, bitrate, framerate }, onOutput, onOutputCtx, onComplete, onCompleteCtx);\n            })();\n            "@
}

/// Script that creates a video encoder on the page and reports its index through the completion callback.
pub fn new_video_encoder_script(width: u32, height: u32, bitrate: u32, framerate: &str, on_output: usize, on_output_ctx: usize, on_complete: usize, on_complete_ctx: usize) -> (res: String)
    ensures
        res@ == new_video_encoder_text(width, height, bitrate, framerate@, on_output, on_output_ctx, on_complete, on_complete_ctx),
{
    let mut s = String::from_str("\n            (function() {\n                const width = ");
    push_decimal(&mut s, width as u64);
    s.append(";\n                const height = ");
    push_decimal(&mut s, height as u64);
    s.append(";\n                const bitrate = ");
    push_decimal(&mut s, bitrate as u64);
    s.append(";\n                const framerate = ");
    s.append(framerate);
    s.append(";\n                const onOutput = ");
    push_decimal(&mut s, on_output as u64);
    s.append(";\n                const onOutputCtx = ");
    push_decimal(&mut s, on_output_ctx as u64);
    s.append(";\n                const onComplete = ");
    push_decimal(&mut s, on_complete as u64);
    s.append(";\n                const onCompleteCtx = ");
    push_decimal(&mut s, on_complete_ctx as u64);
    s.append(";\n                window.unienc_webcodecs.video.new({ width, height, bitrate, framerate }, onOutput, onOutputCtx, onComplete, onCompleteCtx);\n            })();\n            ");
    s
}

/// The text of `push_video_frame_script`.
pub open spec fn push_video_frame_text(encoder_index: i32, data_ptr: usize, data_length: usize, width: u32, height: u32, timestamp: Seq<char>, is_key: bool) -> Seq<char> {
    "\n            (function() {\n                const encoderIndex = "@
        + signed_decimal(encoder_index as int)
        + ";\n                const dataPtr = "@
        + decimal(data_ptr as nat)
        + ";\n                const dataLength = "@
        + decimal(data_length as nat)
        + ";\n                const width = "@
        + decimal(width as nat)
        + ";\n                const height = "@
        + decimal(height as nat)
        + ";\n                const timestamp = "@
        + timestamp
        + ";\n                const isKey = "@
        + bool_text(is_key)
        + ";\n                const dataArray = Module.HEAPU8.subarray(dataPtr, dataPtr + dataLength);\n                window.unienc_webcodecs.video.push(encoderIndex, dataArray, {width, height, timestamp, isKey});\n            })();\n            "@
}

/// Script that hands one video frame, read from the module heap, to the encoder with the given index.
pub fn push_video_frame_script(encoder_index: i32, data_ptr: usize, data_length: usize, width: u32, height: u32, timestamp: &str, is_key: bool) -> (res: String)
    ensures
        res@ == push_video_frame_text(encoder_index, data_ptr, data_length, width, height, timestamp@, is_key),
{
    let mut s = String::from_str("\n            (function() {\n                const encoderIndex = ");
    push_signed_decimal(&mut s, encoder_index as i64);
    s.append(";\n                const dataPtr = ");
    push_decimal(&mut s, data_ptr as u64);
    s.append(";\n                const dataLength = ");
    push_decimal(&mut s, data_length as u64);
    s.append(";\n                const width = ");
    push_decimal(&mut s, width as u64);
    s.append(";\n                const height = ");
    push_decimal(&mut s, height as u64);
    s.append(";\n                const timestamp = ");
    s.append(timestamp);
    s.append(";\n                const isKey = ");
    push_bool(&mut s, is_key);
    s.append(";\n                const dataArray = Module.HEAPU8.subarray(dataPtr, dataPtr + dataLength);\n                window.unienc_webcodecs.video.push(encoderIndex, dataArray, {width, height, timestamp, isKey});\n            })();\n            ");
    s
}

/// The text of `flush_video_script`.
pub open spec fn flush_video_text(id: i32, on_complete: usize, on_complete_ctx: usize) -> Seq<char> {
    "\n            (function() {\n                const index = "@
        + signed_decimal(id as int)
        + ";\n                const onComplete = "@
        + decimal(on_complete as nat)
        + ";\n                const onCompleteCtx = "@
        + decimal(on_complete_ctx as nat)
        + ";\n                window.unienc_webcodecs.video.flush(index, onComplete, onCompleteCtx);\n            })();\n            "@
}

/// Script that flushes the video encoder with the given index and then calls the completion callback.
pub fn flush_video_script(id: i32, on_complete: usize, on_complete_ctx: usize) -> (res: String)
    ensures
        res@ == flush_video_text(id, on_complete, on_complete_ctx),
{
    let mut s = String::from_str("\n            (function() {\n                const index = ");
    push_signed_decimal(&mut s, id as i64);
    s.append(";\n                const onComplete = ");
    push_decimal(&mut s, on_complete as u64);
    s.append(";\n                const onCompleteCtx = ");
    push_decimal(&mut s, on_complete_ctx as u64);
    s.append(";\n                window.unienc_webcodecs.video.flush(index, onComplete, onCompleteCtx);\n            })();\n            ");
    s
}

/// The text of `free_video_encoder_script`.
pub open spec fn free_video_encoder_text(encoder_id: i32) -> Seq<char> {
    "\n            (function() {\n                const encoderId = "@
        + signed_decimal(encoder_id as int)
        + ";\n                window.unienc_webcodecs.video.free(encoderId);\n            })();\n            "@
}

/// Script that frees the video encoder with the given index.
pub fn free_video_encoder_script(encoder_id: i32) -> (res: String)
    ensures
        res@ == free_video_encoder_text(encoder_id),
{
    let mut s = String::from_str("\n            (function() {\n                const encoderId = ");
    push_signed_decimal(&mut s, encoder_id as i64);
    s.append(";\n                window.unienc_webcodecs.video.free(encoderId);\n            })();\n            ");
    s
}

/// The text of `new_audio_encoder_script`.
pub open spec fn new_audio_encoder_text(bitrate: u32, channels: u32, sample_rate: u32, on_output: usize, on_output_ctx: usize, on_complete: usize, on_complete_ctx: usize) -> Seq<char> {
    "\n            (function() {\n                const bitrate = "@
        + decimal(bitrate as nat)
        + ";\n                const channels = "@
        + decimal(channels as nat)
        + ";\n                const sample_rate = "@
        + decimal(sample_rate as nat)
        + ";\n                const onOutput = "@
        + decimal(on_output as nat)
        + ";\n                const onOutputCtx = "@
        + decimal(on_output_ctx as nat)
        + ";\n                const onComplete = "@
        + decimal(on_complete as nat)
        + ";\n                const onCompleteCtx = "@
        + decimal(on_complete_ctx as nat)
        + ";\n                window.unienc_webcodecs.video.new({ bitrate, channels, sample_rate }, onOutput, onOutputCtx, onComplete, onCompleteCtx);\n            })();\n            "@
}

/// Script that creates an audio encoder on the page and reports its index through the completion callback.
pub fn new_audio_encoder_script(bitrate: u32, channels: u32, sample_rate: u32, on_output: usize, on_output_ctx: usize, on_complete: usize, on_complete_ctx: usize) -> (res: String)
    ensures
        res@ == new_audio_encoder_text(bitrate, channels, sample_rate, on_output, on_output_ctx, on_complete, on_complete_ctx),
{
    let mut s = String::from_str("\n            (function() {\n                const bitrate = ");
    push_decimal(&mut s, bitrate as u64);
    s.append(";\n                const channels = ");
    push_decimal(&mut s, channels as u64);
    s.append(";\n                const sample_rate = ");
    push_decimal(&mut s, sample_rate as u64);
    s.append(";\n                const onOutput = ");
    push_decimal(&mut s, on_output as u64);
    s.append(";\n                const onOutputCtx = ");
    push_decimal(&mut s, on_output_ctx as u64);
    s.append(";\n                const onComplete = ");
    push_decimal(&mut s, on_complete as u64);
    s.append(";\n                const onCompleteCtx = ");
    push_decimal(&mut s, on_complete_ctx as u64);
    s.append(";\n                window.unienc_webcodecs.video.new({ bitrate, channels, sample_rate }, onOutput, onOutputCtx, onComplete, onCompleteCtx);\n            })();\n            ");
    s
}

/// The text of `push_audio_frame_script`.
pub open spec fn push_audio_frame_text(encoder_index: i32, data_ptr: usize, data_length: usize, channels: u32, sample_rate: u32, timestamp: Seq<char>) -> Seq<char> {
    "\n            (function() {\n                const encoderIndex = "@
        + signed_decimal(encoder_index as int)
        + ";\n                const dataPtr = "@
        + decimal(data_ptr as nat)
        + ";\n                const dataLength = "@
        + decimal(data_length as nat)
        + ";\n                const channels = "@
        + decimal(channels as nat)
        + ";\n                const sample_rate = "@
        + decimal(sample_rate as nat)
        + ";\n                const timestamp = "@
        + timestamp
        + ";\n                const dataArray = new Uint8Array(Module.HEAPU8.buffer, dataPtr, dataLength);\n                window.unienc_webcodecs.video.push(encoderIndex, dataArray, {channels, sample_rate, timestamp});\n            })();\n            "@
}

/// Script that hands one block of audio samples, read from the module heap, to the encoder with the given index.
pub fn push_audio_frame_script(encoder_index: i32, data_ptr: usize, data_length: usize, channels: u32, sample_rate: u32, timestamp: &str) -> (res: String)
    ensures
        res@ == push_audio_frame_text(encoder_index, data_ptr, data_length, channels, sample_rate, timestamp@),
{
    let mut s = String::from_str("\n            (function() {\n                const encoderIndex = ");
    push_signed_decimal(&mut s, encoder_index as i64);
    s.append(";\n                const dataPtr = ");
    push_decimal(&mut s, data_ptr as u64);
    s.append(";\n                const dataLength = ");
    push_decimal(&mut s, data_length as u64);
    s.append(";\n                const channels = ");
    push_decimal(&mut s, channels as u64);
    s.append(";\n                const sample_rate = ");
    push_decimal(&mut s, sample_rate as u64);
    s.append(";\n                const timestamp = ");
    s.append(timestamp);
    s.append(";\n                const dataArray = new Uint8Array(Module.HEAPU8.buffer, dataPtr, dataLength);\n                window.unienc_webcodecs.video.push(encoderIndex, dataArray, {channels, sample_rate, timestamp});\n            })();\n            ");
    s
}

/// The text of `flush_audio_script`.
pub open spec fn flush_audio_text(id: i32, on_complete: usize, on_complete_ctx: usize) -> Seq<char> {
    "\n            (function() {\n                const index = "@
        + signed_decimal(id as int)
        + ";\n                const onComplete = "@
        + decimal(on_complete as nat)
        + ";\n                const onCompleteCtx = "@
        + decimal(on_complete_ctx as nat)
        + ";\n                window.unienc_webcodecs.audio.flush(index, onComplete, onCompleteCtx);\n            })();\n            "@
}

/// Script that flushes the audio encoder with the given index and then calls the completion callback.
pub fn flush_audio_script(id: i32, on_complete: usize, on_complete_ctx: usize) -> (res: String)
    ensures
        res@ == flush_audio_text(id, on_complete, on_complete_ctx),
{
    let mut s = String::from_str("\n            (function() {\n                const index = ");
    push_signed_decimal(&mut s, id as i64);
    s.append(";\n                const onComplete = ");
    push_decimal(&mut s, on_complete as u64);
    s.append(";\n                const onCompleteCtx = ");
    push_decimal(&mut s, on_complete_ctx as u64);
    s.append(";\n                window.unienc_webcodecs.audio.flush(index, onComplete, onCompleteCtx);\n            })();\n            ");
    s
}

/// The text of `free_audio_encoder_script`.
pub open spec fn free_audio_encoder_text(encoder_id: i32) -> Seq<char> {
    "\n            (function() {\n                const encoderId = "@
        + signed_decimal(encoder_id as int)
        + ";\n                window.unienc_webcodecs.audio.free(encoderId);\n            })();\n            "@
}

/// Script that frees the audio encoder with the given index.
pub fn free_audio_encoder_script(encoder_id: i32) -> (res: String)
    ensures
        res@ == free_audio_encoder_text(encoder_id),
{
    let mut s = String::from_str("\n            (function() {\n                const encoderId = ");
    push_signed_decimal(&mut s, encoder_id as i64);
    s.append(";\n                window.unienc_webcodecs.audio.free(encoderId);\n            })();\n            ");
    s
}

/// The text of `make_download`.
pub open spec fn make_download_text(parts_ptr: usize, parts_len: usize, mime_ptr: usize, filename_ptr: usize) -> Seq<char> {
    "\n            (function() {\n                const partsPtr = "@
        + decimal(parts_ptr as nat)
        + ";\n                const partsLen = "@
        + decimal(parts_len as nat)
        + ";\n                const mimePtr = '"@
        + decimal(mime_ptr as nat)
        + "';\n                const filenamePtr = '"@
        + decimal(filename_ptr as nat)
        + "';\n                window.unienc_webcodecs.makeDownload(partsPtr, partsLen, mimePtr, filenamePtr);\n            })();\n            "@
}

/// Script that offers the parts at `parts_ptr` (`parts_len` pointer and length pairs) to the user as one download, with the mime type and file name at the given addresses.
pub fn make_download(parts_ptr: usize, parts_len: usize, mime_ptr: usize, filename_ptr: usize) -> (res: String)
    ensures
        res@ == make_download_text(parts_ptr, parts_len, mime_ptr, filename_ptr),
{
    let mut s = String::from_str("\n            (function() {\n                const partsPtr = ");
    push_decimal(&mut s, parts_ptr as u64);
    s.append(";\n                const partsLen = ");
    push_decimal(&mut s, parts_len as u64);
    s.append(";\n                const mimePtr = '");
    push_decimal(&mut s, mime_ptr as u64);
    s.append("';\n                const filenamePtr = '");
    push_decimal(&mut s, filename_ptr as u64);
    s.append("';\n                window.unienc_webcodecs.makeDownload(partsPtr, partsLen, mimePtr, filenamePtr);\n            })();\n            ");
    s
}

/// One constant of a script: `const name = value;`.
pub open spec fn script_field(name: Seq<char>, value: Seq<char>) -> Seq<char> {
    "const "@ + name + " = "@ + value + ";"@
}

/// The script declares the constant `name` with the text `value`.
pub open spec fn has_field(script: Seq<char>, name: Seq<char>, value: Seq<char>) -> bool {
    exists|before: Seq<char>, after: Seq<char>|
        script == before + #[trigger] script_field(name, value) + after
}

proof fn lemma_field_at(
    before: Seq<char>,
    head: Seq<char>,
    name: Seq<char>,
    opening: Seq<char>,
    value: Seq<char>,
    closing: Seq<char>,
    tail: Seq<char>,
    after: Seq<char>,
)
    ensures
        has_field(
            before + (head + "const "@ + name + " = "@ + opening) + value + (closing + ";"@ + tail)
                + after,
            name,
            opening + value + closing,
        ),
{
    let script = before + (head + "const "@ + name + " = "@ + opening) + value + (closing + ";"@
        + tail) + after;
    let field = script_field(name, opening + value + closing);
    assert(script =~= (before + head) + field + (tail + after));
}

/// Every constant of the script `new_video_encoder` holds the text of the argument it is
/// named after.
pub proof fn lemma_new_video_encoder_fields(width: u32, height: u32, bitrate: u32, framerate: Seq<char>, on_output: usize, on_output_ctx: usize, on_complete: usize, on_complete_ctx: usize)
    ensures
        has_field(new_video_encoder_text(width, height, bitrate, framerate, on_output, on_output_ctx, on_complete, on_complete_ctx), "width"@, decimal(width as nat)),
        has_field(new_video_encoder_text(width, height, bitrate, framerate, on_output, on_output_ctx, on_complete, on_complete_ctx), "height"@, decimal(height as nat)),
        has_field(new_video_encoder_text(width, height, bitrate, framerate, on_output, on_output_ctx, on_complete, on_complete_ctx), "bitrate"@, decimal(bitrate as nat)),
        has_field(new_video_encoder_text(width, height, bitrate, framerate, on_output, on_output_ctx, on_complete, on_complete_ctx), "framerate"@, framerate),
        has_field(new_video_encoder_text(width, height, bitrate, framerate, on_output, on_output_ctx, on_complete, on_complete_ctx), "onOutput"@, decimal(on_output as nat)),
        has_field(new_video_encoder_text(width, height, bitrate, framerate, on_output, on_output_ctx, on_complete, on_complete_ctx), "onOutputCtx"@, decimal(on_output_ctx as nat)),
        has_field(new_video_encoder_text(width, height, bitrate, framerate, on_output, on_output_ctx, on_complete, on_complete_ctx), "onComplete"@, decimal(on_complete as nat)),
        has_field(new_video_encoder_text(width, height, bitrate, framerate, on_output, on_output_ctx, on_complete, on_complete_ctx), "onCompleteCtx"@, decimal(on_complete_ctx as nat)),
{
    assert(has_field(new_video_encoder_text(width, height, bitrate, framerate, on_output, on_output_ctx, on_complete, on_complete_ctx), "width"@, decimal(width as nat))) by {
        assert("\n            (function() {\n                const width = "@ =~= "\n            (function() {\n                "@ + "const "@ + "width"@ + " = "@ + Seq::<char>::empty()) by {
            reveal_strlit("\n            (function() {\n                const width = ");
            reveal_strlit("const ");
            reveal_strlit("width");
            reveal_strlit(" = ");
            reveal_strlit("\n            (function() {\n                ");
        }
        assert(";\n                const height = "@ =~= Seq::<char>::empty() + ";"@ + "\n                const height = "@) by {
            reveal_strlit(";\n                const height = ");
            reveal_strlit(";");
            reveal_strlit("\n                const height = ");
        }
        lemma_field_at(Seq::<char>::empty(), "\n            (function() {\n                "@, "width"@, Seq::<char>::empty(), decimal(width as nat), Seq::<char>::empty(), "\n                const height = "@, decimal(height as nat) + ";\n                const bitrate = "@ + decimal(bitrate as nat) + ";\n                const framerate = "@ + framerate + ";\n                const onOutput = "@ + decimal(on_output as nat) + ";\n                const onOutputCtx = "@ + decimal(on_output_ctx as nat) + ";\n                const onComplete = "@ + decimal(on_complete as nat) + ";\n                const onCompleteCtx = "@ + decimal(on_complete_ctx as nat) + ";\n                window.unienc_webcodecs.video.new({ width, height, bitrate, framerate }, onOutput, onOutputCtx, onComplete, onCompleteCtx);\n            })();\n            "@);
        lemma_concat_associative(Seq::<char>::empty() + "\n            (function() {\n                const width = "@ + decimal(width as nat) + ";\n                const height = "@, decimal(height as nat), ";\n                const bitrate = "@);
        lemma_concat_associative(Seq::<char>::empty() + "\n            (function() {\n                const width = "@ + decimal(width as nat) + ";\n                const height = "@, decimal(height as nat) + ";\n                const bitrate = "@, decimal(bitrate as nat));
        lemma_concat_associative(Seq::<char>::empty() + "\n            (function() {\n                const width = "@ + decimal(width as nat) + ";\n                const height = "@, decimal(height as nat) + ";\n                const bitrate = "@ + decimal(bitrate as nat), ";\n                const framerate = "@);
        lemma_concat_associative(Seq::<char>::empty() + "\n            (function() {\n                const width = "@ + decimal(width as nat) + ";\n                const height = "@, decimal(height as nat) + ";\n                const bitrate = "@ + decimal(bitrate as nat) + ";\n                const framerate = "@, framerate);
        lemma_concat_associative(Seq::<char>::empty() + "\n            (function() {\n                const width = "@ + decimal(width as nat) + ";\n                const height = "@, decimal(height as nat) + ";\n                const bitrate = "@ + decimal(bitrate as nat) + ";\n                const framerate = "@ + framerate, ";\n                const onOutput = "@);
        lemma_concat_associative(Seq::<char>::empty() + "\n            (function() {\n                const width = "@ + decimal(width as nat) + ";\n                const height = "@, decimal(height as nat) + ";\n                const bitrate = "@ + decimal(bitrate as nat) + ";\n                const framerate = "@ + framerate + ";\n                const onOutput = "@, decimal(on_output as nat));
        lemma_concat_associative(Seq::<char>::empty() + "\n            (function() {\n                const width = "@ + decimal(width as nat) + ";\n                const height = "@, decimal(height as nat) + ";\n                const bitrate = "@ + decimal(bitrate as nat) + ";\n                const framerate = "@ + framerate + ";\n                const onOutput = "@ + decimal(on_output as nat), ";\n                const onOutputCtx = "@);
        lemma_concat_associative(Seq::<char>::empty() + "\n            (function() {\n                const width = "@ + decimal(width as nat) + ";\n                const height = "@, decimal(height as nat) + ";\n                const bitrate = "@ + decimal(bitrate as nat) + ";\n                const framerate = "@ + framerate + ";\n                const onOutput = "@ + decimal(on_output as nat) + ";\n                const onOutputCtx = "@, decimal(on_output_ctx as nat));
        lemma_concat_associative(Seq::<char>::empty() + "\n            (function() {\n                const width = "@ + decimal(width as nat) + ";\n                const height = "@, decimal(height as nat) + ";\n                const bitrate = "@ + decimal(bitrate as nat) + ";\n                const framerate = "@ + framerate + ";\n                const onOutput = "@ + decimal(on_output as nat) + ";\n                const onOutputCtx = "@ + decimal(on_output_ctx as nat), ";\n                const onComplete = "@);
        lemma_concat_associative(Seq::<char>::empty() + "\n            (function() {\n                const width = "@ + decimal(width as nat) + ";\n                const height = "@, decimal(height as nat) + ";\n                const bitrate = "@ + decimal(bitrate as nat) + ";\n                const framerate = "@ + framerate + ";\n                const onOutput = "@ + decimal(on_output as nat) + ";\n                const onOutputCtx = "@ + decimal(on_output_ctx as nat) + ";\n                const onComplete = "@, decimal(on_complete as nat));
        lemma_concat_associative(Seq::<char>::empty() + "\n            (function() {\n                const width = "@ + decimal(width as nat) + ";\n                const height = "@, decimal(height as nat) + ";\n                const bitrate = "@ + decimal(bitrate as nat) + ";\n                const framerate = "@ + framerate + ";\n                const onOutput = "@ + decimal(on_output as nat) + ";\n                const onOutputCtx = "@ + decimal(on_output_ctx as nat) + ";\n                const onComplete = "@ + decimal(on_complete as nat), ";\n                const onCompleteCtx = "@);
        lemma_concat_associative(Seq::<char>::empty() + "\n            (function() {\n                const width = "@ + decimal(width as nat) + ";\n                const height = "@, decimal(height as nat) + ";\n                const bitrate = "@ + decimal(bitrate as nat) + ";\n                const framerate = "@ + framerate + ";\n                const onOutput = "@ + decimal(on_output as nat) + ";\n                const onOutputCtx = "@ + decimal(on_output_ctx as nat) + ";\n                const onComplete = "@ + decimal(on_complete as nat) + ";\n                const onCompleteCtx = "@, decimal(on_complete_ctx as nat));
        lemma_concat_associative(Seq::<char>::empty() + "\n            (function() {\n                const width = "@ + decimal(width as nat) + ";\n                const height = "@, decimal(height as nat) + ";\n                const bitrate = "@ + decimal(bitrate as nat) + ";\n                const framerate = "@ + framerate + ";\n                const onOutput = "@ + decimal(on_output as nat) + ";\n                const onOutputCtx = "@ + decimal(on_output_ctx as nat) + ";\n                const onComplete = "@ + decimal(on_complete as nat) + ";\n                const onCompleteCtx = "@ + decimal(on_complete_ctx as nat), ";\n                window.unienc_webcodecs.video.new({ width, height, bitrate, framerate }, onOutput, onOutputCtx, onComplete, onCompleteCtx);\n            })();\n            "@);
    }
    assert(has_field(new_video_encoder_text(width, height, bitrate, framerate, on_output, on_output_ctx, on_complete, on_complete_ctx), "height"@, decimal(height as nat))) by {
        assert(";\n                const height = "@ =~= ";\n                "@ + "const "@ + "height"@ + " = "@ + Seq::<char>::empty()) by {
            reveal_strlit(";\n                const height = ");
            reveal_strlit("const ");
            reveal_strlit("height");
            reveal_strlit(" = ");
            reveal_strlit(";\n                ");
        }
        assert(";\n                const bitrate = "@ =~= Seq::<char>::empty() + ";"@ + "\n                const bitrate = "@) by {
            reveal_strlit(";\n                const bitrate = ");
            reveal_strlit(";");
            reveal_strlit("\n                const bitrate = ");
        }
        lemma_field_at("\n            (function() {\n                const width = "@ + decimal(width as nat), ";\n                "@, "height"@, Seq::<char>::empty(), decimal(height as nat), Seq::<char>::empty(), "\n                const bitrate = "@, decimal(bitrate as nat) + ";\n                const framerate = "@ + framerate + ";\n                const onOutput = "@ + decimal(on_output as nat) + ";\n                const onOutputCtx = "@ + decimal(on_output_ctx as nat) + ";\n                const onComplete = "@ + decimal(on_complete as nat) + ";\n                const onCompleteCtx = "@ + decimal(on_complete_ctx as nat) + ";\n                window.unienc_webcodecs.video.new({ width, height, bitrate, framerate }, onOutput, onOutputCtx, onComplete, onCompleteCtx);\n            })();\n            "@);
        lemma_concat_associative("\n            (function() {\n                const width = "@ + decimal(width as nat) + ";\n                const height = "@ + decimal(height as nat) + ";\n                const bitrate = "@, decimal(bitrate as nat), ";\n                const framerate = "@);
        lemma_concat_associative("\n            (function() {\n                const width = "@ + decimal(width as nat) + ";\n                const height = "@ + decimal(height as nat) + ";\n                const bitrate = "@, decimal(bitrate as nat) + ";\n                const framerate = "@, framerate);
        lemma_concat_associative("\n            (function() {\n                const width = "@ + decimal(width as nat) + ";\n                const height = "@ + decimal(height as nat) + ";\n                const bitrate = "@, decimal(bitrate as nat) + ";\n                const framerate = "@ + framerate, ";\n                const onOutput = "@);
        lemma_concat_associative("\n            (function() {\n                const width = "@ + decimal(width as nat) + ";\n                const height = "@ + decimal(height as nat) + ";\n                const bitrate = "@, decimal(bitrate as nat) + ";\n                const framerate = "@ + framerate + ";\n                const onOutput = "@, decimal(on_output as nat));
        lemma_concat_associative("\n            (function() {\n                const width = "@ + decimal(width as nat) + ";\n                const height = "@ + decimal(height as nat) + ";\n                const bitrate = "@, decimal(bitrate as nat) + ";\n                const framerate = "@ + framerate + ";\n                const onOutput = "@ + decimal(on_output as nat), ";\n                const onOutputCtx = "@);
        lemma_concat_associative("\n            (function() {\n                const width = "@ + decimal(width as nat) + ";\n                const height = "@ + decimal(height as nat) + ";\n                const bitrate = "@, decimal(bitrate as nat) + ";\n                const framerate = "@ + framerate + ";\n                const onOutput = "@ + decimal(on_output as nat) + ";\n                const onOutputCtx = "@, decimal(on_output_ctx as nat));
        lemma_concat_associative("\n            (function() {\n                const width = "@ + decimal(width as nat) + ";\n                const height = "@ + decimal(height as nat) + ";\n                const bitrate = "@, decimal(bitrate as nat) + ";\n                const framerate = "@ + framerate + ";\n                const onOutput = "@ + decimal(on_output as nat) + ";\n                const onOutputCtx = "@ + decimal(on_output_ctx as nat), ";\n                const onComplete = "@);
        lemma_concat_associative("\n            (function() {\n                const width = "@ + decimal(width as nat) + ";\n                const height = "@ + decimal(height as nat) + ";\n                const bitrate = "@, decimal(bitrate as nat) + ";\n                const framerate = "@ + framerate + ";\n                const onOutput = "@ + decimal(on_output as nat) + ";\n                const onOutputCtx = "@ + decimal(on_output_ctx as nat) + ";\n                const onComplete = "@, decimal(on_complete as nat));
        lemma_concat_associative("\n            (function() {\n                const width = "@ + decimal(width as nat) + ";\n                const height = "@ + decimal(height as nat) + ";\n                const bitrate = "@, decimal(bitrate as nat) + ";\n                const framerate = "@ + framerate + ";\n                const onOutput = "@ + decimal(on_output as nat) + ";\n                const onOutputCtx = "@ + decimal(on_output_ctx as nat) + ";\n                const onComplete = "@ + decimal(on_complete as nat), ";\n                const onCompleteCtx = "@);
        lemma_concat_associative("\n            (function() {\n                const width = "@ + decimal(width as nat) + ";\n                const height = "@ + decimal(height as nat) + ";\n                const bitrate = "@, decimal(bitrate as nat) + ";\n                const framerate = "@ + framerate + ";\n                const onOutput = "@ + decimal(on_output as nat) + ";\n                const onOutputCtx = "@ + decimal(on_output_ctx as nat) + ";\n                const onComplete = "@ + decimal(on_complete as nat) + ";\n                const onCompleteCtx = "@, decimal(on_complete_ctx as nat));
        lemma_concat_associative("\n            (function() {\n                const width = "@ + decimal(width as nat) + ";\n                const height = "@ + decimal(height as nat) + ";\n                const bitrate = "@, decimal(bitrate as nat) + ";\n                const framerate = "@ + framerate + ";\n                const onOutput = "@ + decimal(on_output as nat) + ";\n                const onOutputCtx = "@ + decimal(on_output_ctx as nat) + ";\n                const onComplete = "@ + decimal(on_complete as nat) + ";\n                const onCompleteCtx = "@ + decimal(on_complete_ctx as nat), ";\n                window.unienc_webcodecs.video.new({ width, height, bitrate, framerate }, onOutput, onOutputCtx, onComplete, onCompleteCtx);\n            })();\n            "@);
    }
    assert(has_field(new_video_encoder_text(width, height, bitrate, framerate, on_output, on_output_ctx, on_complete, on_complete_ctx), "bitrate"@, decimal(bitrate as nat))) by {
        assert(";\n                const bitrate = "@ =~= ";\n                "@ + "const "@ + "bitrate"@ + " = "@ + Seq::<char>::empty()) by {
            reveal_strlit(";\n                const bitrate = ");
            reveal_strlit("const ");
            reveal_strlit("bitrate");
            reveal_strlit(" = ");
            reveal_strlit(";\n                ");
        }
        assert(";\n                const framerate = "@ =~= Seq::<char>::empty() + ";"@ + "\n                const framerate = "@) by {
            reveal_strlit(";\n                const framerate = ");
            reveal_strlit(";");
            reveal_strlit("\n                const framerate = ");
        }
        lemma_field_at("\n            (function() {\n                const width = "@ + decimal(width as nat) + ";\n                const height = "@ + decimal(height as nat), ";\n                "@, "bitrate"@, Seq::<char>::empty(), decimal(bitrate as nat), Seq::<char>::empty(), "\n                const framerate = "@, framerate + ";\n                const onOutput = "@ + decimal(on_output as nat) + ";\n                const onOutputCtx = "@ + decimal(on_output_ctx as nat) + ";\n                const onComplete = "@ + decimal(on_complete as nat) + ";\n                const onCompleteCtx = "@ + decimal(on_complete_ctx as nat) + ";\n                window.unienc_webcodecs.video.new({ width, height, bitrate, framerate }, onOutput, onOutputCtx, onComplete, onCompleteCtx);\n            })();\n            "@);
        lemma_concat_associative("\n            (function() {\n                const width = "@ + decimal(width as nat) + ";\n                const height = "@ + decimal(height as nat) + ";\n                const bitrate = "@ + decimal(bitrate as nat) + ";\n                const framerate = "@, framerate, ";\n                const onOutput = "@);
        lemma_concat_associative("\n            (function() {\n                const width = "@ + decimal(width as nat) + ";\n                const height = "@ + decimal(height as nat) + ";\n                const bitrate = "@ + decimal(bitrate as nat) + ";\n                const framerate = "@, framerate + ";\n                const onOutput = "@, decimal(on_output as nat));
        lemma_concat_associative("\n            (function() {\n                const width = "@ + decimal(width as nat) + ";\n                const height = "@ + decimal(height as nat) + ";\n                const bitrate = "@ + decimal(bitrate as nat) + ";\n                const framerate = "@, framerate + ";\n                const onOutput = "@ + decimal(on_output as nat), ";\n                const onOutputCtx = "@);
        lemma_concat_associative("\n            (function() {\n                const width = "@ + decimal(width as nat) + ";\n                const height = "@ + decimal(height as nat) + ";\n                const bitrate = "@ + decimal(bitrate as nat) + ";\n                const framerate = "@, framerate + ";\n                const onOutput = "@ + decimal(on_output as nat) + ";\n                const onOutputCtx = "@, decimal(on_output_ctx as nat));
        lemma_concat_associative("\n            (function() {\n                const width = "@ + decimal(width as nat) + ";\n                const height = "@ + decimal(height as nat) + ";\n                const bitrate = "@ + decimal(bitrate as nat) + ";\n                const framerate = "@, framerate + ";\n                const onOutput = "@ + decimal(on_output as nat) + ";\n                const onOutputCtx = "@ + decimal(on_output_ctx as nat), ";\n                const onComplete = "@);
        lemma_concat_associative("\n            (function() {\n                const width = "@ + decimal(width as nat) + ";\n                const height = "@ + decimal(height as nat) + ";\n                const bitrate = "@ + decimal(bitrate as nat) + ";\n                const framerate = "@, framerate + ";\n                const onOutput = "@ + decimal(on_output as nat) + ";\n                const onOutputCtx = "@ + decimal(on_output_ctx as nat) + ";\n                const onComplete = "@, decimal(on_complete as nat));
        lemma_concat_associative("\n            (function() {\n                const width = "@ + decimal(width as nat) + ";\n                const height = "@ + decimal(height as nat) + ";\n                const bitrate = "@ + decimal(bitrate as nat) + ";\n                const framerate = "@, framerate + ";\n                const onOutput = "@ + decimal(on_output as nat) + ";\n                const onOutputCtx = "@ + decimal(on_output_ctx as nat) + ";\n                const onComplete = "@ + decimal(on_complete as nat), ";\n                const onCompleteCtx = "@);
        lemma_concat_associative("\n            (function() {\n                const width = "@ + decimal(width as nat) + ";\n                const height = "@ + decimal(height as nat) + ";\n                const bitrate = "@ + decimal(bitrate as nat) + ";\n                const framerate = "@, framerate + ";\n                const onOutput = "@ + decimal(on_output as nat) + ";\n                const onOutputCtx = "@ + decimal(on_output_ctx as nat) + ";\n                const onComplete = "@ + decimal(on_complete as nat) + ";\n                const onCompleteCtx = "@, decimal(on_complete_ctx as nat));
        lemma_concat_associative("\n            (function() {\n                const width = "@ + decimal(width as nat) + ";\n                const height = "@ + decimal(height as nat) + ";\n                const bitrate = "@ + decimal(bitrate as nat) + ";\n                const framerate = "@, framerate + ";\n                const onOutput = "@ + decimal(on_output as nat) + ";\n                const onOutputCtx = "@ + decimal(on_output_ctx as nat) + ";\n                const onComplete = "@ + decimal(on_complete as nat) + ";\n                const onCompleteCtx = "@ + decimal(on_complete_ctx as nat), ";\n                window.unienc_webcodecs.video.new({ width, height, bitrate, framerate }, onOutput, onOutputCtx, onComplete, onCompleteCtx);\n            })();\n            "@);
    }
    assert(has_field(new_video_encoder_text(width, height, bitrate, framerate, on_output, on_output_ctx, on_complete, on_complete_ctx), "framerate"@, framerate)) by {
        assert(";\n                const framerate = "@ =~= ";\n                "@ + "const "@ + "framerate"@ + " = "@ + Seq::<char>::empty()) by {
            reveal_strlit(";\n                const framerate = ");
            reveal_strlit("const ");
            reveal_strlit("framerate");
            reveal_strlit(" = ");
            reveal_strlit(";\n                ");
        }
        assert(";\n                const onOutput = "@ =~= Seq::<char>::empty() + ";"@ + "\n                const onOutput = "@) by {
            reveal_strlit(";\n                const onOutput = ");
            reveal_strlit(";");
            reveal_strlit("\n                const onOutput = ");
        }
        lemma_field_at("\n            (function() {\n                const width = "@ + decimal(width as nat) + ";\n                const height = "@ + decimal(height as nat) + ";\n                const bitrate = "@ + decimal(bitrate as nat), ";\n                "@, "framerate"@, Seq::<char>::empty(), framerate, Seq::<char>::empty(), "\n                const onOutput = "@, decimal(on_output as nat) + ";\n                const onOutputCtx = "@ + decimal(on_output_ctx as nat) + ";\n                const onComplete = "@ + decimal(on_complete as nat) + ";\n                const onCompleteCtx = "@ + decimal(on_complete_ctx as nat) + ";\n                window.unienc_webcodecs.video.new({ width, height, bitrate, framerate }, onOutput, onOutputCtx, onComplete, onCompleteCtx);\n            })();\n            "@);
        lemma_concat_associative("\n            (function() {\n                const width = "@ + decimal(width as nat) + ";\n                const height = "@ + decimal(height as nat) + ";\n                const bitrate = "@ + decimal(bitrate as nat) + ";\n                const framerate = "@ + framerate + ";\n                const onOutput = "@, decimal(on_output as nat), ";\n                const onOutputCtx = "@);
        lemma_concat_associative("\n            (function() {\n                const width = "@ + decimal(width as nat) + ";\n                const height = "@ + decimal(height as nat) + ";\n                const bitrate = "@ + decimal(bitrate as nat) + ";\n                const framerate = "@ + framerate + ";\n                const onOutput = "@, decimal(on_output as nat) + ";\n                const onOutputCtx = "@, decimal(on_output_ctx as nat));
        lemma_concat_associative("\n            (function() {\n                const width = "@ + decimal(width as nat) + ";\n                const height = "@ + decimal(height as nat) + ";\n                const bitrate = "@ + decimal(bitrate as nat) + ";\n                const framerate = "@ + framerate + ";\n                const onOutput = "@, decimal(on_output as nat) + ";\n                const onOutputCtx = "@ + decimal(on_output_ctx as nat), ";\n                const onComplete = "@);
        lemma_concat_associative("\n            (function() {\n                const width = "@ + decimal(width as nat) + ";\n                const height = "@ + decimal(height as nat) + ";\n                const bitrate = "@ + decimal(bitrate as nat) + ";\n                const framerate = "@ + framerate + ";\n                const onOutput = "@, decimal(on_output as nat) + ";\n                const onOutputCtx = "@ + decimal(on_output_ctx as nat) + ";\n                const onComplete = "@, decimal(on_complete as nat));
        lemma_concat_associative("\n            (function() {\n                const width = "@ + decimal(width as nat) + ";\n                const height = "@ + decimal(height as nat) + ";\n                const bitrate = "@ + decimal(bitrate as nat) + ";\n                const framerate = "@ + framerate + ";\n                const onOutput = "@, decimal(on_output as nat) + ";\n                const onOutputCtx = "@ + decimal(on_output_ctx as nat) + ";\n                const onComplete = "@ + decimal(on_complete as nat), ";\n                const onCompleteCtx = "@);
        lemma_concat_associative("\n            (function() {\n                const width = "@ + decimal(width as nat) + ";\n                const height = "@ + decimal(height as nat) + ";\n                const bitrate = "@ + decimal(bitrate as nat) + ";\n                const framerate = "@ + framerate + ";\n                const onOutput = "@, decimal(on_output as nat) + ";\n                const onOutputCtx = "@ + decimal(on_output_ctx as nat) + ";\n                const onComplete = "@ + decimal(on_complete as nat) + ";\n                const onCompleteCtx = "@, decimal(on_complete_ctx as nat));
        lemma_concat_associative("\n            (function() {\n                const width = "@ + decimal(width as nat) + ";\n                const height = "@ + decimal(height as nat) + ";\n                const bitrate = "@ + decimal(bitrate as nat) + ";\n                const framerate = "@ + framerate + ";\n                const onOutput = "@, decimal(on_output as nat) + ";\n                const onOutputCtx = "@ + decimal(on_output_ctx as nat) + ";\n                const onComplete = "@ + decimal(on_complete as nat) + ";\n                const onCompleteCtx = "@ + decimal(on_complete_ctx as nat), ";\n                window.unienc_webcodecs.video.new({ width, height, bitrate, framerate }, onOutput, onOutputCtx, onComplete, onCompleteCtx);\n            })();\n            "@);
    }
    assert(has_field(new_video_encoder_text(width, height, bitrate, framerate, on_output, on_output_ctx, on_complete, on_complete_ctx), "onOutput"@, decimal(on_output as nat))) by {
        assert(";\n                const onOutput = "@ =~= ";\n                "@ + "const "@ + "onOutput"@ + " = "@ + Seq::<char>::empty()) by {
            reveal_strlit(";\n                const onOutput = ");
            reveal_strlit("const ");
            reveal_strlit("onOutput");
            reveal_strlit(" = ");
            reveal_strlit(";\n                ");
        }
        assert(";\n                const onOutputCtx = "@ =~= Seq::<char>::empty() + ";"@ + "\n                const onOutputCtx = "@) by {
            reveal_strlit(";\n                const onOutputCtx = ");
            reveal_strlit(";");
            reveal_strlit("\n                const onOutputCtx = ");
        }
        lemma_field_at("\n            (function() {\n                const width = "@ + decimal(width as nat) + ";\n                const height = "@ + decimal(height as nat) + ";\n                const bitrate = "@ + decimal(bitrate as nat) + ";\n                const framerate = "@ + framerate, ";\n                "@, "onOutput"@, Seq::<char>::empty(), decimal(on_output as nat), Seq::<char>::empty(), "\n                const onOutputCtx = "@, decimal(on_output_ctx as nat) + ";\n                const onComplete = "@ + decimal(on_complete as nat) + ";\n                const onCompleteCtx = "@ + decimal(on_complete_ctx as nat) + ";\n                window.unienc_webcodecs.video.new({ width, height, bitrate, framerate }, onOutput, onOutputCtx, onComplete, onCompleteCtx);\n            })();\n            "@);
        lemma_concat_associative("\n            (function() {\n                const width = "@ + decimal(width as nat) + ";\n                const height = "@ + decimal(height as nat) + ";\n                const bitrate = "@ + decimal(bitrate as nat) + ";\n                const framerate = "@ + framerate + ";\n                const onOutput = "@ + decimal(on_output as nat) + ";\n                const onOutputCtx = "@, decimal(on_output_ctx as nat), ";\n                const onComplete = "@);
        lemma_concat_associative("\n            (function() {\n                const width = "@ + decimal(width as nat) + ";\n                const height = "@ + decimal(height as nat) + ";\n                const bitrate = "@ + decimal(bitrate as nat) + ";\n                const framerate = "@ + framerate + ";\n                const onOutput = "@ + decimal(on_output as nat) + ";\n                const onOutputCtx = "@, decimal(on_output_ctx as nat) + ";\n                const onComplete = "@, decimal(on_complete as nat));
        lemma_concat_associative("\n            (function() {\n                const width = "@ + decimal(width as nat) + ";\n                const height = "@ + decimal(height as nat) + ";\n                const bitrate = "@ + decimal(bitrate as nat) + ";\n                const framerate = "@ + framerate + ";\n                const onOutput = "@ + decimal(on_output as nat) + ";\n                const onOutputCtx = "@, decimal(on_output_ctx as nat) + ";\n                const onComplete = "@ + decimal(on_complete as nat), ";\n                const onCompleteCtx = "@);
        lemma_concat_associative("\n            (function() {\n                const width = "@ + decimal(width as nat) + ";\n                const height = "@ + decimal(height as nat) + ";\n                const bitrate = "@ + decimal(bitrate as nat) + ";\n                const framerate = "@ + framerate + ";\n                const onOutput = "@ + decimal(on_output as nat) + ";\n                const onOutputCtx = "@, decimal(on_output_ctx as nat) + ";\n                const onComplete = "@ + decimal(on_complete as nat) + ";\n                const onCompleteCtx = "@, decimal(on_complete_ctx as nat));
        lemma_concat_associative("\n            (function() {\n                const width = "@ + decimal(width as nat) + ";\n                const height = "@ + decimal(height as nat) + ";\n                const bitrate = "@ + decimal(bitrate as nat) + ";\n                const framerate = "@ + framerate + ";\n                const onOutput = "@ + decimal(on_output as nat) + ";\n                const onOutputCtx = "@, decimal(on_output_ctx as nat) + ";\n                const onComplete = "@ + decimal(on_complete as nat) + ";\n                const onCompleteCtx = "@ + decimal(on_complete_ctx as nat), ";\n                window.unienc_webcodecs.video.new({ width, height, bitrate, framerate }, onOutput, onOutputCtx, onComplete, onCompleteCtx);\n            })();\n            "@);
    }
    assert(has_field(new_video_encoder_text(width, height, bitrate, framerate, on_output, on_output_ctx, on_complete, on_complete_ctx), "onOutputCtx"@, decimal(on_output_ctx as nat))) by {
        assert(";\n                const onOutputCtx = "@ =~= ";\n                "@ + "const "@ + "onOutputCtx"@ + " = "@ + Seq::<char>::empty()) by {
            reveal_strlit(";\n                const onOutputCtx = ");
            reveal_strlit("const ");
            reveal_strlit("onOutputCtx");
            reveal_strlit(" = ");
            reveal_strlit(";\n                ");
        }
        assert(";\n                const onComplete = "@ =~= Seq::<char>::empty() + ";"@ + "\n                const onComplete = "@) by {
            reveal_strlit(";\n                const onComplete = ");
            reveal_strlit(";");
            reveal_strlit("\n                const onComplete = ");
        }
        lemma_field_at("\n            (function() {\n                const width = "@ + decimal(width as nat) + ";\n                const height = "@ + decimal(height as nat) + ";\n                const bitrate = "@ + decimal(bitrate as nat) + ";\n                const framerate = "@ + framerate + ";\n                const onOutput = "@ + decimal(on_output as nat), ";\n                "@, "onOutputCtx"@, Seq::<char>::empty(), decimal(on_output_ctx as nat), Seq::<char>::empty(), "\n                const onComplete = "@, decimal(on_complete as nat) + ";\n                const onCompleteCtx = "@ + decimal(on_complete_ctx as nat) + ";\n                window.unienc_webcodecs.video.new({ width, height, bitrate, framerate }, onOutput, onOutputCtx, onComplete, onCompleteCtx);\n            })();\n            "@);
        lemma_concat_associative("\n            (function() {\n                const width = "@ + decimal(width as nat) + ";\n                const height = "@ + decimal(height as nat) + ";\n                const bitrate = "@ + decimal(bitrate as nat) + ";\n                const framerate = "@ + framerate + ";\n                const onOutput = "@ + decimal(on_output as nat) + ";\n                const onOutputCtx = "@ + decimal(on_output_ctx as nat) + ";\n                const onComplete = "@, decimal(on_complete as nat), ";\n                const onCompleteCtx = "@);
        lemma_concat_associative("\n            (function() {\n                const width = "@ + decimal(width as nat) + ";\n                const height = "@ + decimal(height as nat) + ";\n                const bitrate = "@ + decimal(bitrate as nat) + ";\n                const framerate = "@ + framerate + ";\n                const onOutput = "@ + decimal(on_output as nat) + ";\n                const onOutputCtx = "@ + decimal(on_output_ctx as nat) + ";\n                const onComplete = "@, decimal(on_complete as nat) + ";\n                const onCompleteCtx = "@, decimal(on_complete_ctx as nat));
        lemma_concat_associative("\n            (function() {\n                const width = "@ + decimal(width as nat) + ";\n                const height = "@ + decimal(height as nat) + ";\n                const bitrate = "@ + decimal(bitrate as nat) + ";\n                const framerate = "@ + framerate + ";\n                const onOutput = "@ + decimal(on_output as nat) + ";\n                const onOutputCtx = "@ + decimal(on_output_ctx as nat) + ";\n                const onComplete = "@, decimal(on_complete as nat) + ";\n                const onCompleteCtx = "@ + decimal(on_complete_ctx as nat), ";\n                window.unienc_webcodecs.video.new({ width, height, bitrate, framerate }, onOutput, onOutputCtx, onComplete, onCompleteCtx);\n            })();\n            "@);
    }
    assert(has_field(new_video_encoder_text(width, height, bitrate, framerate, on_output, on_output_ctx, on_complete, on_complete_ctx), "onComplete"@, decimal(on_complete as nat))) by {
        assert(";\n                const onComplete = "@ =~= ";\n                "@ + "const "@ + "onComplete"@ + " = "@ + Seq::<char>::empty()) by {
            reveal_strlit(";\n                const onComplete = ");
            reveal_strlit("const ");
            reveal_strlit("onComplete");
            reveal_strlit(" = ");
            reveal_strlit(";\n                ");
        }
        assert(";\n                const onCompleteCtx = "@ =~= Seq::<char>::empty() + ";"@ + "\n                const onCompleteCtx = "@) by {
            reveal_strlit(";\n                const onCompleteCtx = ");
            reveal_strlit(";");
            reveal_strlit("\n                const onCompleteCtx = ");
        }
        lemma_field_at("\n            (function() {\n                const width = "@ + decimal(width as nat) + ";\n                const height = "@ + decimal(height as nat) + ";\n                const bitrate = "@ + decimal(bitrate as nat) + ";\n                const framerate = "@ + framerate + ";\n                const onOutput = "@ + decimal(on_output as nat) + ";\n                const onOutputCtx = "@ + decimal(on_output_ctx as nat), ";\n                "@, "onComplete"@, Seq::<char>::empty(), decimal(on_complete as nat), Seq::<char>::empty(), "\n                const onCompleteCtx = "@, decimal(on_complete_ctx as nat) + ";\n                window.unienc_webcodecs.video.new({ width, height, bitrate, framerate }, onOutput, onOutputCtx, onComplete, onCompleteCtx);\n            })();\n            "@);
        lemma_concat_associative("\n            (function() {\n                const width = "@ + decimal(width as nat) + ";\n                const height = "@ + decimal(height as nat) + ";\n                const bitrate = "@ + decimal(bitrate as nat) + ";\n                const framerate = "@ + framerate + ";\n                const onOutput = "@ + decimal(on_output as nat) + ";\n                const onOutputCtx = "@ + decimal(on_output_ctx as nat) + ";\n                const onComplete = "@ + decimal(on_complete as nat) + ";\n                const onCompleteCtx = "@, decimal(on_complete_ctx as nat), ";\n                window.unienc_webcodecs.video.new({ width, height, bitrate, framerate }, onOutput, onOutputCtx, onComplete, onCompleteCtx);\n            })();\n            "@);
    }
    assert(has_field(new_video_encoder_text(width, height, bitrate, framerate, on_output, on_output_ctx, on_complete, on_complete_ctx), "onCompleteCtx"@, decimal(on_complete_ctx as nat))) by {
        assert(";\n                const onCompleteCtx = "@ =~= ";\n                "@ + "const "@ + "onCompleteCtx"@ + " = "@ + Seq::<char>::empty()) by {
            reveal_strlit(";\n                const onCompleteCtx = ");
            reveal_strlit("const ");
            reveal_strlit("onCompleteCtx");
            reveal_strlit(" = ");
            reveal_strlit(";\n                ");
        }
        assert(";\n                window.unienc_webcodecs.video.new({ width, height, bitrate, framerate }, onOutput, onOutputCtx, onComplete, onCompleteCtx);\n            })();\n            "@ =~= Seq::<char>::empty() + ";"@ + "\n                window.unienc_webcodecs.video.new({ width, height, bitrate, framerate }, onOutput, onOutputCtx, onComplete, onCompleteCtx);\n            })();\n            "@) by {
            reveal_strlit(";\n                window.unienc_webcodecs.video.new({ width, height, bitrate, framerate }, onOutput, onOutputCtx, onComplete, onCompleteCtx);\n            })();\n            ");
            reveal_strlit(";");
            reveal_strlit("\n                window.unienc_webcodecs.video.new({ width, height, bitrate, framerate }, onOutput, onOutputCtx, onComplete, onCompleteCtx);\n            })();\n            ");
        }
        lemma_field_at("\n            (function() {\n                const width = "@ + decimal(width as nat) + ";\n                const height = "@ + decimal(height as nat) + ";\n                const bitrate = "@ + decimal(bitrate as nat) + ";\n                const framerate = "@ + framerate + ";\n                const onOutput = "@ + decimal(on_output as nat) + ";\n                const onOutputCtx = "@ + decimal(on_output_ctx as nat) + ";\n                const onComplete = "@ + decimal(on_complete as nat), ";\n                "@, "onCompleteCtx"@, Seq::<char>::empty(), decimal(on_complete_ctx as nat), Seq::<char>::empty(), "\n                window.unienc_webcodecs.video.new({ width, height, bitrate, framerate }, onOutput, onOutputCtx, onComplete, onCompleteCtx);\n            })();\n            "@, Seq::<char>::empty());
        assert("\n            (function() {\n                const width = "@ + decimal(width as nat) + ";\n                const height = "@ + decimal(height as nat) + ";\n                const bitrate = "@ + decimal(bitrate as nat) + ";\n                const framerate = "@ + framerate + ";\n                const onOutput = "@ + decimal(on_output as nat) + ";\n                const onOutputCtx = "@ + decimal(on_output_ctx as nat) + ";\n                const onComplete = "@ + decimal(on_complete as nat) + ";\n                const onCompleteCtx = "@ + decimal(on_complete_ctx as nat) + ";\n                window.unienc_webcodecs.video.new({ width, height, bitrate, framerate }, onOutput, onOutputCtx, onComplete, onCompleteCtx);\n            })();\n            "@ =~= "\n            (function() {\n                const width = "@ + decimal(width as nat) + ";\n                const height = "@ + decimal(height as nat) + ";\n                const bitrate = "@ + decimal(bitrate as nat) + ";\n                const framerate = "@ + framerate + ";\n                const onOutput = "@ + decimal(on_output as nat) + ";\n                const onOutputCtx = "@ + decimal(on_output_ctx as nat) + ";\n                const onComplete = "@ + decimal(on_complete as nat) + ";\n                const onCompleteCtx = "@ + decimal(on_complete_ctx as nat) + ";\n                window.unienc_webcodecs.video.new({ width, height, bitrate, framerate }, onOutput, onOutputCtx, onComplete, onCompleteCtx);\n            })();\n            "@ + Seq::<char>::empty());
    }
}

/// Every constant of the script `push_video_frame` holds the text of the argument it is
/// named after.
pub proof fn lemma_push_video_frame_fields(encoder_index: i32, data_ptr: usize, data_length: usize, width: u32, height: u32, timestamp: Seq<char>, is_key: bool)
    ensures
        has_field(push_video_frame_text(encoder_index, data_ptr, data_length, width, height, timestamp, is_key), "encoderIndex"@, signed_decimal(encoder_index as int)),
        has_field(push_video_frame_text(encoder_index, data_ptr, data_length, width, height, timestamp, is_key), "dataPtr"@, decimal(data_ptr as nat)),
        has_field(push_video_frame_text(encoder_index, data_ptr, data_length, width, height, timestamp, is_key), "dataLength"@, decimal(data_length as nat)),
        has_field(push_video_frame_text(encoder_index, data_ptr, data_length, width, height, timestamp, is_key), "width"@, decimal(width as nat)),
        has_field(push_video_frame_text(encoder_index, data_ptr, data_length, width, height, timestamp, is_key), "height"@, decimal(height as nat)),
        has_field(push_video_frame_text(encoder_index, data_ptr, data_length, width, height, timestamp, is_key), "timestamp"@, timestamp),
        has_field(push_video_frame_text(encoder_index, data_ptr, data_length, width, height, timestamp, is_key), "isKey"@, bool_text(is_key)),
{
    assert(has_field(push_video_frame_text(encoder_index, data_ptr, data_length, width, height, timestamp, is_key), "encoderIndex"@, signed_decimal(encoder_index as int))) by {
        assert("\n            (function() {\n                const encoderIndex = "@ =~= "\n            (function() {\n                "@ + "const "@ + "encoderIndex"@ + " = "@ + Seq::<char>::empty()) by {
            reveal_strlit("\n            (function() {\n                const encoderIndex = ");
            reveal_strlit("const ");
            reveal_strlit("encoderIndex");
            reveal_strlit(" = ");
            reveal_strlit("\n            (function() {\n                ");
        }
        assert(";\n                const dataPtr = "@ =~= Seq::<char>::empty() + ";"@ + "\n                const dataPtr = "@) by {
            reveal_strlit(";\n                const dataPtr = ");
            reveal_strlit(";");
            reveal_strlit("\n                const dataPtr = ");
        }
        lemma_field_at(Seq::<char>::empty(), "\n            (function() {\n                "@, "encoderIndex"@, Seq::<char>::empty(), signed_decimal(encoder_index as int), Seq::<char>::empty(), "\n                const dataPtr = "@, decimal(data_ptr as nat) + ";\n                const dataLength = "@ + decimal(data_length as nat) + ";\n                const width = "@ + decimal(width as nat) + ";\n                const height = "@ + decimal(height as nat) + ";\n                const timestamp = "@ + timestamp + ";\n                const isKey = "@ + bool_text(is_key) + ";\n                const dataArray = Module.HEAPU8.subarray(dataPtr, dataPtr + dataLength);\n                window.unienc_webcodecs.video.push(encoderIndex, dataArray, {width, height, timestamp, isKey});\n            })();\n            "@);
        lemma_concat_associative(Seq::<char>::empty() + "\n            (function() {\n                const encoderIndex = "@ + signed_decimal(encoder_index as int) + ";\n                const dataPtr = "@, decimal(data_ptr as nat), ";\n                const dataLength = "@);
        lemma_concat_associative(Seq::<char>::empty() + "\n            (function() {\n                const encoderIndex = "@ + signed_decimal(encoder_index as int) + ";\n                const dataPtr = "@, decimal(data_ptr as nat) + ";\n                const dataLength = "@, decimal(data_length as nat));
        lemma_concat_associative(Seq::<char>::empty() + "\n            (function() {\n                const encoderIndex = "@ + signed_decimal(encoder_index as int) + ";\n                const dataPtr = "@, decimal(data_ptr as nat) + ";\n                const dataLength = "@ + decimal(data_length as nat), ";\n                const width = "@);
        lemma_concat_associative(Seq::<char>::empty() + "\n            (function() {\n                const encoderIndex = "@ + signed_decimal(encoder_index as int) + ";\n                const dataPtr = "@, decimal(data_ptr as nat) + ";\n                const dataLength = "@ + decimal(data_length as nat) + ";\n                const width = "@, decimal(width as nat));
        lemma_concat_associative(Seq::<char>::empty() + "\n            (function() {\n                const encoderIndex = "@ + signed_decimal(encoder_index as int) + ";\n                const dataPtr = "@, decimal(data_ptr as nat) + ";\n                const dataLength = "@ + decimal(data_length as nat) + ";\n                const width = "@ + decimal(width as nat), ";\n                const height = "@);
        lemma_concat_associative(Seq::<char>::empty() + "\n            (function() {\n                const encoderIndex = "@ + signed_decimal(encoder_index as int) + ";\n                const dataPtr = "@, decimal(data_ptr as nat) + ";\n                const dataLength = "@ + decimal(data_length as nat) + ";\n                const width = "@ + decimal(width as nat) + ";\n                const height = "@, decimal(height as nat));
        lemma_concat_associative(Seq::<char>::empty() + "\n            (function() {\n                const encoderIndex = "@ + signed_decimal(encoder_index as int) + ";\n                const dataPtr = "@, decimal(data_ptr as nat) + ";\n                const dataLength = "@ + decimal(data_length as nat) + ";\n                const width = "@ + decimal(width as nat) + ";\n                const height = "@ + decimal(height as nat), ";\n                const timestamp = "@);
        lemma_concat_associative(Seq::<char>::empty() + "\n            (function() {\n                const encoderIndex = "@ + signed_decimal(encoder_index as int) + ";\n                const dataPtr = "@, decimal(data_ptr as nat) + ";\n                const dataLength = "@ + decimal(data_length as nat) + ";\n                const width = "@ + decimal(width as nat) + ";\n                const height = "@ + decimal(height as nat) + ";\n                const timestamp = "@, timestamp);
        lemma_concat_associative(Seq::<char>::empty() + "\n            (function() {\n                const encoderIndex = "@ + signed_decimal(encoder_index as int) + ";\n                const dataPtr = "@, decimal(data_ptr as nat) + ";\n                const dataLength = "@ + decimal(data_length as nat) + ";\n                const width = "@ + decimal(width as nat) + ";\n                const height = "@ + decimal(height as nat) + ";\n                const timestamp = "@ + timestamp, ";\n                const isKey = "@);
        lemma_concat_associative(Seq::<char>::empty() + "\n            (function() {\n                const encoderIndex = "@ + signed_decimal(encoder_index as int) + ";\n                const dataPtr = "@, decimal(data_ptr as nat) + ";\n                const dataLength = "@ + decimal(data_length as nat) + ";\n                const width = "@ + decimal(width as nat) + ";\n                const height = "@ + decimal(height as nat) + ";\n                const timestamp = "@ + timestamp + ";\n                const isKey = "@, bool_text(is_key));
        lemma_concat_associative(Seq::<char>::empty() + "\n            (function() {\n                const encoderIndex = "@ + signed_decimal(encoder_index as int) + ";\n                const dataPtr = "@, decimal(data_ptr as nat) + ";\n                const dataLength = "@ + decimal(data_length as nat) + ";\n                const width = "@ + decimal(width as nat) + ";\n                const height = "@ + decimal(height as nat) + ";\n                const timestamp = "@ + timestamp + ";\n                const isKey = "@ + bool_text(is_key), ";\n                const dataArray = Module.HEAPU8.subarray(dataPtr, dataPtr + dataLength);\n                window.unienc_webcodecs.video.push(encoderIndex, dataArray, {width, height, timestamp, isKey});\n            })();\n            "@);
    }
    assert(has_field(push_video_frame_text(encoder_index, data_ptr, data_length, width, height, timestamp, is_key), "dataPtr"@, decimal(data_ptr as nat))) by {
        assert(";\n                const dataPtr = "@ =~= ";\n                "@ + "const "@ + "dataPtr"@ + " = "@ + Seq::<char>::empty()) by {
            reveal_strlit(";\n                const dataPtr = ");
            reveal_strlit("const ");
            reveal_strlit("dataPtr");
            reveal_strlit(" = ");
            reveal_strlit(";\n                ");
        }
        assert(";\n                const dataLength = "@ =~= Seq::<char>::empty() + ";"@ + "\n                const dataLength = "@) by {
            reveal_strlit(";\n                const dataLength = ");
            reveal_strlit(";");
            reveal_strlit("\n                const dataLength = ");
        }
        lemma_field_at("\n            (function() {\n                const encoderIndex = "@ + signed_decimal(encoder_index as int), ";\n                "@, "dataPtr"@, Seq::<char>::empty(), decimal(data_ptr as nat), Seq::<char>::empty(), "\n                const dataLength = "@, decimal(data_length as nat) + ";\n                const width = "@ + decimal(width as nat) + ";\n                const height = "@ + decimal(height as nat) + ";\n                const timestamp = "@ + timestamp + ";\n                const isKey = "@ + bool_text(is_key) + ";\n                const dataArray = Module.HEAPU8.subarray(dataPtr, dataPtr + dataLength);\n                window.unienc_webcodecs.video.push(encoderIndex, dataArray, {width, height, timestamp, isKey});\n            })();\n            "@);
        lemma_concat_associative("\n            (function() {\n                const encoderIndex = "@ + signed_decimal(encoder_index as int) + ";\n                const dataPtr = "@ + decimal(data_ptr as nat) + ";\n                const dataLength = "@, decimal(data_length as nat), ";\n                const width = "@);
        lemma_concat_associative("\n            (function() {\n                const encoderIndex = "@ + signed_decimal(encoder_index as int) + ";\n                const dataPtr = "@ + decimal(data_ptr as nat) + ";\n                const dataLength = "@, decimal(data_length as nat) + ";\n                const width = "@, decimal(width as nat));
        lemma_concat_associative("\n            (function() {\n                const encoderIndex = "@ + signed_decimal(encoder_index as int) + ";\n                const dataPtr = "@ + decimal(data_ptr as nat) + ";\n                const dataLength = "@, decimal(data_length as nat) + ";\n                const width = "@ + decimal(width as nat), ";\n                const height = "@);
        lemma_concat_associative("\n            (function() {\n                const encoderIndex = "@ + signed_decimal(encoder_index as int) + ";\n                const dataPtr = "@ + decimal(data_ptr as nat) + ";\n                const dataLength = "@, decimal(data_length as nat) + ";\n                const width = "@ + decimal(width as nat) + ";\n                const height = "@, decimal(height as nat));
        lemma_concat_associative("\n            (function() {\n                const encoderIndex = "@ + signed_decimal(encoder_index as int) + ";\n                const dataPtr = "@ + decimal(data_ptr as nat) + ";\n                const dataLength = "@, decimal(data_length as nat) + ";\n                const width = "@ + decimal(width as nat) + ";\n                const height = "@ + decimal(height as nat), ";\n                const timestamp = "@);
        lemma_concat_associative("\n            (function() {\n                const encoderIndex = "@ + signed_decimal(encoder_index as int) + ";\n                const dataPtr = "@ + decimal(data_ptr as nat) + ";\n                const dataLength = "@, decimal(data_length as nat) + ";\n                const width = "@ + decimal(width as nat) + ";\n                const height = "@ + decimal(height as nat) + ";\n                const timestamp = "@, timestamp);
        lemma_concat_associative("\n            (function() {\n                const encoderIndex = "@ + signed_decimal(encoder_index as int) + ";\n                const dataPtr = "@ + decimal(data_ptr as nat) + ";\n                const dataLength = "@, decimal(data_length as nat) + ";\n                const width = "@ + decimal(width as nat) + ";\n                const height = "@ + decimal(height as nat) + ";\n                const timestamp = "@ + timestamp, ";\n                const isKey = "@);
        lemma_concat_associative("\n            (function() {\n                const encoderIndex = "@ + signed_decimal(encoder_index as int) + ";\n                const dataPtr = "@ + decimal(data_ptr as nat) + ";\n                const dataLength = "@, decimal(data_length as nat) + ";\n                const width = "@ + decimal(width as nat) + ";\n                const height = "@ + decimal(height as nat) + ";\n                const timestamp = "@ + timestamp + ";\n                const isKey = "@, bool_text(is_key));
        lemma_concat_associative("\n            (function() {\n                const encoderIndex = "@ + signed_decimal(encoder_index as int) + ";\n                const dataPtr = "@ + decimal(data_ptr as nat) + ";\n                const dataLength = "@, decimal(data_length as nat) + ";\n                const width = "@ + decimal(width as nat) + ";\n                const height = "@ + decimal(height as nat) + ";\n                const timestamp = "@ + timestamp + ";\n                const isKey = "@ + bool_text(is_key), ";\n                const dataArray = Module.HEAPU8.subarray(dataPtr, dataPtr + dataLength);\n                window.unienc_webcodecs.video.push(encoderIndex, dataArray, {width, height, timestamp, isKey});\n            })();\n            "@);
    }
    assert(has_field(push_video_frame_text(encoder_index, data_ptr, data_length, width, height, timestamp, is_key), "dataLength"@, decimal(data_length as nat))) by {
        assert(";\n                const dataLength = "@ =~= ";\n                "@ + "const "@ + "dataLength"@ + " = "@ + Seq::<char>::empty()) by {
            reveal_strlit(";\n                const dataLength = ");
            reveal_strlit("const ");
            reveal_strlit("dataLength");
            reveal_strlit(" = ");
            reveal_strlit(";\n                ");
        }
        assert(";\n                const width = "@ =~= Seq::<char>::empty() + ";"@ + "\n                const width = "@) by {
            reveal_strlit(";\n                const width = ");
            reveal_strlit(";");
            reveal_strlit("\n                const width = ");
        }
        lemma_field_at("\n            (function() {\n                const encoderIndex = "@ + signed_decimal(encoder_index as int) + ";\n                const dataPtr = "@ + decimal(data_ptr as nat), ";\n                "@, "dataLength"@, Seq::<char>::empty(), decimal(data_length as nat), Seq::<char>::empty(), "\n                const width = "@, decimal(width as nat) + ";\n                const height = "@ + decimal(height as nat) + ";\n                const timestamp = "@ + timestamp + ";\n                const isKey = "@ + bool_text(is_key) + ";\n                const dataArray = Module.HEAPU8.subarray(dataPtr, dataPtr + dataLength);\n                window.unienc_webcodecs.video.push(encoderIndex, dataArray, {width, height, timestamp, isKey});\n            })();\n            "@);
        lemma_concat_associative("\n            (function() {\n                const encoderIndex = "@ + signed_decimal(encoder_index as int) + ";\n                const dataPtr = "@ + decimal(data_ptr as nat) + ";\n                const dataLength = "@ + decimal(data_length as nat) + ";\n                const width = "@, decimal(width as nat), ";\n                const height = "@);
        lemma_concat_associative("\n            (function() {\n                const encoderIndex = "@ + signed_decimal(encoder_index as int) + ";\n                const dataPtr = "@ + decimal(data_ptr as nat) + ";\n                const dataLength = "@ + decimal(data_length as nat) + ";\n                const width = "@, decimal(width as nat) + ";\n                const height = "@, decimal(height as nat));
        lemma_concat_associative("\n            (function() {\n                const encoderIndex = "@ + signed_decimal(encoder_index as int) + ";\n                const dataPtr = "@ + decimal(data_ptr as nat) + ";\n                const dataLength = "@ + decimal(data_length as nat) + ";\n                const width = "@, decimal(width as nat) + ";\n                const height = "@ + decimal(height as nat), ";\n                const timestamp = "@);
        lemma_concat_associative("\n            (function() {\n                const encoderIndex = "@ + signed_decimal(encoder_index as int) + ";\n                const dataPtr = "@ + decimal(data_ptr as nat) + ";\n                const dataLength = "@ + decimal(data_length as nat) + ";\n                const width = "@, decimal(width as nat) + ";\n                const height = "@ + decimal(height as nat) + ";\n                const timestamp = "@, timestamp);
        lemma_concat_associative("\n            (function() {\n                const encoderIndex = "@ + signed_decimal(encoder_index as int) + ";\n                const dataPtr = "@ + decimal(data_ptr as nat) + ";\n                const dataLength = "@ + decimal(data_length as nat) + ";\n                const width = "@, decimal(width as nat) + ";\n                const height = "@ + decimal(height as nat) + ";\n                const timestamp = "@ + timestamp, ";\n                const isKey = "@);
        lemma_concat_associative("\n            (function() {\n                const encoderIndex = "@ + signed_decimal(encoder_index as int) + ";\n                const dataPtr = "@ + decimal(data_ptr as nat) + ";\n                const dataLength = "@ + decimal(data_length as nat) + ";\n                const width = "@, decimal(width as nat) + ";\n                const height = "@ + decimal(height as nat) + ";\n                const timestamp = "@ + timestamp + ";\n                const isKey = "@, bool_text(is_key));
        lemma_concat_associative("\n            (function() {\n                const encoderIndex = "@ + signed_decimal(encoder_index as int) + ";\n                const dataPtr = "@ + decimal(data_ptr as nat) + ";\n                const dataLength = "@ + decimal(data_length as nat) + ";\n                const width = "@, decimal(width as nat) + ";\n                const height = "@ + decimal(height as nat) + ";\n                const timestamp = "@ + timestamp + ";\n                const isKey = "@ + bool_text(is_key), ";\n                const dataArray = Module.HEAPU8.subarray(dataPtr, dataPtr + dataLength);\n                window.unienc_webcodecs.video.push(encoderIndex, dataArray, {width, height, timestamp, isKey});\n            })();\n            "@);
    }
    assert(has_field(push_video_frame_text(encoder_index, data_ptr, data_length, width, height, timestamp, is_key), "width"@, decimal(width as nat))) by {
        assert(";\n                const width = "@ =~= ";\n                "@ + "const "@ + "width"@ + " = "@ + Seq::<char>::empty()) by {
            reveal_strlit(";\n                const width = ");
            reveal_strlit("const ");
            reveal_strlit("width");
            reveal_strlit(" = ");
            reveal_strlit(";\n                ");
        }
        assert(";\n                const height = "@ =~= Seq::<char>::empty() + ";"@ + "\n                const height = "@) by {
            reveal_strlit(";\n                const height = ");
            reveal_strlit(";");
            reveal_strlit("\n                const height = ");
        }
        lemma_field_at("\n            (function() {\n                const encoderIndex = "@ + signed_decimal(encoder_index as int) + ";\n                const dataPtr = "@ + decimal(data_ptr as nat) + ";\n                const dataLength = "@ + decimal(data_length as nat), ";\n                "@, "width"@, Seq::<char>::empty(), decimal(width as nat), Seq::<char>::empty(), "\n                const height = "@, decimal(height as nat) + ";\n                const timestamp = "@ + timestamp + ";\n                const isKey = "@ + bool_text(is_key) + ";\n                const dataArray = Module.HEAPU8.subarray(dataPtr, dataPtr + dataLength);\n                window.unienc_webcodecs.video.push(encoderIndex, dataArray, {width, height, timestamp, isKey});\n            })();\n            "@);
        lemma_concat_associative("\n            (function() {\n                const encoderIndex = "@ + signed_decimal(encoder_index as int) + ";\n                const dataPtr = "@ + decimal(data_ptr as nat) + ";\n                const dataLength = "@ + decimal(data_length as nat) + ";\n                const width = "@ + decimal(width as nat) + ";\n                const height = "@, decimal(height as nat), ";\n                const timestamp = "@);
        lemma_concat_associative("\n            (function() {\n                const encoderIndex = "@ + signed_decimal(encoder_index as int) + ";\n                const dataPtr = "@ + decimal(data_ptr as nat) + ";\n                const dataLength = "@ + decimal(data_length as nat) + ";\n                const width = "@ + decimal(width as nat) + ";\n                const height = "@, decimal(height as nat) + ";\n                const timestamp = "@, timestamp);
        lemma_concat_associative("\n            (function() {\n                const encoderIndex = "@ + signed_decimal(encoder_index as int) + ";\n                const dataPtr = "@ + decimal(data_ptr as nat) + ";\n                const dataLength = "@ + decimal(data_length as nat) + ";\n                const width = "@ + decimal(width as nat) + ";\n                const height = "@, decimal(height as nat) + ";\n                const timestamp = "@ + timestamp, ";\n                const isKey = "@);
        lemma_concat_associative("\n            (function() {\n                const encoderIndex = "@ + signed_decimal(encoder_index as int) + ";\n                const dataPtr = "@ + decimal(data_ptr as nat) + ";\n                const dataLength = "@ + decimal(data_length as nat) + ";\n                const width = "@ + decimal(width as nat) + ";\n                const height = "@, decimal(height as nat) + ";\n                const timestamp = "@ + timestamp + ";\n                const isKey = "@, bool_text(is_key));
        lemma_concat_associative("\n            (function() {\n                const encoderIndex = "@ + signed_decimal(encoder_index as int) + ";\n                const dataPtr = "@ + decimal(data_ptr as nat) + ";\n                const dataLength = "@ + decimal(data_length as nat) + ";\n                const width = "@ + decimal(width as nat) + ";\n                const height = "@, decimal(height as nat) + ";\n                const timestamp = "@ + timestamp + ";\n                const isKey = "@ + bool_text(is_key), ";\n                const dataArray = Module.HEAPU8.subarray(dataPtr, dataPtr + dataLength);\n                window.unienc_webcodecs.video.push(encoderIndex, dataArray, {width, height, timestamp, isKey});\n            })();\n            "@);
    }
    assert(has_field(push_video_frame_text(encoder_index, data_ptr, data_length, width, height, timestamp, is_key), "height"@, decimal(height as nat))) by {
        assert(";\n                const height = "@ =~= ";\n                "@ + "const "@ + "height"@ + " = "@ + Seq::<char>::empty()) by {
            reveal_strlit(";\n                const height = ");
            reveal_strlit("const ");
            reveal_strlit("height");
            reveal_strlit(" = ");
            reveal_strlit(";\n                ");
        }
        assert(";\n                const timestamp = "@ =~= Seq::<char>::empty() + ";"@ + "\n                const timestamp = "@) by {
            reveal_strlit(";\n                const timestamp = ");
            reveal_strlit(";");
            reveal_strlit("\n                const timestamp = ");
        }
        lemma_field_at("\n            (function() {\n                const encoderIndex = "@ + signed_decimal(encoder_index as int) + ";\n                const dataPtr = "@ + decimal(data_ptr as nat) + ";\n                const dataLength = "@ + decimal(data_length as nat) + ";\n                const width = "@ + decimal(width as nat), ";\n                "@, "height"@, Seq::<char>::empty(), decimal(height as nat), Seq::<char>::empty(), "\n                const timestamp = "@, timestamp + ";\n                const isKey = "@ + bool_text(is_key) + ";\n                const dataArray = Module.HEAPU8.subarray(dataPtr, dataPtr + dataLength);\n                window.unienc_webcodecs.video.push(encoderIndex, dataArray, {width, height, timestamp, isKey});\n            })();\n            "@);
        lemma_concat_associative("\n            (function() {\n                const encoderIndex = "@ + signed_decimal(encoder_index as int) + ";\n                const dataPtr = "@ + decimal(data_ptr as nat) + ";\n                const dataLength = "@ + decimal(data_length as nat) + ";\n                const width = "@ + decimal(width as nat) + ";\n                const height = "@ + decimal(height as nat) + ";\n                const timestamp = "@, timestamp, ";\n                const isKey = "@);
        lemma_concat_associative("\n            (function() {\n                const encoderIndex = "@ + signed_decimal(encoder_index as int) + ";\n                const dataPtr = "@ + decimal(data_ptr as nat) + ";\n                const dataLength = "@ + decimal(data_length as nat) + ";\n                const width = "@ + decimal(width as nat) + ";\n                const height = "@ + decimal(height as nat) + ";\n                const timestamp = "@, timestamp + ";\n                const isKey = "@, bool_text(is_key));
        lemma_concat_associative("\n            (function() {\n                const encoderIndex = "@ + signed_decimal(encoder_index as int) + ";\n                const dataPtr = "@ + decimal(data_ptr as nat) + ";\n                const dataLength = "@ + decimal(data_length as nat) + ";\n                const width = "@ + decimal(width as nat) + ";\n                const height = "@ + decimal(height as nat) + ";\n                const timestamp = "@, timestamp + ";\n                const isKey = "@ + bool_text(is_key), ";\n                const dataArray = Module.HEAPU8.subarray(dataPtr, dataPtr + dataLength);\n                window.unienc_webcodecs.video.push(encoderIndex, dataArray, {width, height, timestamp, isKey});\n            })();\n            "@);
    }
    assert(has_field(push_video_frame_text(encoder_index, data_ptr, data_length, width, height, timestamp, is_key), "timestamp"@, timestamp)) by {
        assert(";\n                const timestamp = "@ =~= ";\n                "@ + "const "@ + "timestamp"@ + " = "@ + Seq::<char>::empty()) by {
            reveal_strlit(";\n                const timestamp = ");
            reveal_strlit("const ");
            reveal_strlit("timestamp");
            reveal_strlit(" = ");
            reveal_strlit(";\n                ");
        }
        assert(";\n                const isKey = "@ =~= Seq::<char>::empty() + ";"@ + "\n                const isKey = "@) by {
            reveal_strlit(";\n                const isKey = ");
            reveal_strlit(";");
            reveal_strlit("\n                const isKey = ");
        }
        lemma_field_at("\n            (function() {\n                const encoderIndex = "@ + signed_decimal(encoder_index as int) + ";\n                const dataPtr = "@ + decimal(data_ptr as nat) + ";\n                const dataLength = "@ + decimal(data_length as nat) + ";\n                const width = "@ + decimal(width as nat) + ";\n                const height = "@ + decimal(height as nat), ";\n                "@, "timestamp"@, Seq::<char>::empty(), timestamp, Seq::<char>::empty(), "\n                const isKey = "@, bool_text(is_key) + ";\n                const dataArray = Module.HEAPU8.subarray(dataPtr, dataPtr + dataLength);\n                window.unienc_webcodecs.video.push(encoderIndex, dataArray, {width, height, timestamp, isKey});\n            })();\n            "@);
        lemma_concat_associative("\n            (function() {\n                const encoderIndex = "@ + signed_decimal(encoder_index as int) + ";\n                const dataPtr = "@ + decimal(data_ptr as nat) + ";\n                const dataLength = "@ + decimal(data_length as nat) + ";\n                const width = "@ + decimal(width as nat) + ";\n                const height = "@ + decimal(height as nat) + ";\n                const timestamp = "@ + timestamp + ";\n                const isKey = "@, bool_text(is_key), ";\n                const dataArray = Module.HEAPU8.subarray(dataPtr, dataPtr + dataLength);\n                window.unienc_webcodecs.video.push(encoderIndex, dataArray, {width, height, timestamp, isKey});\n            })();\n            "@);
    }
    assert(has_field(push_video_frame_text(encoder_index, data_ptr, data_length, width, height, timestamp, is_key), "isKey"@, bool_text(is_key))) by {
        assert(";\n                const isKey = "@ =~= ";\n                "@ + "const "@ + "isKey"@ + " = "@ + Seq::<char>::empty()) by {
            reveal_strlit(";\n                const isKey = ");
            reveal_strlit("const ");
            reveal_strlit("isKey");
            reveal_strlit(" = ");
            reveal_strlit(";\n                ");
        }
        assert(";\n                const dataArray = Module.HEAPU8.subarray(dataPtr, dataPtr + dataLength);\n                window.unienc_webcodecs.video.push(encoderIndex, dataArray, {width, height, timestamp, isKey});\n            })();\n            "@ =~= Seq::<char>::empty() + ";"@ + "\n                const dataArray = Module.HEAPU8.subarray(dataPtr, dataPtr + dataLength);\n                window.unienc_webcodecs.video.push(encoderIndex, dataArray, {width, height, timestamp, isKey});\n            })();\n            "@) by {
            reveal_strlit(";\n                const dataArray = Module.HEAPU8.subarray(dataPtr, dataPtr + dataLength);\n                window.unienc_webcodecs.video.push(encoderIndex, dataArray, {width, height, timestamp, isKey});\n            })();\n            ");
            reveal_strlit(";");
            reveal_strlit("\n                const dataArray = Module.HEAPU8.subarray(dataPtr, dataPtr + dataLength);\n                window.unienc_webcodecs.video.push(encoderIndex, dataArray, {width, height, timestamp, isKey});\n            })();\n            ");
        }
        lemma_field_at("\n            (function() {\n                const encoderIndex = "@ + signed_decimal(encoder_index as int) + ";\n                const dataPtr = "@ + decimal(data_ptr as nat) + ";\n                const dataLength = "@ + decimal(data_length as nat) + ";\n                const width = "@ + decimal(width as nat) + ";\n                const height = "@ + decimal(height as nat) + ";\n                const timestamp = "@ + timestamp, ";\n                "@, "isKey"@, Seq::<char>::empty(), bool_text(is_key), Seq::<char>::empty(), "\n                const dataArray = Module.HEAPU8.subarray(dataPtr, dataPtr + dataLength);\n                window.unienc_webcodecs.video.push(encoderIndex, dataArray, {width, height, timestamp, isKey});\n            })();\n            "@, Seq::<char>::empty());
        assert("\n            (function() {\n                const encoderIndex = "@ + signed_decimal(encoder_index as int) + ";\n                const dataPtr = "@ + decimal(data_ptr as nat) + ";\n                const dataLength = "@ + decimal(data_length as nat) + ";\n                const width = "@ + decimal(width as nat) + ";\n                const height = "@ + decimal(height as nat) + ";\n                const timestamp = "@ + timestamp + ";\n                const isKey = "@ + bool_text(is_key) + ";\n                const dataArray = Module.HEAPU8.subarray(dataPtr, dataPtr + dataLength);\n                window.unienc_webcodecs.video.push(encoderIndex, dataArray, {width, height, timestamp, isKey});\n            })();\n            "@ =~= "\n            (function() {\n                const encoderIndex = "@ + signed_decimal(encoder_index as int) + ";\n                const dataPtr = "@ + decimal(data_ptr as nat) + ";\n                const dataLength = "@ + decimal(data_length as nat) + ";\n                const width = "@ + decimal(width as nat) + ";\n                const height = "@ + decimal(height as nat) + ";\n                const timestamp = "@ + timestamp + ";\n                const isKey = "@ + bool_text(is_key) + ";\n                const dataArray = Module.HEAPU8.subarray(dataPtr, dataPtr + dataLength);\n                window.unienc_webcodecs.video.push(encoderIndex, dataArray, {width, height, timestamp, isKey});\n            })();\n            "@ + Seq::<char>::empty());
    }
}

/// Every constant of the script `flush_video` holds the text of the argument it is
/// named after.
pub proof fn lemma_flush_video_fields(id: i32, on_complete: usize, on_complete_ctx: usize)
    ensures
        has_field(flush_video_text(id, on_complete, on_complete_ctx), "index"@, signed_decimal(id as int)),
        has_field(flush_video_text(id, on_complete, on_complete_ctx), "onComplete"@, decimal(on_complete as nat)),
        has_field(flush_video_text(id, on_complete, on_complete_ctx), "onCompleteCtx"@, decimal(on_complete_ctx as nat)),
{
    assert(has_field(flush_video_text(id, on_complete, on_complete_ctx), "index"@, signed_decimal(id as int))) by {
        assert("\n            (function() {\n                const index = "@ =~= "\n            (function() {\n                "@ + "const "@ + "index"@ + " = "@ + Seq::<char>::empty()) by {
            reveal_strlit("\n            (function() {\n                const index = ");
            reveal_strlit("const ");
            reveal_strlit("index");
            reveal_strlit(" = ");
            reveal_strlit("\n            (function() {\n                ");
        }
        assert(";\n                const onComplete = "@ =~= Seq::<char>::empty() + ";"@ + "\n                const onComplete = "@) by {
            reveal_strlit(";\n                const onComplete = ");
            reveal_strlit(";");
            reveal_strlit("\n                const onComplete = ");
        }
        lemma_field_at(Seq::<char>::empty(), "\n            (function() {\n                "@, "index"@, Seq::<char>::empty(), signed_decimal(id as int), Seq::<char>::empty(), "\n                const onComplete = "@, decimal(on_complete as nat) + ";\n                const onCompleteCtx = "@ + decimal(on_complete_ctx as nat) + ";\n                window.unienc_webcodecs.video.flush(index, onComplete, onCompleteCtx);\n            })();\n            "@);
        lemma_concat_associative(Seq::<char>::empty() + "\n            (function() {\n                const index = "@ + signed_decimal(id as int) + ";\n                const onComplete = "@, decimal(on_complete as nat), ";\n                const onCompleteCtx = "@);
        lemma_concat_associative(Seq::<char>::empty() + "\n            (function() {\n                const index = "@ + signed_decimal(id as int) + ";\n                const onComplete = "@, decimal(on_complete as nat) + ";\n                const onCompleteCtx = "@, decimal(on_complete_ctx as nat));
        lemma_concat_associative(Seq::<char>::empty() + "\n            (function() {\n                const index = "@ + signed_decimal(id as int) + ";\n                const onComplete = "@, decimal(on_complete as nat) + ";\n                const onCompleteCtx = "@ + decimal(on_complete_ctx as nat), ";\n                window.unienc_webcodecs.video.flush(index, onComplete, onCompleteCtx);\n            })();\n            "@);
    }
    assert(has_field(flush_video_text(id, on_complete, on_complete_ctx), "onComplete"@, decimal(on_complete as nat))) by {
        assert(";\n                const onComplete = "@ =~= ";\n                "@ + "const "@ + "onComplete"@ + " = "@ + Seq::<char>::empty()) by {
            reveal_strlit(";\n                const onComplete = ");
            reveal_strlit("const ");
            reveal_strlit("onComplete");
            reveal_strlit(" = ");
            reveal_strlit(";\n                ");
        }
        assert(";\n                const onCompleteCtx = "@ =~= Seq::<char>::empty() + ";"@ + "\n                const onCompleteCtx = "@) by {
            reveal_strlit(";\n                const onCompleteCtx = ");
            reveal_strlit(";");
            reveal_strlit("\n                const onCompleteCtx = ");
        }
        lemma_field_at("\n            (function() {\n                const index = "@ + signed_decimal(id as int), ";\n                "@, "onComplete"@, Seq::<char>::empty(), decimal(on_complete as nat), Seq::<char>::empty(), "\n                const onCompleteCtx = "@, decimal(on_complete_ctx as nat) + ";\n                window.unienc_webcodecs.video.flush(index, onComplete, onCompleteCtx);\n            })();\n            "@);
        lemma_concat_associative("\n            (function() {\n                const index = "@ + signed_decimal(id as int) + ";\n                const onComplete = "@ + decimal(on_complete as nat) + ";\n                const onCompleteCtx = "@, decimal(on_complete_ctx as nat), ";\n                window.unienc_webcodecs.video.flush(index, onComplete, onCompleteCtx);\n            })();\n            "@);
    }
    assert(has_field(flush_video_text(id, on_complete, on_complete_ctx), "onCompleteCtx"@, decimal(on_complete_ctx as nat))) by {
        assert(";\n                const onCompleteCtx = "@ =~= ";\n                "@ + "const "@ + "onCompleteCtx"@ + " = "@ + Seq::<char>::empty()) by {
            reveal_strlit(";\n                const onCompleteCtx = ");
            reveal_strlit("const ");
            reveal_strlit("onCompleteCtx");
            reveal_strlit(" = ");
            reveal_strlit(";\n                ");
        }
        assert(";\n                window.unienc_webcodecs.video.flush(index, onComplete, onCompleteCtx);\n            })();\n            "@ =~= Seq::<char>::empty() + ";"@ + "\n                window.unienc_webcodecs.video.flush(index, onComplete, onCompleteCtx);\n            })();\n            "@) by {
            reveal_strlit(";\n                window.unienc_webcodecs.video.flush(index, onComplete, onCompleteCtx);\n            })();\n            ");
            reveal_strlit(";");
            reveal_strlit("\n                window.unienc_webcodecs.video.flush(index, onComplete, onCompleteCtx);\n            })();\n            ");
        }
        lemma_field_at("\n            (function() {\n                const index = "@ + signed_decimal(id as int) + ";\n                const onComplete = "@ + decimal(on_complete as nat), ";\n                "@, "onCompleteCtx"@, Seq::<char>::empty(), decimal(on_complete_ctx as nat), Seq::<char>::empty(), "\n                window.unienc_webcodecs.video.flush(index, onComplete, onCompleteCtx);\n            })();\n            "@, Seq::<char>::empty());
        assert("\n            (function() {\n                const index = "@ + signed_decimal(id as int) + ";\n                const onComplete = "@ + decimal(on_complete as nat) + ";\n                const onCompleteCtx = "@ + decimal(on_complete_ctx as nat) + ";\n                window.unienc_webcodecs.video.flush(index, onComplete, onCompleteCtx);\n            })();\n            "@ =~= "\n            (function() {\n                const index = "@ + signed_decimal(id as int) + ";\n                const onComplete = "@ + decimal(on_complete as nat) + ";\n                const onCompleteCtx = "@ + decimal(on_complete_ctx as nat) + ";\n                window.unienc_webcodecs.video.flush(index, onComplete, onCompleteCtx);\n            })();\n            "@ + Seq::<char>::empty());
    }
}

/// Every constant of the script `free_video_encoder` holds the text of the argument it is
/// named after.
pub proof fn lemma_free_video_encoder_fields(encoder_id: i32)
    ensures
        has_field(free_video_encoder_text(encoder_id), "encoderId"@, signed_decimal(encoder_id as int)),
{
    assert(has_field(free_video_encoder_text(encoder_id), "encoderId"@, signed_decimal(encoder_id as int))) by {
        assert("\n            (function() {\n                const encoderId = "@ =~= "\n            (function() {\n                "@ + "const "@ + "encoderId"@ + " = "@ + Seq::<char>::empty()) by {
            reveal_strlit("\n            (function() {\n                const encoderId = ");
            reveal_strlit("const ");
            reveal_strlit("encoderId");
            reveal_strlit(" = ");
            reveal_strlit("\n            (function() {\n                ");
        }
        assert(";\n                window.unienc_webcodecs.video.free(encoderId);\n            })();\n            "@ =~= Seq::<char>::empty() + ";"@ + "\n                window.unienc_webcodecs.video.free(encoderId);\n            })();\n            "@) by {
            reveal_strlit(";\n                window.unienc_webcodecs.video.free(encoderId);\n            })();\n            ");
            reveal_strlit(";");
            reveal_strlit("\n                window.unienc_webcodecs.video.free(encoderId);\n            })();\n            ");
        }
        lemma_field_at(Seq::<char>::empty(), "\n            (function() {\n                "@, "encoderId"@, Seq::<char>::empty(), signed_decimal(encoder_id as int), Seq::<char>::empty(), "\n                window.unienc_webcodecs.video.free(encoderId);\n            })();\n            "@, Seq::<char>::empty());
        assert(Seq::<char>::empty() + "\n            (function() {\n                const encoderId = "@ + signed_decimal(encoder_id as int) + ";\n                window.unienc_webcodecs.video.free(encoderId);\n            })();\n            "@ =~= Seq::<char>::empty() + "\n            (function() {\n                const encoderId = "@ + signed_decimal(encoder_id as int) + ";\n                window.unienc_webcodecs.video.free(encoderId);\n            })();\n            "@ + Seq::<char>::empty());
    }
}

/// Every constant of the script `new_audio_encoder` holds the text of the argument it is
/// named after.
pub proof fn lemma_new_audio_encoder_fields(bitrate: u32, channels: u32, sample_rate: u32, on_output: usize, on_output_ctx: usize, on_complete: usize, on_complete_ctx: usize)
    ensures
        has_field(new_audio_encoder_text(bitrate, channels, sample_rate, on_output, on_output_ctx, on_complete, on_complete_ctx), "bitrate"@, decimal(bitrate as nat)),
        has_field(new_audio_encoder_text(bitrate, channels, sample_rate, on_output, on_output_ctx, on_complete, on_complete_ctx), "channels"@, decimal(channels as nat)),
        has_field(new_audio_encoder_text(bitrate, channels, sample_rate, on_output, on_output_ctx, on_complete, on_complete_ctx), "sample_rate"@, decimal(sample_rate as nat)),
        has_field(new_audio_encoder_text(bitrate, channels, sample_rate, on_output, on_output_ctx, on_complete, on_complete_ctx), "onOutput"@, decimal(on_output as nat)),
        has_field(new_audio_encoder_text(bitrate, channels, sample_rate, on_output, on_output_ctx, on_complete, on_complete_ctx), "onOutputCtx"@, decimal(on_output_ctx as nat)),
        has_field(new_audio_encoder_text(bitrate, channels, sample_rate, on_output, on_output_ctx, on_complete, on_complete_ctx), "onComplete"@, decimal(on_complete as nat)),
        has_field(new_audio_encoder_text(bitrate, channels, sample_rate, on_output, on_output_ctx, on_complete, on_complete_ctx), "onCompleteCtx"@, decimal(on_complete_ctx as nat)),
{
    assert(has_field(new_audio_encoder_text(bitrate, channels, sample_rate, on_output, on_output_ctx, on_complete, on_complete_ctx), "bitrate"@, decimal(bitrate as nat))) by {
        assert("\n            (function() {\n                const bitrate = "@ =~= "\n            (function() {\n                "@ + "const "@ + "bitrate"@ + " = "@ + Seq::<char>::empty()) by {
            reveal_strlit("\n            (function() {\n                const bitrate = ");
            reveal_strlit("const ");
            reveal_strlit("bitrate");
            reveal_strlit(" = ");
            reveal_strlit("\n            (function() {\n                ");
        }
        assert(";\n                const channels = "@ =~= Seq::<char>::empty() + ";"@ + "\n                const channels = "@) by {
            reveal_strlit(";\n                const channels = ");
            reveal_strlit(";");
            reveal_strlit("\n                const channels = ");
        }
        lemma_field_at(Seq::<char>::empty(), "\n            (function() {\n                "@, "bitrate"@, Seq::<char>::empty(), decimal(bitrate as nat), Seq::<char>::empty(), "\n                const channels = "@, decimal(channels as nat) + ";\n                const sample_rate = "@ + decimal(sample_rate as nat) + ";\n                const onOutput = "@ + decimal(on_output as nat) + ";\n                const onOutputCtx = "@ + decimal(on_output_ctx as nat) + ";\n                const onComplete = "@ + decimal(on_complete as nat) + ";\n                const onCompleteCtx = "@ + decimal(on_complete_ctx as nat) + ";\n                window.unienc_webcodecs.video.new({ bitrate, channels, sample_rate }, onOutput, onOutputCtx, onComplete, onCompleteCtx);\n            })();\n            "@);
        lemma_concat_associative(Seq::<char>::empty() + "\n            (function() {\n                const bitrate = "@ + decimal(bitrate as nat) + ";\n                const channels = "@, decimal(channels as nat), ";\n                const sample_rate = "@);
        lemma_concat_associative(Seq::<char>::empty() + "\n            (function() {\n                const bitrate = "@ + decimal(bitrate as nat) + ";\n                const channels = "@, decimal(channels as nat) + ";\n                const sample_rate = "@, decimal(sample_rate as nat));
        lemma_concat_associative(Seq::<char>::empty() + "\n            (function() {\n                const bitrate = "@ + decimal(bitrate as nat) + ";\n                const channels = "@, decimal(channels as nat) + ";\n                const sample_rate = "@ + decimal(sample_rate as nat), ";\n                const onOutput = "@);
        lemma_concat_associative(Seq::<char>::empty() + "\n            (function() {\n                const bitrate = "@ + decimal(bitrate as nat) + ";\n                const channels = "@, decimal(channels as nat) + ";\n                const sample_rate = "@ + decimal(sample_rate as nat) + ";\n                const onOutput = "@, decimal(on_output as nat));
        lemma_concat_associative(Seq::<char>::empty() + "\n            (function() {\n                const bitrate = "@ + decimal(bitrate as nat) + ";\n                const channels = "@, decimal(channels as nat) + ";\n                const sample_rate = "@ + decimal(sample_rate as nat) + ";\n                const onOutput = "@ + decimal(on_output as nat), ";\n                const onOutputCtx = "@);
        lemma_concat_associative(Seq::<char>::empty() + "\n            (function() {\n                const bitrate = "@ + decimal(bitrate as nat) + ";\n                const channels = "@, decimal(channels as nat) + ";\n                const sample_rate = "@ + decimal(sample_rate as nat) + ";\n                const onOutput = "@ + decimal(on_output as nat) + ";\n                const onOutputCtx = "@, decimal(on_output_ctx as nat));
        lemma_concat_associative(Seq::<char>::empty() + "\n            (function() {\n                const bitrate = "@ + decimal(bitrate as nat) + ";\n                const channels = "@, decimal(channels as nat) + ";\n                const sample_rate = "@ + decimal(sample_rate as nat) + ";\n                const onOutput = "@ + decimal(on_output as nat) + ";\n                const onOutputCtx = "@ + decimal(on_output_ctx as nat), ";\n                const onComplete = "@);
        lemma_concat_associative(Seq::<char>::empty() + "\n            (function() {\n                const bitrate = "@ + decimal(bitrate as nat) + ";\n                const channels = "@, decimal(channels as nat) + ";\n                const sample_rate = "@ + decimal(sample_rate as nat) + ";\n                const onOutput = "@ + decimal(on_output as nat) + ";\n                const onOutputCtx = "@ + decimal(on_output_ctx as nat) + ";\n                const onComplete = "@, decimal(on_complete as nat));
        lemma_concat_associative(Seq::<char>::empty() + "\n            (function() {\n                const bitrate = "@ + decimal(bitrate as nat) + ";\n                const channels = "@, decimal(channels as nat) + ";\n                const sample_rate = "@ + decimal(sample_rate as nat) + ";\n                const onOutput = "@ + decimal(on_output as nat) + ";\n                const onOutputCtx = "@ + decimal(on_output_ctx as nat) + ";\n                const onComplete = "@ + decimal(on_complete as nat), ";\n                const onCompleteCtx = "@);
        lemma_concat_associative(Seq::<char>::empty() + "\n            (function() {\n                const bitrate = "@ + decimal(bitrate as nat) + ";\n                const channels = "@, decimal(channels as nat) + ";\n                const sample_rate = "@ + decimal(sample_rate as nat) + ";\n                const onOutput = "@ + decimal(on_output as nat) + ";\n                const onOutputCtx = "@ + decimal(on_output_ctx as nat) + ";\n                const onComplete = "@ + decimal(on_complete as nat) + ";\n                const onCompleteCtx = "@, decimal(on_complete_ctx as nat));
        lemma_concat_associative(Seq::<char>::empty() + "\n            (function() {\n                const bitrate = "@ + decimal(bitrate as nat) + ";\n                const channels = "@, decimal(channels as nat) + ";\n                const sample_rate = "@ + decimal(sample_rate as nat) + ";\n                const onOutput = "@ + decimal(on_output as nat) + ";\n                const onOutputCtx = "@ + decimal(on_output_ctx as nat) + ";\n                const onComplete = "@ + decimal(on_complete as nat) + ";\n                const onCompleteCtx = "@ + decimal(on_complete_ctx as nat), ";\n                window.unienc_webcodecs.video.new({ bitrate, channels, sample_rate }, onOutput, onOutputCtx, onComplete, onCompleteCtx);\n            })();\n            "@);
    }
    assert(has_field(new_audio_encoder_text(bitrate, channels, sample_rate, on_output, on_output_ctx, on_complete, on_complete_ctx), "channels"@, decimal(channels as nat))) by {
        assert(";\n                const channels = "@ =~= ";\n                "@ + "const "@ + "channels"@ + " = "@ + Seq::<char>::empty()) by {
            reveal_strlit(";\n                const channels = ");
            reveal_strlit("const ");
            reveal_strlit("channels");
            reveal_strlit(" = ");
            reveal_strlit(";\n                ");
        }
        assert(";\n                const sample_rate = "@ =~= Seq::<char>::empty() + ";"@ + "\n                const sample_rate = "@) by {
            reveal_strlit(";\n                const sample_rate = ");
            reveal_strlit(";");
            reveal_strlit("\n                const sample_rate = ");
        }
        lemma_field_at("\n            (function() {\n                const bitrate = "@ + decimal(bitrate as nat), ";\n                "@, "channels"@, Seq::<char>::empty(), decimal(channels as nat), Seq::<char>::empty(), "\n                const sample_rate = "@, decimal(sample_rate as nat) + ";\n                const onOutput = "@ + decimal(on_output as nat) + ";\n                const onOutputCtx = "@ + decimal(on_output_ctx as nat) + ";\n                const onComplete = "@ + decimal(on_complete as nat) + ";\n                const onCompleteCtx = "@ + decimal(on_complete_ctx as nat) + ";\n                window.unienc_webcodecs.video.new({ bitrate, channels, sample_rate }, onOutput, onOutputCtx, onComplete, onCompleteCtx);\n            })();\n            "@);
        lemma_concat_associative("\n            (function() {\n                const bitrate = "@ + decimal(bitrate as nat) + ";\n                const channels = "@ + decimal(channels as nat) + ";\n                const sample_rate = "@, decimal(sample_rate as nat), ";\n                const onOutput = "@);
        lemma_concat_associative("\n            (function() {\n                const bitrate = "@ + decimal(bitrate as nat) + ";\n                const channels = "@ + decimal(channels as nat) + ";\n                const sample_rate = "@, decimal(sample_rate as nat) + ";\n                const onOutput = "@, decimal(on_output as nat));
        lemma_concat_associative("\n            (function() {\n                const bitrate = "@ + decimal(bitrate as nat) + ";\n                const channels = "@ + decimal(channels as nat) + ";\n                const sample_rate = "@, decimal(sample_rate as nat) + ";\n                const onOutput = "@ + decimal(on_output as nat), ";\n                const onOutputCtx = "@);
        lemma_concat_associative("\n            (function() {\n                const bitrate = "@ + decimal(bitrate as nat) + ";\n                const channels = "@ + decimal(channels as nat) + ";\n                const sample_rate = "@, decimal(sample_rate as nat) + ";\n                const onOutput = "@ + decimal(on_output as nat) + ";\n                const onOutputCtx = "@, decimal(on_output_ctx as nat));
        lemma_concat_associative("\n            (function() {\n                const bitrate = "@ + decimal(bitrate as nat) + ";\n                const channels = "@ + decimal(channels as nat) + ";\n                const sample_rate = "@, decimal(sample_rate as nat) + ";\n                const onOutput = "@ + decimal(on_output as nat) + ";\n                const onOutputCtx = "@ + decimal(on_output_ctx as nat), ";\n                const onComplete = "@);
        lemma_concat_associative("\n            (function() {\n                const bitrate = "@ + decimal(bitrate as nat) + ";\n                const channels = "@ + decimal(channels as nat) + ";\n                const sample_rate = "@, decimal(sample_rate as nat) + ";\n                const onOutput = "@ + decimal(on_output as nat) + ";\n                const onOutputCtx = "@ + decimal(on_output_ctx as nat) + ";\n                const onComplete = "@, decimal(on_complete as nat));
        lemma_concat_associative("\n            (function() {\n                const bitrate = "@ + decimal(bitrate as nat) + ";\n                const channels = "@ + decimal(channels as nat) + ";\n                const sample_rate = "@, decimal(sample_rate as nat) + ";\n                const onOutput = "@ + decimal(on_output as nat) + ";\n                const onOutputCtx = "@ + decimal(on_output_ctx as nat) + ";\n                const onComplete = "@ + decimal(on_complete as nat), ";\n                const onCompleteCtx = "@);
        lemma_concat_associative("\n            (function() {\n                const bitrate = "@ + decimal(bitrate as nat) + ";\n                const channels = "@ + decimal(channels as nat) + ";\n                const sample_rate = "@, decimal(sample_rate as nat) + ";\n                const onOutput = "@ + decimal(on_output as nat) + ";\n                const onOutputCtx = "@ + decimal(on_output_ctx as nat) + ";\n                const onComplete = "@ + decimal(on_complete as nat) + ";\n                const onCompleteCtx = "@, decimal(on_complete_ctx as nat));
        lemma_concat_associative("\n            (function() {\n                const bitrate = "@ + decimal(bitrate as nat) + ";\n                const channels = "@ + decimal(channels as nat) + ";\n                const sample_rate = "@, decimal(sample_rate as nat) + ";\n                const onOutput = "@ + decimal(on_output as nat) + ";\n                const onOutputCtx = "@ + decimal(on_output_ctx as nat) + ";\n                const onComplete = "@ + decimal(on_complete as nat) + ";\n                const onCompleteCtx = "@ + decimal(on_complete_ctx as nat), ";\n                window.unienc_webcodecs.video.new({ bitrate, channels, sample_rate }, onOutput, onOutputCtx, onComplete, onCompleteCtx);\n            })();\n            "@);
    }
    assert(has_field(new_audio_encoder_text(bitrate, channels, sample_rate, on_output, on_output_ctx, on_complete, on_complete_ctx), "sample_rate"@, decimal(sample_rate as nat))) by {
        assert(";\n                const sample_rate = "@ =~= ";\n                "@ + "const "@ + "sample_rate"@ + " = "@ + Seq::<char>::empty()) by {
            reveal_strlit(";\n                const sample_rate = ");
            reveal_strlit("const ");
            reveal_strlit("sample_rate");
            reveal_strlit(" = ");
            reveal_strlit(";\n                ");
        }
        assert(";\n                const onOutput = "@ =~= Seq::<char>::empty() + ";"@ + "\n                const onOutput = "@) by {
            reveal_strlit(";\n                const onOutput = ");
            reveal_strlit(";");
            reveal_strlit("\n                const onOutput = ");
        }
        lemma_field_at("\n            (function() {\n                const bitrate = "@ + decimal(bitrate as nat) + ";\n                const channels = "@ + decimal(channels as nat), ";\n                "@, "sample_rate"@, Seq::<char>::empty(), decimal(sample_rate as nat), Seq::<char>::empty(), "\n                const onOutput = "@, decimal(on_output as nat) + ";\n                const onOutputCtx = "@ + decimal(on_output_ctx as nat) + ";\n                const onComplete = "@ + decimal(on_complete as nat) + ";\n                const onCompleteCtx = "@ + decimal(on_complete_ctx as nat) + ";\n                window.unienc_webcodecs.video.new({ bitrate, channels, sample_rate }, onOutput, onOutputCtx, onComplete, onCompleteCtx);\n            })();\n            "@);
        lemma_concat_associative("\n            (function() {\n                const bitrate = "@ + decimal(bitrate as nat) + ";\n                const channels = "@ + decimal(channels as nat) + ";\n                const sample_rate = "@ + decimal(sample_rate as nat) + ";\n                const onOutput = "@, decimal(on_output as nat), ";\n                const onOutputCtx = "@);
        lemma_concat_associative("\n            (function() {\n                const bitrate = "@ + decimal(bitrate as nat) + ";\n                const channels = "@ + decimal(channels as nat) + ";\n                const sample_rate = "@ + decimal(sample_rate as nat) + ";\n                const onOutput = "@, decimal(on_output as nat) + ";\n                const onOutputCtx = "@, decimal(on_output_ctx as nat));
        lemma_concat_associative("\n            (function() {\n                const bitrate = "@ + decimal(bitrate as nat) + ";\n                const channels = "@ + decimal(channels as nat) + ";\n                const sample_rate = "@ + decimal(sample_rate as nat) + ";\n                const onOutput = "@, decimal(on_output as nat) + ";\n                const onOutputCtx = "@ + decimal(on_output_ctx as nat), ";\n                const onComplete = "@);
        lemma_concat_associative("\n            (function() {\n                const bitrate = "@ + decimal(bitrate as nat) + ";\n                const channels = "@ + decimal(channels as nat) + ";\n                const sample_rate = "@ + decimal(sample_rate as nat) + ";\n                const onOutput = "@, decimal(on_output as nat) + ";\n                const onOutputCtx = "@ + decimal(on_output_ctx as nat) + ";\n                const onComplete = "@, decimal(on_complete as nat));
        lemma_concat_associative("\n            (function() {\n                const bitrate = "@ + decimal(bitrate as nat) + ";\n                const channels = "@ + decimal(channels as nat) + ";\n                const sample_rate = "@ + decimal(sample_rate as nat) + ";\n                const onOutput = "@, decimal(on_output as nat) + ";\n                const onOutputCtx = "@ + decimal(on_output_ctx as nat) + ";\n                const onComplete = "@ + decimal(on_complete as nat), ";\n                const onCompleteCtx = "@);
        lemma_concat_associative("\n            (function() {\n                const bitrate = "@ + decimal(bitrate as nat) + ";\n                const channels = "@ + decimal(channels as nat) + ";\n                const sample_rate = "@ + decimal(sample_rate as nat) + ";\n                const onOutput = "@, decimal(on_output as nat) + ";\n                const onOutputCtx = "@ + decimal(on_output_ctx as nat) + ";\n                const onComplete = "@ + decimal(on_complete as nat) + ";\n                const onCompleteCtx = "@, decimal(on_complete_ctx as nat));
        lemma_concat_associative("\n            (function() {\n                const bitrate = "@ + decimal(bitrate as nat) + ";\n                const channels = "@ + decimal(channels as nat) + ";\n                const sample_rate = "@ + decimal(sample_rate as nat) + ";\n                const onOutput = "@, decimal(on_output as nat) + ";\n                const onOutputCtx = "@ + decimal(on_output_ctx as nat) + ";\n                const onComplete = "@ + decimal(on_complete as nat) + ";\n                const onCompleteCtx = "@ + decimal(on_complete_ctx as nat), ";\n                window.unienc_webcodecs.video.new({ bitrate, channels, sample_rate }, onOutput, onOutputCtx, onComplete, onCompleteCtx);\n            })();\n            "@);
    }
    assert(has_field(new_audio_encoder_text(bitrate, channels, sample_rate, on_output, on_output_ctx, on_complete, on_complete_ctx), "onOutput"@, decimal(on_output as nat))) by {
        assert(";\n                const onOutput = "@ =~= ";\n                "@ + "const "@ + "onOutput"@ + " = "@ + Seq::<char>::empty()) by {
            reveal_strlit(";\n                const onOutput = ");
            reveal_strlit("const ");
            reveal_strlit("onOutput");
            reveal_strlit(" = ");
            reveal_strlit(";\n                ");
        }
        assert(";\n                const onOutputCtx = "@ =~= Seq::<char>::empty() + ";"@ + "\n                const onOutputCtx = "@) by {
            reveal_strlit(";\n                const onOutputCtx = ");
            reveal_strlit(";");
            reveal_strlit("\n                const onOutputCtx = ");
        }
        lemma_field_at("\n            (function() {\n                const bitrate = "@ + decimal(bitrate as nat) + ";\n                const channels = "@ + decimal(channels as nat) + ";\n                const sample_rate = "@ + decimal(sample_rate as nat), ";\n                "@, "onOutput"@, Seq::<char>::empty(), decimal(on_output as nat), Seq::<char>::empty(), "\n                const onOutputCtx = "@, decimal(on_output_ctx as nat) + ";\n                const onComplete = "@ + decimal(on_complete as nat) + ";\n                const onCompleteCtx = "@ + decimal(on_complete_ctx as nat) + ";\n                window.unienc_webcodecs.video.new({ bitrate, channels, sample_rate }, onOutput, onOutputCtx, onComplete, onCompleteCtx);\n            })();\n            "@);
        lemma_concat_associative("\n            (function() {\n                const bitrate = "@ + decimal(bitrate as nat) + ";\n                const channels = "@ + decimal(channels as nat) + ";\n                const sample_rate = "@ + decimal(sample_rate as nat) + ";\n                const onOutput = "@ + decimal(on_output as nat) + ";\n                const onOutputCtx = "@, decimal(on_output_ctx as nat), ";\n                const onComplete = "@);
        lemma_concat_associative("\n            (function() {\n                const bitrate = "@ + decimal(bitrate as nat) + ";\n                const channels = "@ + decimal(channels as nat) + ";\n                const sample_rate = "@ + decimal(sample_rate as nat) + ";\n                const onOutput = "@ + decimal(on_output as nat) + ";\n                const onOutputCtx = "@, decimal(on_output_ctx as nat) + ";\n                const onComplete = "@, decimal(on_complete as nat));
        lemma_concat_associative("\n            (function() {\n                const bitrate = "@ + decimal(bitrate as nat) + ";\n                const channels = "@ + decimal(channels as nat) + ";\n                const sample_rate = "@ + decimal(sample_rate as nat) + ";\n                const onOutput = "@ + decimal(on_output as nat) + ";\n                const onOutputCtx = "@, decimal(on_output_ctx as nat) + ";\n                const onComplete = "@ + decimal(on_complete as nat), ";\n                const onCompleteCtx = "@);
        lemma_concat_associative("\n            (function() {\n                const bitrate = "@ + decimal(bitrate as nat) + ";\n                const channels = "@ + decimal(channels as nat) + ";\n                const sample_rate = "@ + decimal(sample_rate as nat) + ";\n                const onOutput = "@ + decimal(on_output as nat) + ";\n                const onOutputCtx = "@, decimal(on_output_ctx as nat) + ";\n                const onComplete = "@ + decimal(on_complete as nat) + ";\n                const onCompleteCtx = "@, decimal(on_complete_ctx as nat));
        lemma_concat_associative("\n            (function() {\n                const bitrate = "@ + decimal(bitrate as nat) + ";\n                const channels = "@ + decimal(channels as nat) + ";\n                const sample_rate = "@ + decimal(sample_rate as nat) + ";\n                const onOutput = "@ + decimal(on_output as nat) + ";\n                const onOutputCtx = "@, decimal(on_output_ctx as nat) + ";\n                const onComplete = "@ + decimal(on_complete as nat) + ";\n                const onCompleteCtx = "@ + decimal(on_complete_ctx as nat), ";\n                window.unienc_webcodecs.video.new({ bitrate, channels, sample_rate }, onOutput, onOutputCtx, onComplete, onCompleteCtx);\n            })();\n            "@);
    }
    assert(has_field(new_audio_encoder_text(bitrate, channels, sample_rate, on_output, on_output_ctx, on_complete, on_complete_ctx), "onOutputCtx"@, decimal(on_output_ctx as nat))) by {
        assert(";\n                const onOutputCtx = "@ =~= ";\n                "@ + "const "@ + "onOutputCtx"@ + " = "@ + Seq::<char>::empty()) by {
            reveal_strlit(";\n                const onOutputCtx = ");
            reveal_strlit("const ");
            reveal_strlit("onOutputCtx");
            reveal_strlit(" = ");
            reveal_strlit(";\n                ");
        }
        assert(";\n                const onComplete = "@ =~= Seq::<char>::empty() + ";"@ + "\n                const onComplete = "@) by {
            reveal_strlit(";\n                const onComplete = ");
            reveal_strlit(";");
            reveal_strlit("\n                const onComplete = ");
        }
        lemma_field_at("\n            (function() {\n                const bitrate = "@ + decimal(bitrate as nat) + ";\n                const channels = "@ + decimal(channels as nat) + ";\n                const sample_rate = "@ + decimal(sample_rate as nat) + ";\n                const onOutput = "@ + decimal(on_output as nat), ";\n                "@, "onOutputCtx"@, Seq::<char>::empty(), decimal(on_output_ctx as nat), Seq::<char>::empty(), "\n                const onComplete = "@, decimal(on_complete as nat) + ";\n                const onCompleteCtx = "@ + decimal(on_complete_ctx as nat) + ";\n                window.unienc_webcodecs.video.new({ bitrate, channels, sample_rate }, onOutput, onOutputCtx, onComplete, onCompleteCtx);\n            })();\n            "@);
        lemma_concat_associative("\n            (function() {\n                const bitrate = "@ + decimal(bitrate as nat) + ";\n                const channels = "@ + decimal(channels as nat) + ";\n                const sample_rate = "@ + decimal(sample_rate as nat) + ";\n                const onOutput = "@ + decimal(on_output as nat) + ";\n                const onOutputCtx = "@ + decimal(on_output_ctx as nat) + ";\n                const onComplete = "@, decimal(on_complete as nat), ";\n                const onCompleteCtx = "@);
        lemma_concat_associative("\n            (function() {\n                const bitrate = "@ + decimal(bitrate as nat) + ";\n                const channels = "@ + decimal(channels as nat) + ";\n                const sample_rate = "@ + decimal(sample_rate as nat) + ";\n                const onOutput = "@ + decimal(on_output as nat) + ";\n                const onOutputCtx = "@ + decimal(on_output_ctx as nat) + ";\n                const onComplete = "@, decimal(on_complete as nat) + ";\n                const onCompleteCtx = "@, decimal(on_complete_ctx as nat));
        lemma_concat_associative("\n            (function() {\n                const bitrate = "@ + decimal(bitrate as nat) + ";\n                const channels = "@ + decimal(channels as nat) + ";\n                const sample_rate = "@ + decimal(sample_rate as nat) + ";\n                const onOutput = "@ + decimal(on_output as nat) + ";\n                const onOutputCtx = "@ + decimal(on_output_ctx as nat) + ";\n                const onComplete = "@, decimal(on_complete as nat) + ";\n                const onCompleteCtx = "@ + decimal(on_complete_ctx as nat), ";\n                window.unienc_webcodecs.video.new({ bitrate, channels, sample_rate }, onOutput, onOutputCtx, onComplete, onCompleteCtx);\n            })();\n            "@);
    }
    assert(has_field(new_audio_encoder_text(bitrate, channels, sample_rate, on_output, on_output_ctx, on_complete, on_complete_ctx), "onComplete"@, decimal(on_complete as nat))) by {
        assert(";\n                const onComplete = "@ =~= ";\n                "@ + "const "@ + "onComplete"@ + " = "@ + Seq::<char>::empty()) by {
            reveal_strlit(";\n                const onComplete = ");
            reveal_strlit("const ");
            reveal_strlit("onComplete");
            reveal_strlit(" = ");
            reveal_strlit(";\n                ");
        }
        assert(";\n                const onCompleteCtx = "@ =~= Seq::<char>::empty() + ";"@ + "\n                const onCompleteCtx = "@) by {
            reveal_strlit(";\n                const onCompleteCtx = ");
            reveal_strlit(";");
            reveal_strlit("\n                const onCompleteCtx = ");
        }
        lemma_field_at("\n            (function() {\n                const bitrate = "@ + decimal(bitrate as nat) + ";\n                const channels = "@ + decimal(channels as nat) + ";\n                const sample_rate = "@ + decimal(sample_rate as nat) + ";\n                const onOutput = "@ + decimal(on_output as nat) + ";\n                const onOutputCtx = "@ + decimal(on_output_ctx as nat), ";\n                "@, "onComplete"@, Seq::<char>::empty(), decimal(on_complete as nat), Seq::<char>::empty(), "\n                const onCompleteCtx = "@, decimal(on_complete_ctx as nat) + ";\n                window.unienc_webcodecs.video.new({ bitrate, channels, sample_rate }, onOutput, onOutputCtx, onComplete, onCompleteCtx);\n            })();\n            "@);
        lemma_concat_associative("\n            (function() {\n                const bitrate = "@ + decimal(bitrate as nat) + ";\n                const channels = "@ + decimal(channels as nat) + ";\n                const sample_rate = "@ + decimal(sample_rate as nat) + ";\n                const onOutput = "@ + decimal(on_output as nat) + ";\n                const onOutputCtx = "@ + decimal(on_output_ctx as nat) + ";\n                const onComplete = "@ + decimal(on_complete as nat) + ";\n                const onCompleteCtx = "@, decimal(on_complete_ctx as nat), ";\n                window.unienc_webcodecs.video.new({ bitrate, channels, sample_rate }, onOutput, onOutputCtx, onComplete, onCompleteCtx);\n            })();\n            "@);
    }
    assert(has_field(new_audio_encoder_text(bitrate, channels, sample_rate, on_output, on_output_ctx, on_complete, on_complete_ctx), "onCompleteCtx"@, decimal(on_complete_ctx as nat))) by {
        assert(";\n                const onCompleteCtx = "@ =~= ";\n                "@ + "const "@ + "onCompleteCtx"@ + " = "@ + Seq::<char>::empty()) by {
            reveal_strlit(";\n                const onCompleteCtx = ");
            reveal_strlit("const ");
            reveal_strlit("onCompleteCtx");
            reveal_strlit(" = ");
            reveal_strlit(";\n                ");
        }
        assert(";\n                window.unienc_webcodecs.video.new({ bitrate, channels, sample_rate }, onOutput, onOutputCtx, onComplete, onCompleteCtx);\n            })();\n            "@ =~= Seq::<char>::empty() + ";"@ + "\n                window.unienc_webcodecs.video.new({ bitrate, channels, sample_rate }, onOutput, onOutputCtx, onComplete, onCompleteCtx);\n            })();\n            "@) by {
            reveal_strlit(";\n                window.unienc_webcodecs.video.new({ bitrate, channels, sample_rate }, onOutput, onOutputCtx, onComplete, onCompleteCtx);\n            })();\n            ");
            reveal_strlit(";");
            reveal_strlit("\n                window.unienc_webcodecs.video.new({ bitrate, channels, sample_rate }, onOutput, onOutputCtx, onComplete, onCompleteCtx);\n            })();\n            ");
        }
        lemma_field_at("\n            (function() {\n                const bitrate = "@ + decimal(bitrate as nat) + ";\n                const channels = "@ + decimal(channels as nat) + ";\n                const sample_rate = "@ + decimal(sample_rate as nat) + ";\n                const onOutput = "@ + decimal(on_output as nat) + ";\n                const onOutputCtx = "@ + decimal(on_output_ctx as nat) + ";\n                const onComplete = "@ + decimal(on_complete as nat), ";\n                "@, "onCompleteCtx"@, Seq::<char>::empty(), decimal(on_complete_ctx as nat), Seq::<char>::empty(), "\n                window.unienc_webcodecs.video.new({ bitrate, channels, sample_rate }, onOutput, onOutputCtx, onComplete, onCompleteCtx);\n            })();\n            "@, Seq::<char>::empty());
        assert("\n            (function() {\n                const bitrate = "@ + decimal(bitrate as nat) + ";\n                const channels = "@ + decimal(channels as nat) + ";\n                const sample_rate = "@ + decimal(sample_rate as nat) + ";\n                const onOutput = "@ + decimal(on_output as nat) + ";\n                const onOutputCtx = "@ + decimal(on_output_ctx as nat) + ";\n                const onComplete = "@ + decimal(on_complete as nat) + ";\n                const onCompleteCtx = "@ + decimal(on_complete_ctx as nat) + ";\n                window.unienc_webcodecs.video.new({ bitrate, channels, sample_rate }, onOutput, onOutputCtx, onComplete, onCompleteCtx);\n            })();\n            "@ =~= "\n            (function() {\n                const bitrate = "@ + decimal(bitrate as nat) + ";\n                const channels = "@ + decimal(channels as nat) + ";\n                const sample_rate = "@ + decimal(sample_rate as nat) + ";\n                const onOutput = "@ + decimal(on_output as nat) + ";\n                const onOutputCtx = "@ + decimal(on_output_ctx as nat) + ";\n                const onComplete = "@ + decimal(on_complete as nat) + ";\n                const onCompleteCtx = "@ + decimal(on_complete_ctx as nat) + ";\n                window.unienc_webcodecs.video.new({ bitrate, channels, sample_rate }, onOutput, onOutputCtx, onComplete, onCompleteCtx);\n            })();\n            "@ + Seq::<char>::empty());
    }
}

/// Every constant of the script `push_audio_frame` holds the text of the argument it is
/// named after.
pub proof fn lemma_push_audio_frame_fields(encoder_index: i32, data_ptr: usize, data_length: usize, channels: u32, sample_rate: u32, timestamp: Seq<char>)
    ensures
        has_field(push_audio_frame_text(encoder_index, data_ptr, data_length, channels, sample_rate, timestamp), "encoderIndex"@, signed_decimal(encoder_index as int)),
        has_field(push_audio_frame_text(encoder_index, data_ptr, data_length, channels, sample_rate, timestamp), "dataPtr"@, decimal(data_ptr as nat)),
        has_field(push_audio_frame_text(encoder_index, data_ptr, data_length, channels, sample_rate, timestamp), "dataLength"@, decimal(data_length as nat)),
        has_field(push_audio_frame_text(encoder_index, data_ptr, data_length, channels, sample_rate, timestamp), "channels"@, decimal(channels as nat)),
        has_field(push_audio_frame_text(encoder_index, data_ptr, data_length, channels, sample_rate, timestamp), "sample_rate"@, decimal(sample_rate as nat)),
        has_field(push_audio_frame_text(encoder_index, data_ptr, data_length, channels, sample_rate, timestamp), "timestamp"@, timestamp),
{
    assert(has_field(push_audio_frame_text(encoder_index, data_ptr, data_length, channels, sample_rate, timestamp), "encoderIndex"@, signed_decimal(encoder_index as int))) by {
        assert("\n            (function() {\n                const encoderIndex = "@ =~= "\n            (function() {\n                "@ + "const "@ + "encoderIndex"@ + " = "@ + Seq::<char>::empty()) by {
            reveal_strlit("\n            (function() {\n                const encoderIndex = ");
            reveal_strlit("const ");
            reveal_strlit("encoderIndex");
            reveal_strlit(" = ");
            reveal_strlit("\n            (function() {\n                ");
        }
        assert(";\n                const dataPtr = "@ =~= Seq::<char>::empty() + ";"@ + "\n                const dataPtr = "@) by {
            reveal_strlit(";\n                const dataPtr = ");
            reveal_strlit(";");
            reveal_strlit("\n                const dataPtr = ");
        }
        lemma_field_at(Seq::<char>::empty(), "\n            (function() {\n                "@, "encoderIndex"@, Seq::<char>::empty(), signed_decimal(encoder_index as int), Seq::<char>::empty(), "\n                const dataPtr = "@, decimal(data_ptr as nat) + ";\n                const dataLength = "@ + decimal(data_length as nat) + ";\n                const channels = "@ + decimal(channels as nat) + ";\n                const sample_rate = "@ + decimal(sample_rate as nat) + ";\n                const timestamp = "@ + timestamp + ";\n                const dataArray = new Uint8Array(Module.HEAPU8.buffer, dataPtr, dataLength);\n                window.unienc_webcodecs.video.push(encoderIndex, dataArray, {channels, sample_rate, timestamp});\n            })();\n            "@);
        lemma_concat_associative(Seq::<char>::empty() + "\n            (function() {\n                const encoderIndex = "@ + signed_decimal(encoder_index as int) + ";\n                const dataPtr = "@, decimal(data_ptr as nat), ";\n                const dataLength = "@);
        lemma_concat_associative(Seq::<char>::empty() + "\n            (function() {\n                const encoderIndex = "@ + signed_decimal(encoder_index as int) + ";\n                const dataPtr = "@, decimal(data_ptr as nat) + ";\n                const dataLength = "@, decimal(data_length as nat));
        lemma_concat_associative(Seq::<char>::empty() + "\n            (function() {\n                const encoderIndex = "@ + signed_decimal(encoder_index as int) + ";\n                const dataPtr = "@, decimal(data_ptr as nat) + ";\n                const dataLength = "@ + decimal(data_length as nat), ";\n                const channels = "@);
        lemma_concat_associative(Seq::<char>::empty() + "\n            (function() {\n                const encoderIndex = "@ + signed_decimal(encoder_index as int) + ";\n                const dataPtr = "@, decimal(data_ptr as nat) + ";\n                const dataLength = "@ + decimal(data_length as nat) + ";\n                const channels = "@, decimal(channels as nat));
        lemma_concat_associative(Seq::<char>::empty() + "\n            (function() {\n                const encoderIndex = "@ + signed_decimal(encoder_index as int) + ";\n                const dataPtr = "@, decimal(data_ptr as nat) + ";\n                const dataLength = "@ + decimal(data_length as nat) + ";\n                const channels = "@ + decimal(channels as nat), ";\n                const sample_rate = "@);
        lemma_concat_associative(Seq::<char>::empty() + "\n            (function() {\n                const encoderIndex = "@ + signed_decimal(encoder_index as int) + ";\n                const dataPtr = "@, decimal(data_ptr as nat) + ";\n                const dataLength = "@ + decimal(data_length as nat) + ";\n                const channels = "@ + decimal(channels as nat) + ";\n                const sample_rate = "@, decimal(sample_rate as nat));
        lemma_concat_associative(Seq::<char>::empty() + "\n            (function() {\n                const encoderIndex = "@ + signed_decimal(encoder_index as int) + ";\n                const dataPtr = "@, decimal(data_ptr as nat) + ";\n                const dataLength = "@ + decimal(data_length as nat) + ";\n                const channels = "@ + decimal(channels as nat) + ";\n                const sample_rate = "@ + decimal(sample_rate as nat), ";\n                const timestamp = "@);
        lemma_concat_associative(Seq::<char>::empty() + "\n            (function() {\n                const encoderIndex = "@ + signed_decimal(encoder_index as int) + ";\n                const dataPtr = "@, decimal(data_ptr as nat) + ";\n                const dataLength = "@ + decimal(data_length as nat) + ";\n                const channels = "@ + decimal(channels as nat) + ";\n                const sample_rate = "@ + decimal(sample_rate as nat) + ";\n                const timestamp = "@, timestamp);
        lemma_concat_associative(Seq::<char>::empty() + "\n            (function() {\n                const encoderIndex = "@ + signed_decimal(encoder_index as int) + ";\n                const dataPtr = "@, decimal(data_ptr as nat) + ";\n                const dataLength = "@ + decimal(data_length as nat) + ";\n                const channels = "@ + decimal(channels as nat) + ";\n                const sample_rate = "@ + decimal(sample_rate as nat) + ";\n                const timestamp = "@ + timestamp, ";\n                const dataArray = new Uint8Array(Module.HEAPU8.buffer, dataPtr, dataLength);\n                window.unienc_webcodecs.video.push(encoderIndex, dataArray, {channels, sample_rate, timestamp});\n            })();\n            "@);
    }
    assert(has_field(push_audio_frame_text(encoder_index, data_ptr, data_length, channels, sample_rate, timestamp), "dataPtr"@, decimal(data_ptr as nat))) by {
        assert(";\n                const dataPtr = "@ =~= ";\n                "@ + "const "@ + "dataPtr"@ + " = "@ + Seq::<char>::empty()) by {
            reveal_strlit(";\n                const dataPtr = ");
            reveal_strlit("const ");
            reveal_strlit("dataPtr");
            reveal_strlit(" = ");
            reveal_strlit(";\n                ");
        }
        assert(";\n                const dataLength = "@ =~= Seq::<char>::empty() + ";"@ + "\n                const dataLength = "@) by {
            reveal_strlit(";\n                const dataLength = ");
            reveal_strlit(";");
            reveal_strlit("\n                const dataLength = ");
        }
        lemma_field_at("\n            (function() {\n                const encoderIndex = "@ + signed_decimal(encoder_index as int), ";\n                "@, "dataPtr"@, Seq::<char>::empty(), decimal(data_ptr as nat), Seq::<char>::empty(), "\n                const dataLength = "@, decimal(data_length as nat) + ";\n                const channels = "@ + decimal(channels as nat) + ";\n                const sample_rate = "@ + decimal(sample_rate as nat) + ";\n                const timestamp = "@ + timestamp + ";\n                const dataArray = new Uint8Array(Module.HEAPU8.buffer, dataPtr, dataLength);\n                window.unienc_webcodecs.video.push(encoderIndex, dataArray, {channels, sample_rate, timestamp});\n            })();\n            "@);
        lemma_concat_associative("\n            (function() {\n                const encoderIndex = "@ + signed_decimal(encoder_index as int) + ";\n                const dataPtr = "@ + decimal(data_ptr as nat) + ";\n                const dataLength = "@, decimal(data_length as nat), ";\n                const channels = "@);
        lemma_concat_associative("\n            (function() {\n                const encoderIndex = "@ + signed_decimal(encoder_index as int) + ";\n                const dataPtr = "@ + decimal(data_ptr as nat) + ";\n                const dataLength = "@, decimal(data_length as nat) + ";\n                const channels = "@, decimal(channels as nat));
        lemma_concat_associative("\n            (function() {\n                const encoderIndex = "@ + signed_decimal(encoder_index as int) + ";\n                const dataPtr = "@ + decimal(data_ptr as nat) + ";\n                const dataLength = "@, decimal(data_length as nat) + ";\n                const channels = "@ + decimal(channels as nat), ";\n                const sample_rate = "@);
        lemma_concat_associative("\n            (function() {\n                const encoderIndex = "@ + signed_decimal(encoder_index as int) + ";\n                const dataPtr = "@ + decimal(data_ptr as nat) + ";\n                const dataLength = "@, decimal(data_length as nat) + ";\n                const channels = "@ + decimal(channels as nat) + ";\n                const sample_rate = "@, decimal(sample_rate as nat));
        lemma_concat_associative("\n            (function() {\n                const encoderIndex = "@ + signed_decimal(encoder_index as int) + ";\n                const dataPtr = "@ + decimal(data_ptr as nat) + ";\n                const dataLength = "@, decimal(data_length as nat) + ";\n                const channels = "@ + decimal(channels as nat) + ";\n                const sample_rate = "@ + decimal(sample_rate as nat), ";\n                const timestamp = "@);
        lemma_concat_associative("\n            (function() {\n                const encoderIndex = "@ + signed_decimal(encoder_index as int) + ";\n                const dataPtr = "@ + decimal(data_ptr as nat) + ";\n                const dataLength = "@, decimal(data_length as nat) + ";\n                const channels = "@ + decimal(channels as nat) + ";\n                const sample_rate = "@ + decimal(sample_rate as nat) + ";\n                const timestamp = "@, timestamp);
        lemma_concat_associative("\n            (function() {\n                const encoderIndex = "@ + signed_decimal(encoder_index as int) + ";\n                const dataPtr = "@ + decimal(data_ptr as nat) + ";\n                const dataLength = "@, decimal(data_length as nat) + ";\n                const channels = "@ + decimal(channels as nat) + ";\n                const sample_rate = "@ + decimal(sample_rate as nat) + ";\n                const timestamp = "@ + timestamp, ";\n                const dataArray = new Uint8Array(Module.HEAPU8.buffer, dataPtr, dataLength);\n                window.unienc_webcodecs.video.push(encoderIndex, dataArray, {channels, sample_rate, timestamp});\n            })();\n            "@);
    }
    assert(has_field(push_audio_frame_text(encoder_index, data_ptr, data_length, channels, sample_rate, timestamp), "dataLength"@, decimal(data_length as nat))) by {
        assert(";\n                const dataLength = "@ =~= ";\n                "@ + "const "@ + "dataLength"@ + " = "@ + Seq::<char>::empty()) by {
            reveal_strlit(";\n                const dataLength = ");
            reveal_strlit("const ");
            reveal_strlit("dataLength");
            reveal_strlit(" = ");
            reveal_strlit(";\n                ");
        }
        assert(";\n                const channels = "@ =~= Seq::<char>::empty() + ";"@ + "\n                const channels = "@) by {
            reveal_strlit(";\n                const channels = ");
            reveal_strlit(";");
            reveal_strlit("\n                const channels = ");
        }
        lemma_field_at("\n            (function() {\n                const encoderIndex = "@ + signed_decimal(encoder_index as int) + ";\n                const dataPtr = "@ + decimal(data_ptr as nat), ";\n                "@, "dataLength"@, Seq::<char>::empty(), decimal(data_length as nat), Seq::<char>::empty(), "\n                const channels = "@, decimal(channels as nat) + ";\n                const sample_rate = "@ + decimal(sample_rate as nat) + ";\n                const timestamp = "@ + timestamp + ";\n                const dataArray = new Uint8Array(Module.HEAPU8.buffer, dataPtr, dataLength);\n                window.unienc_webcodecs.video.push(encoderIndex, dataArray, {channels, sample_rate, timestamp});\n            })();\n            "@);
        lemma_concat_associative("\n            (function() {\n                const encoderIndex = "@ + signed_decimal(encoder_index as int) + ";\n                const dataPtr = "@ + decimal(data_ptr as nat) + ";\n                const dataLength = "@ + decimal(data_length as nat) + ";\n                const channels = "@, decimal(channels as nat), ";\n                const sample_rate = "@);
        lemma_concat_associative("\n            (function() {\n                const encoderIndex = "@ + signed_decimal(encoder_index as int) + ";\n                const dataPtr = "@ + decimal(data_ptr as nat) + ";\n                const dataLength = "@ + decimal(data_length as nat) + ";\n                const channels = "@, decimal(channels as nat) + ";\n                const sample_rate = "@, decimal(sample_rate as nat));
        lemma_concat_associative("\n            (function() {\n                const encoderIndex = "@ + signed_decimal(encoder_index as int) + ";\n                const dataPtr = "@ + decimal(data_ptr as nat) + ";\n                const dataLength = "@ + decimal(data_length as nat) + ";\n                const channels = "@, decimal(channels as nat) + ";\n                const sample_rate = "@ + decimal(sample_rate as nat), ";\n                const timestamp = "@);
        lemma_concat_associative("\n            (function() {\n                const encoderIndex = "@ + signed_decimal(encoder_index as int) + ";\n                const dataPtr = "@ + decimal(data_ptr as nat) + ";\n                const dataLength = "@ + decimal(data_length as nat) + ";\n                const channels = "@, decimal(channels as nat) + ";\n                const sample_rate = "@ + decimal(sample_rate as nat) + ";\n                const timestamp = "@, timestamp);
        lemma_concat_associative("\n            (function() {\n                const encoderIndex = "@ + signed_decimal(encoder_index as int) + ";\n                const dataPtr = "@ + decimal(data_ptr as nat) + ";\n                const dataLength = "@ + decimal(data_length as nat) + ";\n                const channels = "@, decimal(channels as nat) + ";\n                const sample_rate = "@ + decimal(sample_rate as nat) + ";\n                const timestamp = "@ + timestamp, ";\n                const dataArray = new Uint8Array(Module.HEAPU8.buffer, dataPtr, dataLength);\n                window.unienc_webcodecs.video.push(encoderIndex, dataArray, {channels, sample_rate, timestamp});\n            })();\n            "@);
    }
    assert(has_field(push_audio_frame_text(encoder_index, data_ptr, data_length, channels, sample_rate, timestamp), "channels"@, decimal(channels as nat))) by {
        assert(";\n                const channels = "@ =~= ";\n                "@ + "const "@ + "channels"@ + " = "@ + Seq::<char>::empty()) by {
            reveal_strlit(";\n                const channels = ");
            reveal_strlit("const ");
            reveal_strlit("channels");
            reveal_strlit(" = ");
            reveal_strlit(";\n                ");
        }
        assert(";\n                const sample_rate = "@ =~= Seq::<char>::empty() + ";"@ + "\n                const sample_rate = "@) by {
            reveal_strlit(";\n                const sample_rate = ");
            reveal_strlit(";");
            reveal_strlit("\n                const sample_rate = ");
        }
        lemma_field_at("\n            (function() {\n                const encoderIndex = "@ + signed_decimal(encoder_index as int) + ";\n                const dataPtr = "@ + decimal(data_ptr as nat) + ";\n                const dataLength = "@ + decimal(data_length as nat), ";\n                "@, "channels"@, Seq::<char>::empty(), decimal(channels as nat), Seq::<char>::empty(), "\n                const sample_rate = "@, decimal(sample_rate as nat) + ";\n                const timestamp = "@ + timestamp + ";\n                const dataArray = new Uint8Array(Module.HEAPU8.buffer, dataPtr, dataLength);\n                window.unienc_webcodecs.video.push(encoderIndex, dataArray, {channels, sample_rate, timestamp});\n            })();\n            "@);
        lemma_concat_associative("\n            (function() {\n                const encoderIndex = "@ + signed_decimal(encoder_index as int) + ";\n                const dataPtr = "@ + decimal(data_ptr as nat) + ";\n                const dataLength = "@ + decimal(data_length as nat) + ";\n                const channels = "@ + decimal(channels as nat) + ";\n                const sample_rate = "@, decimal(sample_rate as nat), ";\n                const timestamp = "@);
        lemma_concat_associative("\n            (function() {\n                const encoderIndex = "@ + signed_decimal(encoder_index as int) + ";\n                const dataPtr = "@ + decimal(data_ptr as nat) + ";\n                const dataLength = "@ + decimal(data_length as nat) + ";\n                const channels = "@ + decimal(channels as nat) + ";\n                const sample_rate = "@, decimal(sample_rate as nat) + ";\n                const timestamp = "@, timestamp);
        lemma_concat_associative("\n            (function() {\n                const encoderIndex = "@ + signed_decimal(encoder_index as int) + ";\n                const dataPtr = "@ + decimal(data_ptr as nat) + ";\n                const dataLength = "@ + decimal(data_length as nat) + ";\n                const channels = "@ + decimal(channels as nat) + ";\n                const sample_rate = "@, decimal(sample_rate as nat) + ";\n                const timestamp = "@ + timestamp, ";\n                const dataArray = new Uint8Array(Module.HEAPU8.buffer, dataPtr, dataLength);\n                window.unienc_webcodecs.video.push(encoderIndex, dataArray, {channels, sample_rate, timestamp});\n            })();\n            "@);
    }
    assert(has_field(push_audio_frame_text(encoder_index, data_ptr, data_length, channels, sample_rate, timestamp), "sample_rate"@, decimal(sample_rate as nat))) by {
        assert(";\n                const sample_rate = "@ =~= ";\n                "@ + "const "@ + "sample_rate"@ + " = "@ + Seq::<char>::empty()) by {
            reveal_strlit(";\n                const sample_rate = ");
            reveal_strlit("const ");
            reveal_strlit("sample_rate");
            reveal_strlit(" = ");
            reveal_strlit(";\n                ");
        }
        assert(";\n                const timestamp = "@ =~= Seq::<char>::empty() + ";"@ + "\n                const timestamp = "@) by {
            reveal_strlit(";\n                const timestamp = ");
            reveal_strlit(";");
            reveal_strlit("\n                const timestamp = ");
        }
        lemma_field_at("\n            (function() {\n                const encoderIndex = "@ + signed_decimal(encoder_index as int) + ";\n                const dataPtr = "@ + decimal(data_ptr as nat) + ";\n                const dataLength = "@ + decimal(data_length as nat) + ";\n                const channels = "@ + decimal(channels as nat), ";\n                "@, "sample_rate"@, Seq::<char>::empty(), decimal(sample_rate as nat), Seq::<char>::empty(), "\n                const timestamp = "@, timestamp + ";\n                const dataArray = new Uint8Array(Module.HEAPU8.buffer, dataPtr, dataLength);\n                window.unienc_webcodecs.video.push(encoderIndex, dataArray, {channels, sample_rate, timestamp});\n            })();\n            "@);
        lemma_concat_associative("\n            (function() {\n                const encoderIndex = "@ + signed_decimal(encoder_index as int) + ";\n                const dataPtr = "@ + decimal(data_ptr as nat) + ";\n                const dataLength = "@ + decimal(data_length as nat) + ";\n                const channels = "@ + decimal(channels as nat) + ";\n                const sample_rate = "@ + decimal(sample_rate as nat) + ";\n                const timestamp = "@, timestamp, ";\n                const dataArray = new Uint8Array(Module.HEAPU8.buffer, dataPtr, dataLength);\n                window.unienc_webcodecs.video.push(encoderIndex, dataArray, {channels, sample_rate, timestamp});\n            })();\n            "@);
    }
    assert(has_field(push_audio_frame_text(encoder_index, data_ptr, data_length, channels, sample_rate, timestamp), "timestamp"@, timestamp)) by {
        assert(";\n                const timestamp = "@ =~= ";\n                "@ + "const "@ + "timestamp"@ + " = "@ + Seq::<char>::empty()) by {
            reveal_strlit(";\n                const timestamp = ");
            reveal_strlit("const ");
            reveal_strlit("timestamp");
            reveal_strlit(" = ");
            reveal_strlit(";\n                ");
        }
        assert(";\n                const dataArray = new Uint8Array(Module.HEAPU8.buffer, dataPtr, dataLength);\n                window.unienc_webcodecs.video.push(encoderIndex, dataArray, {channels, sample_rate, timestamp});\n            })();\n            "@ =~= Seq::<char>::empty() + ";"@ + "\n                const dataArray = new Uint8Array(Module.HEAPU8.buffer, dataPtr, dataLength);\n                window.unienc_webcodecs.video.push(encoderIndex, dataArray, {channels, sample_rate, timestamp});\n            })();\n            "@) by {
            reveal_strlit(";\n                const dataArray = new Uint8Array(Module.HEAPU8.buffer, dataPtr, dataLength);\n                window.unienc_webcodecs.video.push(encoderIndex, dataArray, {channels, sample_rate, timestamp});\n            })();\n            ");
            reveal_strlit(";");
            reveal_strlit("\n                const dataArray = new Uint8Array(Module.HEAPU8.buffer, dataPtr, dataLength);\n                window.unienc_webcodecs.video.push(encoderIndex, dataArray, {channels, sample_rate, timestamp});\n            })();\n            ");
        }
        lemma_field_at("\n            (function() {\n                const encoderIndex = "@ + signed_decimal(encoder_index as int) + ";\n                const dataPtr = "@ + decimal(data_ptr as nat) + ";\n                const dataLength = "@ + decimal(data_length as nat) + ";\n                const channels = "@ + decimal(channels as nat) + ";\n                const sample_rate = "@ + decimal(sample_rate as nat), ";\n                "@, "timestamp"@, Seq::<char>::empty(), timestamp, Seq::<char>::empty(), "\n                const dataArray = new Uint8Array(Module.HEAPU8.buffer, dataPtr, dataLength);\n                window.unienc_webcodecs.video.push(encoderIndex, dataArray, {channels, sample_rate, timestamp});\n            })();\n            "@, Seq::<char>::empty());
        assert("\n            (function() {\n                const encoderIndex = "@ + signed_decimal(encoder_index as int) + ";\n                const dataPtr = "@ + decimal(data_ptr as nat) + ";\n                const dataLength = "@ + decimal(data_length as nat) + ";\n                const channels = "@ + decimal(channels as nat) + ";\n                const sample_rate = "@ + decimal(sample_rate as nat) + ";\n                const timestamp = "@ + timestamp + ";\n                const dataArray = new Uint8Array(Module.HEAPU8.buffer, dataPtr, dataLength);\n                window.unienc_webcodecs.video.push(encoderIndex, dataArray, {channels, sample_rate, timestamp});\n            })();\n            "@ =~= "\n            (function() {\n                const encoderIndex = "@ + signed_decimal(encoder_index as int) + ";\n                const dataPtr = "@ + decimal(data_ptr as nat) + ";\n                const dataLength = "@ + decimal(data_length as nat) + ";\n                const channels = "@ + decimal(channels as nat) + ";\n                const sample_rate = "@ + decimal(sample_rate as nat) + ";\n                const timestamp = "@ + timestamp + ";\n                const dataArray = new Uint8Array(Module.HEAPU8.buffer, dataPtr, dataLength);\n                window.unienc_webcodecs.video.push(encoderIndex, dataArray, {channels, sample_rate, timestamp});\n            })();\n            "@ + Seq::<char>::empty());
    }
}

/// Every constant of the script `flush_audio` holds the text of the argument it is
/// named after.
pub proof fn lemma_flush_audio_fields(id: i32, on_complete: usize, on_complete_ctx: usize)
    ensures
        has_field(flush_audio_text(id, on_complete, on_complete_ctx), "index"@, signed_decimal(id as int)),
        has_field(flush_audio_text(id, on_complete, on_complete_ctx), "onComplete"@, decimal(on_complete as nat)),
        has_field(flush_audio_text(id, on_complete, on_complete_ctx), "onCompleteCtx"@, decimal(on_complete_ctx as nat)),
{
    assert(has_field(flush_audio_text(id, on_complete, on_complete_ctx), "index"@, signed_decimal(id as int))) by {
        assert("\n            (function() {\n                const index = "@ =~= "\n            (function() {\n                "@ + "const "@ + "index"@ + " = "@ + Seq::<char>::empty()) by {
            reveal_strlit("\n            (function() {\n                const index = ");
            reveal_strlit("const ");
            reveal_strlit("index");
            reveal_strlit(" = ");
            reveal_strlit("\n            (function() {\n                ");
        }
        assert(";\n                const onComplete = "@ =~= Seq::<char>::empty() + ";"@ + "\n                const onComplete = "@) by {
            reveal_strlit(";\n                const onComplete = ");
            reveal_strlit(";");
            reveal_strlit("\n                const onComplete = ");
        }
        lemma_field_at(Seq::<char>::empty(), "\n            (function() {\n                "@, "index"@, Seq::<char>::empty(), signed_decimal(id as int), Seq::<char>::empty(), "\n                const onComplete = "@, decimal(on_complete as nat) + ";\n                const onCompleteCtx = "@ + decimal(on_complete_ctx as nat) + ";\n                window.unienc_webcodecs.audio.flush(index, onComplete, onCompleteCtx);\n            })();\n            "@);
        lemma_concat_associative(Seq::<char>::empty() + "\n            (function() {\n                const index = "@ + signed_decimal(id as int) + ";\n                const onComplete = "@, decimal(on_complete as nat), ";\n                const onCompleteCtx = "@);
        lemma_concat_associative(Seq::<char>::empty() + "\n            (function() {\n                const index = "@ + signed_decimal(id as int) + ";\n                const onComplete = "@, decimal(on_complete as nat) + ";\n                const onCompleteCtx = "@, decimal(on_complete_ctx as nat));
        lemma_concat_associative(Seq::<char>::empty() + "\n            (function() {\n                const index = "@ + signed_decimal(id as int) + ";\n                const onComplete = "@, decimal(on_complete as nat) + ";\n                const onCompleteCtx = "@ + decimal(on_complete_ctx as nat), ";\n                window.unienc_webcodecs.audio.flush(index, onComplete, onCompleteCtx);\n            })();\n            "@);
    }
    assert(has_field(flush_audio_text(id, on_complete, on_complete_ctx), "onComplete"@, decimal(on_complete as nat))) by {
        assert(";\n                const onComplete = "@ =~= ";\n                "@ + "const "@ + "onComplete"@ + " = "@ + Seq::<char>::empty()) by {
            reveal_strlit(";\n                const onComplete = ");
            reveal_strlit("const ");
            reveal_strlit("onComplete");
            reveal_strlit(" = ");
            reveal_strlit(";\n                ");
        }
        assert(";\n                const onCompleteCtx = "@ =~= Seq::<char>::empty() + ";"@ + "\n                const onCompleteCtx = "@) by {
            reveal_strlit(";\n                const onCompleteCtx = ");
            reveal_strlit(";");
            reveal_strlit("\n                const onCompleteCtx = ");
        }
        lemma_field_at("\n            (function() {\n                const index = "@ + signed_decimal(id as int), ";\n                "@, "onComplete"@, Seq::<char>::empty(), decimal(on_complete as nat), Seq::<char>::empty(), "\n                const onCompleteCtx = "@, decimal(on_complete_ctx as nat) + ";\n                window.unienc_webcodecs.audio.flush(index, onComplete, onCompleteCtx);\n            })();\n            "@);
        lemma_concat_associative("\n            (function() {\n                const index = "@ + signed_decimal(id as int) + ";\n                const onComplete = "@ + decimal(on_complete as nat) + ";\n                const onCompleteCtx = "@, decimal(on_complete_ctx as nat), ";\n                window.unienc_webcodecs.audio.flush(index, onComplete, onCompleteCtx);\n            })();\n            "@);
    }
    assert(has_field(flush_audio_text(id, on_complete, on_complete_ctx), "onCompleteCtx"@, decimal(on_complete_ctx as nat))) by {
        assert(";\n                const onCompleteCtx = "@ =~= ";\n                "@ + "const "@ + "onCompleteCtx"@ + " = "@ + Seq::<char>::empty()) by {
            reveal_strlit(";\n                const onCompleteCtx = ");
            reveal_strlit("const ");
            reveal_strlit("onCompleteCtx");
            reveal_strlit(" = ");
            reveal_strlit(";\n                ");
        }
        assert(";\n                window.unienc_webcodecs.audio.flush(index, onComplete, onCompleteCtx);\n            })();\n            "@ =~= Seq::<char>::empty() + ";"@ + "\n                window.unienc_webcodecs.audio.flush(index, onComplete, onCompleteCtx);\n            })();\n            "@) by {
            reveal_strlit(";\n                window.unienc_webcodecs.audio.flush(index, onComplete, onCompleteCtx);\n            })();\n            ");
            reveal_strlit(";");
            reveal_strlit("\n                window.unienc_webcodecs.audio.flush(index, onComplete, onCompleteCtx);\n            })();\n            ");
        }
        lemma_field_at("\n            (function() {\n                const index = "@ + signed_decimal(id as int) + ";\n                const onComplete = "@ + decimal(on_complete as nat), ";\n                "@, "onCompleteCtx"@, Seq::<char>::empty(), decimal(on_complete_ctx as nat), Seq::<char>::empty(), "\n                window.unienc_webcodecs.audio.flush(index, onComplete, onCompleteCtx);\n            })();\n            "@, Seq::<char>::empty());
        assert("\n            (function() {\n                const index = "@ + signed_decimal(id as int) + ";\n                const onComplete = "@ + decimal(on_complete as nat) + ";\n                const onCompleteCtx = "@ + decimal(on_complete_ctx as nat) + ";\n                window.unienc_webcodecs.audio.flush(index, onComplete, onCompleteCtx);\n            })();\n            "@ =~= "\n            (function() {\n                const index = "@ + signed_decimal(id as int) + ";\n                const onComplete = "@ + decimal(on_complete as nat) + ";\n                const onCompleteCtx = "@ + decimal(on_complete_ctx as nat) + ";\n                window.unienc_webcodecs.audio.flush(index, onComplete, onCompleteCtx);\n            })();\n            "@ + Seq::<char>::empty());
    }
}

/// Every constant of the script `free_audio_encoder` holds the text of the argument it is
/// named after.
pub proof fn lemma_free_audio_encoder_fields(encoder_id: i32)
    ensures
        has_field(free_audio_encoder_text(encoder_id), "encoderId"@, signed_decimal(encoder_id as int)),
{
    assert(has_field(free_audio_encoder_text(encoder_id), "encoderId"@, signed_decimal(encoder_id as int))) by {
        assert("\n            (function() {\n                const encoderId = "@ =~= "\n            (function() {\n                "@ + "const "@ + "encoderId"@ + " = "@ + Seq::<char>::empty()) by {
            reveal_strlit("\n            (function() {\n                const encoderId = ");
            reveal_strlit("const ");
            reveal_strlit("encoderId");
            reveal_strlit(" = ");
            reveal_strlit("\n            (function() {\n                ");
        }
        assert(";\n                window.unienc_webcodecs.audio.free(encoderId);\n            })();\n            "@ =~= Seq::<char>::empty() + ";"@ + "\n                window.unienc_webcodecs.audio.free(encoderId);\n            })();\n            "@) by {
            reveal_strlit(";\n                window.unienc_webcodecs.audio.free(encoderId);\n            })();\n            ");
            reveal_strlit(";");
            reveal_strlit("\n                window.unienc_webcodecs.audio.free(encoderId);\n            })();\n            ");
        }
        lemma_field_at(Seq::<char>::empty(), "\n            (function() {\n                "@, "encoderId"@, Seq::<char>::empty(), signed_decimal(encoder_id as int), Seq::<char>::empty(), "\n                window.unienc_webcodecs.audio.free(encoderId);\n            })();\n            "@, Seq::<char>::empty());
        assert(Seq::<char>::empty() + "\n            (function() {\n                const encoderId = "@ + signed_decimal(encoder_id as int) + ";\n                window.unienc_webcodecs.audio.free(encoderId);\n            })();\n            "@ =~= Seq::<char>::empty() + "\n            (function() {\n                const encoderId = "@ + signed_decimal(encoder_id as int) + ";\n                window.unienc_webcodecs.audio.free(encoderId);\n            })();\n            "@ + Seq::<char>::empty());
    }
}

/// Every constant of the script `make_download` holds the text of the argument it is
/// named after.
pub proof fn lemma_make_download_fields(parts_ptr: usize, parts_len: usize, mime_ptr: usize, filename_ptr: usize)
    ensures
        has_field(make_download_text(parts_ptr, parts_len, mime_ptr, filename_ptr), "partsPtr"@, decimal(parts_ptr as nat)),
        has_field(make_download_text(parts_ptr, parts_len, mime_ptr, filename_ptr), "partsLen"@, decimal(parts_len as nat)),
        has_field(make_download_text(parts_ptr, parts_len, mime_ptr, filename_ptr), "mimePtr"@, "'"@ + decimal(mime_ptr as nat) + "'"@),
        has_field(make_download_text(parts_ptr, parts_len, mime_ptr, filename_ptr), "filenamePtr"@, "'"@ + decimal(filename_ptr as nat) + "'"@),
{
    assert(has_field(make_download_text(parts_ptr, parts_len, mime_ptr, filename_ptr), "partsPtr"@, decimal(parts_ptr as nat))) by {
        assert("\n            (function() {\n                const partsPtr = "@ =~= "\n            (function() {\n                "@ + "const "@ + "partsPtr"@ + " = "@ + Seq::<char>::empty()) by {
            reveal_strlit("\n            (function() {\n                const partsPtr = ");
            reveal_strlit("const ");
            reveal_strlit("partsPtr");
            reveal_strlit(" = ");
            reveal_strlit("\n            (function() {\n                ");
        }
        assert(";\n                const partsLen = "@ =~= Seq::<char>::empty() + ";"@ + "\n                const partsLen = "@) by {
            reveal_strlit(";\n                const partsLen = ");
            reveal_strlit(";");
            reveal_strlit("\n                const partsLen = ");
        }
        lemma_field_at(Seq::<char>::empty(), "\n            (function() {\n                "@, "partsPtr"@, Seq::<char>::empty(), decimal(parts_ptr as nat), Seq::<char>::empty(), "\n                const partsLen = "@, decimal(parts_len as nat) + ";\n                const mimePtr = '"@ + decimal(mime_ptr as nat) + "';\n                const filenamePtr = '"@ + decimal(filename_ptr as nat) + "';\n                window.unienc_webcodecs.makeDownload(partsPtr, partsLen, mimePtr, filenamePtr);\n            })();\n            "@);
        lemma_concat_associative(Seq::<char>::empty() + "\n            (function() {\n                const partsPtr = "@ + decimal(parts_ptr as nat) + ";\n                const partsLen = "@, decimal(parts_len as nat), ";\n                const mimePtr = '"@);
        lemma_concat_associative(Seq::<char>::empty() + "\n            (function() {\n                const partsPtr = "@ + decimal(parts_ptr as nat) + ";\n                const partsLen = "@, decimal(parts_len as nat) + ";\n                const mimePtr = '"@, decimal(mime_ptr as nat));
        lemma_concat_associative(Seq::<char>::empty() + "\n            (function() {\n                const partsPtr = "@ + decimal(parts_ptr as nat) + ";\n                const partsLen = "@, decimal(parts_len as nat) + ";\n                const mimePtr = '"@ + decimal(mime_ptr as nat), "';\n                const filenamePtr = '"@);
        lemma_concat_associative(Seq::<char>::empty() + "\n            (function() {\n                const partsPtr = "@ + decimal(parts_ptr as nat) + ";\n                const partsLen = "@, decimal(parts_len as nat) + ";\n                const mimePtr = '"@ + decimal(mime_ptr as nat) + "';\n                const filenamePtr = '"@, decimal(filename_ptr as nat));
        lemma_concat_associative(Seq::<char>::empty() + "\n            (function() {\n                const partsPtr = "@ + decimal(parts_ptr as nat) + ";\n                const partsLen = "@, decimal(parts_len as nat) + ";\n                const mimePtr = '"@ + decimal(mime_ptr as nat) + "';\n                const filenamePtr = '"@ + decimal(filename_ptr as nat), "';\n                window.unienc_webcodecs.makeDownload(partsPtr, partsLen, mimePtr, filenamePtr);\n            })();\n            "@);
    }
    assert(has_field(make_download_text(parts_ptr, parts_len, mime_ptr, filename_ptr), "partsLen"@, decimal(parts_len as nat))) by {
        assert(";\n                const partsLen = "@ =~= ";\n                "@ + "const "@ + "partsLen"@ + " = "@ + Seq::<char>::empty()) by {
            reveal_strlit(";\n                const partsLen = ");
            reveal_strlit("const ");
            reveal_strlit("partsLen");
            reveal_strlit(" = ");
            reveal_strlit(";\n                ");
        }
        assert(";\n                const mimePtr = '"@ =~= Seq::<char>::empty() + ";"@ + "\n                const mimePtr = '"@) by {
            reveal_strlit(";\n                const mimePtr = '");
            reveal_strlit(";");
            reveal_strlit("\n                const mimePtr = '");
        }
        lemma_field_at("\n            (function() {\n                const partsPtr = "@ + decimal(parts_ptr as nat), ";\n                "@, "partsLen"@, Seq::<char>::empty(), decimal(parts_len as nat), Seq::<char>::empty(), "\n                const mimePtr = '"@, decimal(mime_ptr as nat) + "';\n                const filenamePtr = '"@ + decimal(filename_ptr as nat) + "';\n                window.unienc_webcodecs.makeDownload(partsPtr, partsLen, mimePtr, filenamePtr);\n            })();\n            "@);
        lemma_concat_associative("\n            (function() {\n                const partsPtr = "@ + decimal(parts_ptr as nat) + ";\n                const partsLen = "@ + decimal(parts_len as nat) + ";\n                const mimePtr = '"@, decimal(mime_ptr as nat), "';\n                const filenamePtr = '"@);
        lemma_concat_associative("\n            (function() {\n                const partsPtr = "@ + decimal(parts_ptr as nat) + ";\n                const partsLen = "@ + decimal(parts_len as nat) + ";\n                const mimePtr = '"@, decimal(mime_ptr as nat) + "';\n                const filenamePtr = '"@, decimal(filename_ptr as nat));
        lemma_concat_associative("\n            (function() {\n                const partsPtr = "@ + decimal(parts_ptr as nat) + ";\n                const partsLen = "@ + decimal(parts_len as nat) + ";\n                const mimePtr = '"@, decimal(mime_ptr as nat) + "';\n                const filenamePtr = '"@ + decimal(filename_ptr as nat), "';\n                window.unienc_webcodecs.makeDownload(partsPtr, partsLen, mimePtr, filenamePtr);\n            })();\n            "@);
    }
    assert(has_field(make_download_text(parts_ptr, parts_len, mime_ptr, filename_ptr), "mimePtr"@, "'"@ + decimal(mime_ptr as nat) + "'"@)) by {
        assert(";\n                const mimePtr = '"@ =~= ";\n                "@ + "const "@ + "mimePtr"@ + " = "@ + "'"@) by {
            reveal_strlit(";\n                const mimePtr = '");
            reveal_strlit("const ");
            reveal_strlit("mimePtr");
            reveal_strlit(" = ");
            reveal_strlit(";\n                ");
            reveal_strlit("'");
        }
        assert("';\n                const filenamePtr = '"@ =~= "'"@ + ";"@ + "\n                const filenamePtr = '"@) by {
            reveal_strlit("';\n                const filenamePtr = '");
            reveal_strlit(";");
            reveal_strlit("\n                const filenamePtr = '");
            reveal_strlit("'");
        }
        lemma_field_at("\n            (function() {\n                const partsPtr = "@ + decimal(parts_ptr as nat) + ";\n                const partsLen = "@ + decimal(parts_len as nat), ";\n                "@, "mimePtr"@, "'"@, decimal(mime_ptr as nat), "'"@, "\n                const filenamePtr = '"@, decimal(filename_ptr as nat) + "';\n                window.unienc_webcodecs.makeDownload(partsPtr, partsLen, mimePtr, filenamePtr);\n            })();\n            "@);
        lemma_concat_associative("\n            (function() {\n                const partsPtr = "@ + decimal(parts_ptr as nat) + ";\n                const partsLen = "@ + decimal(parts_len as nat) + ";\n                const mimePtr = '"@ + decimal(mime_ptr as nat) + "';\n                const filenamePtr = '"@, decimal(filename_ptr as nat), "';\n                window.unienc_webcodecs.makeDownload(partsPtr, partsLen, mimePtr, filenamePtr);\n            })();\n            "@);
    }
    assert(has_field(make_download_text(parts_ptr, parts_len, mime_ptr, filename_ptr), "filenamePtr"@, "'"@ + decimal(filename_ptr as nat) + "'"@)) by {
        assert("';\n                const filenamePtr = '"@ =~= "';\n                "@ + "const "@ + "filenamePtr"@ + " = "@ + "'"@) by {
            reveal_strlit("';\n                const filenamePtr = '");
            reveal_strlit("const ");
            reveal_strlit("filenamePtr");
            reveal_strlit(" = ");
            reveal_strlit("';\n                ");
            reveal_strlit("'");
        }
        assert("';\n                window.unienc_webcodecs.makeDownload(partsPtr, partsLen, mimePtr, filenamePtr);\n            })();\n            "@ =~= "'"@ + ";"@ + "\n                window.unienc_webcodecs.makeDownload(partsPtr, partsLen, mimePtr, filenamePtr);\n            })();\n            "@) by {
            reveal_strlit("';\n                window.unienc_webcodecs.makeDownload(partsPtr, partsLen, mimePtr, filenamePtr);\n            })();\n            ");
            reveal_strlit(";");
            reveal_strlit("\n                window.unienc_webcodecs.makeDownload(partsPtr, partsLen, mimePtr, filenamePtr);\n            })();\n            ");
            reveal_strlit("'");
        }
        lemma_field_at("\n            (function() {\n                const partsPtr = "@ + decimal(parts_ptr as nat) + ";\n                const partsLen = "@ + decimal(parts_len as nat) + ";\n                const mimePtr = '"@ + decimal(mime_ptr as nat), "';\n                "@, "filenamePtr"@, "'"@, decimal(filename_ptr as nat), "'"@, "\n                window.unienc_webcodecs.makeDownload(partsPtr, partsLen, mimePtr, filenamePtr);\n            })();\n            "@, Seq::<char>::empty());
        assert("\n            (function() {\n                const partsPtr = "@ + decimal(parts_ptr as nat) + ";\n                const partsLen = "@ + decimal(parts_len as nat) + ";\n                const mimePtr = '"@ + decimal(mime_ptr as nat) + "';\n                const filenamePtr = '"@ + decimal(filename_ptr as nat) + "';\n                window.unienc_webcodecs.makeDownload(partsPtr, partsLen, mimePtr, filenamePtr);\n            })();\n            "@ =~= "\n            (function() {\n                const partsPtr = "@ + decimal(parts_ptr as nat) + ";\n                const partsLen = "@ + decimal(parts_len as nat) + ";\n                const mimePtr = '"@ + decimal(mime_ptr as nat) + "';\n                const filenamePtr = '"@ + decimal(filename_ptr as nat) + "';\n                window.unienc_webcodecs.makeDownload(partsPtr, partsLen, mimePtr, filenamePtr);\n            })();\n            "@ + Seq::<char>::empty());
    }
}

/// Text without a NUL character, which a C string can carry whole.
pub open spec fn nul_free(s: Seq<char>) -> bool {
    forall|k: int| 0 <= k < s.len() ==> #[trigger] s[k] != '\0'
}

/// Joining two texts without NUL gives a text without NUL.
pub broadcast proof fn lemma_nul_free_concat(a: Seq<char>, b: Seq<char>)
    requires
        nul_free(a),
        nul_free(b),
    ensures
        #[trigger] nul_free(a + b),
{
    assert forall|k: int| 0 <= k < (a + b).len() implies #[trigger] (a + b)[k] != '\0' by {
        if k < a.len() {
            assert((a + b)[k] == a[k]);
        } else {
            assert((a + b)[k] == b[k - a.len()]);
        }
    }
}

/// The text of a number or of a boolean holds no NUL.
pub proof fn lemma_value_texts_nul_free(n: nat, i: int, b: bool)
    ensures
        nul_free(decimal(n)),
        nul_free(signed_decimal(i)),
        nul_free(bool_text(b)),
{
    lemma_decimal_digits(n);
    if i < 0 {
        lemma_decimal_digits((-i) as nat);
        lemma_nul_free_concat(seq!['-'], decimal((-i) as nat));
    } else {
        lemma_decimal_digits(i as nat);
    }
    reveal_strlit("true");
    reveal_strlit("false");
}

/// The script `new_video_encoder` holds no NUL when the texts handed to it hold none,
/// so it always converts to a C string.
pub proof fn lemma_new_video_encoder_nul_free(width: u32, height: u32, bitrate: u32, framerate: Seq<char>, on_output: usize, on_output_ctx: usize, on_complete: usize, on_complete_ctx: usize)
    requires
        nul_free(framerate),
    ensures
        nul_free(new_video_encoder_text(width, height, bitrate, framerate, on_output, on_output_ctx, on_complete, on_complete_ctx)),
{
    broadcast use lemma_nul_free_concat;
    reveal_strlit("\n            (function() {\n                const width = ");
    assert(nul_free("\n            (function() {\n                const width = "@));
    lemma_value_texts_nul_free(width as nat, 0, true);
    reveal_strlit(";\n                const height = ");
    assert(nul_free(";\n                const height = "@));
    lemma_value_texts_nul_free(height as nat, 0, true);
    reveal_strlit(";\n                const bitrate = ");
    assert(nul_free(";\n                const bitrate = "@));
    lemma_value_texts_nul_free(bitrate as nat, 0, true);
    reveal_strlit(";\n                const framerate = ");
    assert(nul_free(";\n                const framerate = "@));
    reveal_strlit(";\n                const onOutput = ");
    assert(nul_free(";\n                const onOutput = "@));
    lemma_value_texts_nul_free(on_output as nat, 0, true);
    reveal_strlit(";\n                const onOutputCtx = ");
    assert(nul_free(";\n                const onOutputCtx = "@));
    lemma_value_texts_nul_free(on_output_ctx as nat, 0, true);
    reveal_strlit(";\n                const onComplete = ");
    assert(nul_free(";\n                const onComplete = "@));
    lemma_value_texts_nul_free(on_complete as nat, 0, true);
    reveal_strlit(";\n                const onCompleteCtx = ");
    assert(nul_free(";\n                const onCompleteCtx = "@));
    lemma_value_texts_nul_free(on_complete_ctx as nat, 0, true);
    reveal_strlit(";\n                window.unienc_webcodecs.video.new({ width, height, bitrate, framerate }, onOutput, onOutputCtx, onComplete, onCompleteCtx);\n            })();\n            ");
    assert(nul_free(";\n                window.unienc_webcodecs.video.new({ width, height, bitrate, framerate }, onOutput, onOutputCtx, onComplete, onCompleteCtx);\n            })();\n            "@));
}

/// The script `push_video_frame` holds no NUL when the texts handed to it hold none,
/// so it always converts to a C string.
pub proof fn lemma_push_video_frame_nul_free(encoder_index: i32, data_ptr: usize, data_length: usize, width: u32, height: u32, timestamp: Seq<char>, is_key: bool)
    requires
        nul_free(timestamp),
    ensures
        nul_free(push_video_frame_text(encoder_index, data_ptr, data_length, width, height, timestamp, is_key)),
{
    broadcast use lemma_nul_free_concat;
    reveal_strlit("\n            (function() {\n                const encoderIndex = ");
    assert(nul_free("\n            (function() {\n                const encoderIndex = "@));
    lemma_value_texts_nul_free(0, encoder_index as int, true);
    reveal_strlit(";\n                const dataPtr = ");
    assert(nul_free(";\n                const dataPtr = "@));
    lemma_value_texts_nul_free(data_ptr as nat, 0, true);
    reveal_strlit(";\n                const dataLength = ");
    assert(nul_free(";\n                const dataLength = "@));
    lemma_value_texts_nul_free(data_length as nat, 0, true);
    reveal_strlit(";\n                const width = ");
    assert(nul_free(";\n                const width = "@));
    lemma_value_texts_nul_free(width as nat, 0, true);
    reveal_strlit(";\n                const height = ");
    assert(nul_free(";\n                const height = "@));
    lemma_value_texts_nul_free(height as nat, 0, true);
    reveal_strlit(";\n                const timestamp = ");
    assert(nul_free(";\n                const timestamp = "@));
    reveal_strlit(";\n                const isKey = ");
    assert(nul_free(";\n                const isKey = "@));
    lemma_value_texts_nul_free(0, 0, is_key);
    reveal_strlit(";\n                const dataArray = Module.HEAPU8.subarray(dataPtr, dataPtr + dataLength);\n                window.unienc_webcodecs.video.push(encoderIndex, dataArray, {width, height, timestamp, isKey});\n            })();\n            ");
    assert(nul_free(";\n                const dataArray = Module.HEAPU8.subarray(dataPtr, dataPtr + dataLength);\n                window.unienc_webcodecs.video.push(encoderIndex, dataArray, {width, height, timestamp, isKey});\n            })();\n            "@));
}

/// The script `flush_video` holds no NUL when the texts handed to it hold none,
/// so it always converts to a C string.
pub proof fn lemma_flush_video_nul_free(id: i32, on_complete: usize, on_complete_ctx: usize)
    ensures
        nul_free(flush_video_text(id, on_complete, on_complete_ctx)),
{
    broadcast use lemma_nul_free_concat;
    reveal_strlit("\n            (function() {\n                const index = ");
    assert(nul_free("\n            (function() {\n                const index = "@));
    lemma_value_texts_nul_free(0, id as int, true);
    reveal_strlit(";\n                const onComplete = ");
    assert(nul_free(";\n                const onComplete = "@));
    lemma_value_texts_nul_free(on_complete as nat, 0, true);
    reveal_strlit(";\n                const onCompleteCtx = ");
    assert(nul_free(";\n                const onCompleteCtx = "@));
    lemma_value_texts_nul_free(on_complete_ctx as nat, 0, true);
    reveal_strlit(";\n                window.unienc_webcodecs.video.flush(index, onComplete, onCompleteCtx);\n            })();\n            ");
    assert(nul_free(";\n                window.unienc_webcodecs.video.flush(index, onComplete, onCompleteCtx);\n            })();\n            "@));
}

/// The script `free_video_encoder` holds no NUL when the texts handed to it hold none,
/// so it always converts to a C string.
pub proof fn lemma_free_video_encoder_nul_free(encoder_id: i32)
    ensures
        nul_free(free_video_encoder_text(encoder_id)),
{
    broadcast use lemma_nul_free_concat;
    reveal_strlit("\n            (function() {\n                const encoderId = ");
    assert(nul_free("\n            (function() {\n                const encoderId = "@));
    lemma_value_texts_nul_free(0, encoder_id as int, true);
    reveal_strlit(";\n                window.unienc_webcodecs.video.free(encoderId);\n            })();\n            ");
    assert(nul_free(";\n                window.unienc_webcodecs.video.free(encoderId);\n            })();\n            "@));
}

/// The script `new_audio_encoder` holds no NUL when the texts handed to it hold none,
/// so it always converts to a C string.
pub proof fn lemma_new_audio_encoder_nul_free(bitrate: u32, channels: u32, sample_rate: u32, on_output: usize, on_output_ctx: usize, on_complete: usize, on_complete_ctx: usize)
    ensures
        nul_free(new_audio_encoder_text(bitrate, channels, sample_rate, on_output, on_output_ctx, on_complete, on_complete_ctx)),
{
    broadcast use lemma_nul_free_concat;
    reveal_strlit("\n            (function() {\n                const bitrate = ");
    assert(nul_free("\n            (function() {\n                const bitrate = "@));
    lemma_value_texts_nul_free(bitrate as nat, 0, true);
    reveal_strlit(";\n                const channels = ");
    assert(nul_free(";\n                const channels = "@));
    lemma_value_texts_nul_free(channels as nat, 0, true);
    reveal_strlit(";\n                const sample_rate = ");
    assert(nul_free(";\n                const sample_rate = "@));
    lemma_value_texts_nul_free(sample_rate as nat, 0, true);
    reveal_strlit(";\n                const onOutput = ");
    assert(nul_free(";\n                const onOutput = "@));
    lemma_value_texts_nul_free(on_output as nat, 0, true);
    reveal_strlit(";\n                const onOutputCtx = ");
    assert(nul_free(";\n                const onOutputCtx = "@));
    lemma_value_texts_nul_free(on_output_ctx as nat, 0, true);
    reveal_strlit(";\n                const onComplete = ");
    assert(nul_free(";\n                const onComplete = "@));
    lemma_value_texts_nul_free(on_complete as nat, 0, true);
    reveal_strlit(";\n                const onCompleteCtx = ");
    assert(nul_free(";\n                const onCompleteCtx = "@));
    lemma_value_texts_nul_free(on_complete_ctx as nat, 0, true);
    reveal_strlit(";\n                window.unienc_webcodecs.video.new({ bitrate, channels, sample_rate }, onOutput, onOutputCtx, onComplete, onCompleteCtx);\n            })();\n            ");
    assert(nul_free(";\n                window.unienc_webcodecs.video.new({ bitrate, channels, sample_rate }, onOutput, onOutputCtx, onComplete, onCompleteCtx);\n            })();\n            "@));
}

/// The script `push_audio_frame` holds no NUL when the texts handed to it hold none,
/// so it always converts to a C string.
pub proof fn lemma_push_audio_frame_nul_free(encoder_index: i32, data_ptr: usize, data_length: usize, channels: u32, sample_rate: u32, timestamp: Seq<char>)
    requires
        nul_free(timestamp),
    ensures
        nul_free(push_audio_frame_text(encoder_index, data_ptr, data_length, channels, sample_rate, timestamp)),
{
    broadcast use lemma_nul_free_concat;
    reveal_strlit("\n            (function() {\n                const encoderIndex = ");
    assert(nul_free("\n            (function() {\n                const encoderIndex = "@));
    lemma_value_texts_nul_free(0, encoder_index as int, true);
    reveal_strlit(";\n                const dataPtr = ");
    assert(nul_free(";\n                const dataPtr = "@));
    lemma_value_texts_nul_free(data_ptr as nat, 0, true);
    reveal_strlit(";\n                const dataLength = ");
    assert(nul_free(";\n                const dataLength = "@));
    lemma_value_texts_nul_free(data_length as nat, 0, true);
    reveal_strlit(";\n                const channels = ");
    assert(nul_free(";\n                const channels = "@));
    lemma_value_texts_nul_free(channels as nat, 0, true);
    reveal_strlit(";\n                const sample_rate = ");
    assert(nul_free(";\n                const sample_rate = "@));
    lemma_value_texts_nul_free(sample_rate as nat, 0, true);
    reveal_strlit(";\n                const timestamp = ");
    assert(nul_free(";\n                const timestamp = "@));
    reveal_strlit(";\n                const dataArray = new Uint8Array(Module.HEAPU8.buffer, dataPtr, dataLength);\n                window.unienc_webcodecs.video.push(encoderIndex, dataArray, {channels, sample_rate, timestamp});\n            })();\n            ");
    assert(nul_free(";\n                const dataArray = new Uint8Array(Module.HEAPU8.buffer, dataPtr, dataLength);\n                window.unienc_webcodecs.video.push(encoderIndex, dataArray, {channels, sample_rate, timestamp});\n            })();\n            "@));
}

/// The script `flush_audio` holds no NUL when the texts handed to it hold none,
/// so it always converts to a C string.
pub proof fn lemma_flush_audio_nul_free(id: i32, on_complete: usize, on_complete_ctx: usize)
    ensures
        nul_free(flush_audio_text(id, on_complete, on_complete_ctx)),
{
    broadcast use lemma_nul_free_concat;
    reveal_strlit("\n            (function() {\n                const index = ");
    assert(nul_free("\n            (function() {\n                const index = "@));
    lemma_value_texts_nul_free(0, id as int, true);
    reveal_strlit(";\n                const onComplete = ");
    assert(nul_free(";\n                const onComplete = "@));
    lemma_value_texts_nul_free(on_complete as nat, 0, true);
    reveal_strlit(";\n                const onCompleteCtx = ");
    assert(nul_free(";\n                const onCompleteCtx = "@));
    lemma_value_texts_nul_free(on_complete_ctx as nat, 0, true);
    reveal_strlit(";\n                window.unienc_webcodecs.audio.flush(index, onComplete, onCompleteCtx);\n            })();\n            ");
    assert(nul_free(";\n                window.unienc_webcodecs.audio.flush(index, onComplete, onCompleteCtx);\n            })();\n            "@));
}

/// The script `free_audio_encoder` holds no NUL when the texts handed to it hold none,
/// so it always converts to a C string.
pub proof fn lemma_free_audio_encoder_nul_free(encoder_id: i32)
    ensures
        nul_free(free_audio_encoder_text(encoder_id)),
{
    broadcast use lemma_nul_free_concat;
    reveal_strlit("\n            (function() {\n                const encoderId = ");
    assert(nul_free("\n            (function() {\n                const encoderId = "@));
    lemma_value_texts_nul_free(0, encoder_id as int, true);
    reveal_strlit(";\n                window.unienc_webcodecs.audio.free(encoderId);\n            })();\n            ");
    assert(nul_free(";\n                window.unienc_webcodecs.audio.free(encoderId);\n            })();\n            "@));
}

/// The script `make_download` holds no NUL when the texts handed to it hold none,
/// so it always converts to a C string.
pub proof fn lemma_make_download_nul_free(parts_ptr: usize, parts_len: usize, mime_ptr: usize, filename_ptr: usize)
    ensures
        nul_free(make_download_text(parts_ptr, parts_len, mime_ptr, filename_ptr)),
{
    broadcast use lemma_nul_free_concat;
    reveal_strlit("\n            (function() {\n                const partsPtr = ");
    assert(nul_free("\n            (function() {\n                const partsPtr = "@));
    lemma_value_texts_nul_free(parts_ptr as nat, 0, true);
    reveal_strlit(";\n                const partsLen = ");
    assert(nul_free(";\n                const partsLen = "@));
    lemma_value_texts_nul_free(parts_len as nat, 0, true);
    reveal_strlit(";\n                const mimePtr = '");
    assert(nul_free(";\n                const mimePtr = '"@));
    lemma_value_texts_nul_free(mime_ptr as nat, 0, true);
    reveal_strlit("';\n                const filenamePtr = '");
    assert(nul_free("';\n                const filenamePtr = '"@));
    lemma_value_texts_nul_free(filename_ptr as nat, 0, true);
    reveal_strlit("';\n                window.unienc_webcodecs.makeDownload(partsPtr, partsLen, mimePtr, filenamePtr);\n            })();\n            ");
    assert(nul_free("';\n                window.unienc_webcodecs.makeDownload(partsPtr, partsLen, mimePtr, filenamePtr);\n            })();\n            "@));
}

} // verus!
