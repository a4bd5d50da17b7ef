//! The media types that the Media Foundation encoders are configured with:
//! raw NV12 video into H.264, and 16-bit PCM audio into AAC. Each type is a
//! list of attributes, in the order in which they are set.

use vstd::prelude::*;

verus! {

/// Major type of a media type.
#[derive(Clone, Copy, Debug, PartialEq, Eq, Structural)]
pub enum MajorType {
    Audio,
    Video,
}

/// Subtype (format) of a media type.
#[derive(Clone, Copy, Debug, PartialEq, Eq, Structural)]
pub enum Subtype {
    Pcm,
    Aac,
    Nv12,
    H264,
}

/// Category of transform searched for.
#[derive(Clone, Copy, Debug, PartialEq, Eq, Structural)]
pub enum TransformCategory {
    AudioEncoder,
    VideoEncoder,
}

/// One attribute of a media type and the value it is set to.
#[derive(Clone, Copy, Debug, PartialEq, Eq, Structural)]
pub enum MediaAttribute {
    MajorType(MajorType),
    Subtype(Subtype),
    /// Progressive (not interlaced) frames.
    InterlaceProgressive,
    /// Width in the upper 32 bits, height in the lower 32 bits.
    FrameSize(u64),
    /// Numerator in the upper 32 bits, denominator in the lower 32 bits.
    FrameRate(u64),
    AvgBitrate(u32),
    /// The H.264 baseline profile.
    H264ProfileBase,
    AudioBitsPerSample(u32),
    AudioSamplesPerSecond(u32),
    AudioNumChannels(u32),
    AudioAvgBytesPerSecond(u32),
}

/// What an encoder transform is searched by and configured with.
pub struct EncoderConfig {
    pub category: TransformCategory,
    pub search_input: (MajorType, Subtype),
    pub search_output: (MajorType, Subtype),
    pub input_type: Vec<MediaAttribute>,
    pub output_type: Vec<MediaAttribute>,
}

/// Two 32-bit halves packed into one 64-bit attribute value.
pub open spec fn packed(high: u32, low: u32) -> u64 {
    (high as int * 0x1_0000_0000 + low as int) as u64
}

/// Packs two 32-bit values into one attribute value, `high` in the upper
/// half: the layout of frame sizes and frame rates.
pub fn pack_u32_pair(high: u32, low: u32) -> (res: u64)
    ensures
        res == packed(high, low),
        res as int == high as int * 0x1_0000_0000 + low as int,
{
    assert((high as u64) << 32u64 == high as int * 0x1_0000_0000) by (bit_vector);
    ((high as u64) << 32u64) + low as u64
}

/// The two halves of a packed value come back out unchanged.
pub proof fn lemma_packed_halves(high: u32, low: u32)
    ensures
        packed(high, low) as int / 0x1_0000_0000 == high,
        packed(high, low) as int % 0x1_0000_0000 == low,
{
    let p = high as int * 0x1_0000_0000 + low as int;
    assert(p / 0x1_0000_0000 == high && p % 0x1_0000_0000 == low) by (nonlinear_arith)
        requires
            p == high as int * 0x1_0000_0000 + low as int,
            0 <= low < 0x1_0000_0000,
            0 <= high,
    ;
}

/// The raw video type the encoder is fed.
pub open spec fn video_input_attributes(width: u32, height: u32, fps: u32) -> Seq<MediaAttribute> {
    seq![
        MediaAttribute::MajorType(MajorType::Video),
        MediaAttribute::Subtype(Subtype::Nv12),
        MediaAttribute::InterlaceProgressive,
        MediaAttribute::FrameSize(packed(width, height)),
        MediaAttribute::FrameRate(packed(fps, 1)),
    ]
}

/// The H.264 type the encoder produces.
pub open spec fn video_output_attributes(width: u32, height: u32, bitrate: u32, fps: u32) -> Seq<
    MediaAttribute,
> {
    seq![
        MediaAttribute::MajorType(MajorType::Video),
        MediaAttribute::Subtype(Subtype::H264),
        MediaAttribute::AvgBitrate(bitrate),
        MediaAttribute::FrameRate(packed(fps, 1)),
        MediaAttribute::FrameSize(packed(width, height)),
        MediaAttribute::InterlaceProgressive,
        MediaAttribute::H264ProfileBase,
    ]
}

/// The PCM type the audio encoder is fed: 16-bit samples.
pub open spec fn audio_input_attributes(sample_rate: u32, channels: u32) -> Seq<MediaAttribute> {
    seq![
        MediaAttribute::MajorType(MajorType::Audio),
        MediaAttribute::Subtype(Subtype::Pcm),
        MediaAttribute::AudioBitsPerSample(16),
        MediaAttribute::AudioSamplesPerSecond(sample_rate),
        MediaAttribute::AudioNumChannels(channels),
    ]
}

/// The AAC type the audio encoder produces; its byte rate is the bit rate
/// divided by eight, rounded down.
pub open spec fn audio_output_attributes(sample_rate: u32, channels: u32, bitrate: u32) -> Seq<
    MediaAttribute,
> {
    seq![
        MediaAttribute::MajorType(MajorType::Audio),
        MediaAttribute::Subtype(Subtype::Aac),
        MediaAttribute::AudioBitsPerSample(16),
        MediaAttribute::AudioSamplesPerSecond(sample_rate),
        MediaAttribute::AudioNumChannels(channels),
        MediaAttribute::AudioAvgBytesPerSecond((bitrate / 8) as u32),
    ]
}

/// How the video encoder is searched for and configured: NV12 in, H.264
/// out, at the given size, bit rate and frame rate.
pub fn video_encoder_config(width: u32, height: u32, bitrate: u32, fps_hint: u32) -> (res:
    EncoderConfig)
    ensures
        res.category == TransformCategory::VideoEncoder,
        res.search_input == (MajorType::Video, Subtype::Nv12),
        res.search_output == (MajorType::Video, Subtype::H264),
        res.input_type@ == video_input_attributes(width, height, fps_hint),
        res.output_type@ == video_output_attributes(width, height, bitrate, fps_hint),
{
    let frame_size = pack_u32_pair(width, height);
    let frame_rate = pack_u32_pair(fps_hint, 1);
    let mut input_type: Vec<MediaAttribute> = Vec::new();
    input_type.push(MediaAttribute::MajorType(MajorType::Video));
    input_type.push(MediaAttribute::Subtype(Subtype::Nv12));
    input_type.push(MediaAttribute::InterlaceProgressive);
    input_type.push(MediaAttribute::FrameSize(frame_size));
    input_type.push(MediaAttribute::FrameRate(frame_rate));
    let mut output_type: Vec<MediaAttribute> = Vec::new();
    output_type.push(MediaAttribute::MajorType(MajorType::Video));
    output_type.push(MediaAttribute::Subtype(Subtype::H264));
    output_type.push(MediaAttribute::AvgBitrate(bitrate));
    output_type.push(MediaAttribute::FrameRate(frame_rate));
    output_type.push(MediaAttribute::FrameSize(frame_size));
    output_type.push(MediaAttribute::InterlaceProgressive);
    output_type.push(MediaAttribute::H264ProfileBase);
    assert(input_type@ =~= video_input_attributes(width, height, fps_hint));
    assert(output_type@ =~= video_output_attributes(width, height, bitrate, fps_hint));
    EncoderConfig {
        category: TransformCategory::VideoEncoder,
        search_input: (MajorType::Video, Subtype::Nv12),
        search_output: (MajorType::Video, Subtype::H264),
        input_type,
        output_type,
    }
}

/// How the audio encoder is searched for and configured: 16-bit PCM in,
/// AAC out, at the given sample rate, channel count and bit rate.
pub fn audio_encoder_config(sample_rate: u32, channels: u32, bitrate: u32) -> (res: EncoderConfig)
    ensures
        res.category == TransformCategory::AudioEncoder,
        res.search_input == (MajorType::Audio, Subtype::Pcm),
        res.search_output == (MajorType::Audio, Subtype::Aac),
        res.input_type@ == audio_input_attributes(sample_rate, channels),
        res.output_type@ == audio_output_attributes(sample_rate, channels, bitrate),
{
    let mut input_type: Vec<MediaAttribute> = Vec::new();
    input_type.push(MediaAttribute::MajorType(MajorType::Audio));
    input_type.push(MediaAttribute::Subtype(Subtype::Pcm));
    input_type.push(MediaAttribute::AudioBitsPerSample(16));
    input_type.push(MediaAttribute::AudioSamplesPerSecond(sample_rate));
    input_type.push(MediaAttribute::AudioNumChannels(channels));
    let mut output_type: Vec<MediaAttribute> = Vec::new();
    output_type.push(MediaAttribute::MajorType(MajorType::Audio));
    output_type.push(MediaAttribute::Subtype(Subtype::Aac));
    output_type.push(MediaAttribute::AudioBitsPerSample(16));
    output_type.push(MediaAttribute::AudioSamplesPerSecond(sample_rate));
    output_type.push(MediaAttribute::AudioNumChannels(channels));
    output_type.push(MediaAttribute::AudioAvgBytesPerSecond(bitrate >> 3));
    assert((bitrate >> 3) == bitrate / 8) by (bit_vector);
    assert(input_type@ =~= audio_input_attributes(sample_rate, channels));
    assert(output_type@ =~= audio_output_attributes(sample_rate, channels, bitrate));
    EncoderConfig {
        category: TransformCategory::AudioEncoder,
        search_input: (MajorType::Audio, Subtype::Pcm),
        search_output: (MajorType::Audio, Subtype::Aac),
        input_type,
        output_type,
    }
}

/// The H.264 output describes frames of exactly the size and rate the NV12
/// input has: every frame size attribute of either type holds the width in
/// its upper and the height in its lower 32 bits, every frame rate attribute
/// holds the frame rate over one, and both types carry one of each.
pub proof fn lemma_video_types_agree(width: u32, height: u32, bitrate: u32, fps: u32)
    ensures
        ({
            let input = video_input_attributes(width, height, fps);
            let output = video_output_attributes(width, height, bitrate, fps);
            &&& forall|i: int|
                0 <= i < input.len() ==> (#[trigger] input[i] matches MediaAttribute::FrameSize(s)
                    ==> s as int / 0x1_0000_0000 == width && s as int % 0x1_0000_0000 == height)
            &&& forall|i: int|
                0 <= i < output.len() ==> (#[trigger] output[i] matches MediaAttribute::FrameSize(
                    s,
                ) ==> s as int / 0x1_0000_0000 == width && s as int % 0x1_0000_0000 == height)
            &&& forall|i: int|
                0 <= i < input.len() ==> (#[trigger] input[i] matches MediaAttribute::FrameRate(r)
                    ==> r as int / 0x1_0000_0000 == fps && r as int % 0x1_0000_0000 == 1)
            &&& forall|i: int|
                0 <= i < output.len() ==> (#[trigger] output[i] matches MediaAttribute::FrameRate(
                    r,
                ) ==> r as int / 0x1_0000_0000 == fps && r as int % 0x1_0000_0000 == 1)
            &&& forall|i: int, j: int|
                0 <= i < input.len() && 0 <= j < output.len() && #[trigger] input[i] is FrameSize
                    && #[trigger] output[j] is FrameSize ==> input[i] == output[j]
            &&& exists|i: int| 0 <= i < input.len() && #[trigger] input[i] is FrameSize
            &&& exists|i: int| 0 <= i < output.len() && #[trigger] output[i] is FrameSize
            &&& exists|i: int| 0 <= i < output.len() && #[trigger] output[i] == MediaAttribute::AvgBitrate(bitrate)
            &&& forall|i: int|
                0 <= i < input.len() && #[trigger] input[i] is Subtype ==> input[i]
                    == MediaAttribute::Subtype(Subtype::Nv12)
            &&& forall|i: int|
                0 <= i < output.len() && #[trigger] output[i] is Subtype ==> output[i]
                    == MediaAttribute::Subtype(Subtype::H264)
            &&& forall|i: int|
                0 <= i < input.len() && #[trigger] input[i] is MajorType ==> input[i]
                    == MediaAttribute::MajorType(MajorType::Video)
            &&& forall|i: int|
                0 <= i < output.len() && #[trigger] output[i] is MajorType ==> output[i]
                    == MediaAttribute::MajorType(MajorType::Video)
        }),
{
    lemma_packed_halves(width, height);
    lemma_packed_halves(fps, 1);
    let input = video_input_attributes(width, height, fps);
    let output = video_output_attributes(width, height, bitrate, fps);
    assert(input[3] is FrameSize);
    assert(output[4] is FrameSize);
    assert(output[2] == MediaAttribute::AvgBitrate(bitrate));
}

/// The AAC output keeps the PCM input's sample rate and channel count:
/// every sample rate and channel count attribute of either type is the one
/// asked for, and both types carry one of each; the output's byte rate is
/// the bit rate in whole bytes.
pub proof fn lemma_audio_types_agree(sample_rate: u32, channels: u32, bitrate: u32)
    ensures
        ({
            let input = audio_input_attributes(sample_rate, channels);
            let output = audio_output_attributes(sample_rate, channels, bitrate);
            &&& forall|i: int|
                0 <= i < input.len() ==> (#[trigger] input[i] matches
                    MediaAttribute::AudioSamplesPerSecond(r) ==> r == sample_rate)
            &&& forall|i: int|
                0 <= i < output.len() ==> (#[trigger] output[i] matches
                    MediaAttribute::AudioSamplesPerSecond(r) ==> r == sample_rate)
            &&& forall|i: int|
                0 <= i < input.len() ==> (#[trigger] input[i] matches MediaAttribute::AudioNumChannels(
                    c,
                ) ==> c == channels)
            &&& forall|i: int|
                0 <= i < output.len() ==> (#[trigger] output[i] matches
                    MediaAttribute::AudioNumChannels(c) ==> c == channels)
            &&& forall|i: int|
                0 <= i < output.len() ==> (#[trigger] output[i] matches
                    MediaAttribute::AudioAvgBytesPerSecond(b) ==> 8 * b <= bitrate < 8 * b + 8)
            &&& exists|i: int| 0 <= i < input.len() && #[trigger] input[i] is AudioSamplesPerSecond
            &&& exists|i: int| 0 <= i < output.len() && #[trigger] output[i] is AudioSamplesPerSecond
            &&& exists|i: int| 0 <= i < input.len() && #[trigger] input[i] is AudioNumChannels
            &&& exists|i: int| 0 <= i < output.len() && #[trigger] output[i] is AudioNumChannels
            &&& exists|i: int| 0 <= i < output.len() && #[trigger] output[i] is AudioAvgBytesPerSecond
            &&& forall|i: int|
                0 <= i < input.len() && #[trigger] input[i] is Subtype ==> input[i]
                    == MediaAttribute::Subtype(Subtype::Pcm)
            &&& forall|i: int|
                0 <= i < output.len() && #[trigger] output[i] is Subtype ==> output[i]
                    == MediaAttribute::Subtype(Subtype::Aac)
            &&& forall|i: int|
                0 <= i < input.len() && #[trigger] input[i] is MajorType ==> input[i]
                    == MediaAttribute::MajorType(MajorType::Audio)
            &&& forall|i: int|
                0 <= i < output.len() && #[trigger] output[i] is MajorType ==> output[i]
                    == MediaAttribute::MajorType(MajorType::Audio)
            &&& forall|i: int|
                0 <= i < input.len() ==> (#[trigger] input[i] matches
                    MediaAttribute::AudioBitsPerSample(b) ==> b == 16)
            &&& forall|i: int|
                0 <= i < output.len() ==> (#[trigger] output[i] matches
                    MediaAttribute::AudioBitsPerSample(b) ==> b == 16)
        }),
{
    let input = audio_input_attributes(sample_rate, channels);
    let output = audio_output_attributes(sample_rate, channels, bitrate);
    assert(input[3] is AudioSamplesPerSecond);
    assert(output[3] is AudioSamplesPerSecond);
    assert(input[4] is AudioNumChannels);
    assert(output[4] is AudioNumChannels);
    assert(output[5] is AudioAvgBytesPerSecond);
}

} // verus!
