use unienc::samples::{nv12_from_planes, pcm_bytes};
use unienc::webcodecs::fragments::FragmentBuffer;
use unienc::windows_mf::media_type::{
    audio_encoder_config, pack_u32_pair, video_encoder_config, MajorType, MediaAttribute, Subtype,
    TransformCategory,
};

#[test]
fn pcm_bytes_are_little_endian() {
    let samples: [i16; 4] = [0, 1, -1, 0x1234];
    let bytes = pcm_bytes(&samples);
    assert_eq!(bytes, vec![0, 0, 1, 0, 0xff, 0xff, 0x34, 0x12]);
    let native: Vec<u8> = samples.iter().flat_map(|s| s.to_le_bytes()).collect();
    assert_eq!(bytes, native);
    assert!(pcm_bytes(&[]).is_empty());
}

#[test]
fn pcm_round_trip() {
    let samples: Vec<i16> = vec![i16::MIN, -12345, 0, 42, i16::MAX];
    let bytes = pcm_bytes(&samples);
    let back: Vec<i16> = bytes.chunks(2).map(|c| i16::from_le_bytes([c[0], c[1]])).collect();
    assert_eq!(back, samples);
}

#[test]
fn nv12_interleaves_chroma_after_luma() {
    let y = [1u8, 2, 3, 4];
    let u = [10u8];
    let v = [20u8];
    assert_eq!(nv12_from_planes(&y, &u, &v), vec![1, 2, 3, 4, 10, 20]);
    let y2 = [0u8; 16];
    let u2 = [1u8, 2, 3, 4];
    let v2 = [5u8, 6, 7, 8];
    let f = nv12_from_planes(&y2, &u2, &v2);
    assert_eq!(f.len(), 24);
    assert_eq!(&f[16..], &[1, 5, 2, 6, 3, 7, 4, 8]);
}

#[test]
fn packing_puts_the_first_value_high() {
    assert_eq!(pack_u32_pair(1920, 1080), (1920u64 << 32) + 1080);
    assert_eq!(pack_u32_pair(30, 1), (30u64 << 32) + 1);
    assert_eq!(pack_u32_pair(u32::MAX, u32::MAX), u64::MAX);
    let p = pack_u32_pair(640, 480);
    assert_eq!((p >> 32) as u32, 640);
    assert_eq!(p as u32, 480);
}

#[test]
fn video_encoder_media_types() {
    let c = video_encoder_config(1280, 720, 5_000_000, 60);
    assert_eq!(c.category, TransformCategory::VideoEncoder);
    assert_eq!(c.search_input, (MajorType::Video, Subtype::Nv12));
    assert_eq!(c.search_output, (MajorType::Video, Subtype::H264));
    let size = (1280u64 << 32) + 720;
    let rate = (60u64 << 32) + 1;
    assert_eq!(
        c.input_type,
        vec![
            MediaAttribute::MajorType(MajorType::Video),
            MediaAttribute::Subtype(Subtype::Nv12),
            MediaAttribute::InterlaceProgressive,
            MediaAttribute::FrameSize(size),
            MediaAttribute::FrameRate(rate),
        ]
    );
    assert_eq!(
        c.output_type,
        vec![
            MediaAttribute::MajorType(MajorType::Video),
            MediaAttribute::Subtype(Subtype::H264),
            MediaAttribute::AvgBitrate(5_000_000),
            MediaAttribute::FrameRate(rate),
            MediaAttribute::FrameSize(size),
            MediaAttribute::InterlaceProgressive,
            MediaAttribute::H264ProfileBase,
        ]
    );
}

#[test]
fn audio_encoder_media_types() {
    let c = audio_encoder_config(44100, 2, 128_001);
    assert_eq!(c.category, TransformCategory::AudioEncoder);
    assert_eq!(c.search_input, (MajorType::Audio, Subtype::Pcm));
    assert_eq!(c.search_output, (MajorType::Audio, Subtype::Aac));
    assert_eq!(
        c.input_type,
        vec![
            MediaAttribute::MajorType(MajorType::Audio),
            MediaAttribute::Subtype(Subtype::Pcm),
            MediaAttribute::AudioBitsPerSample(16),
            MediaAttribute::AudioSamplesPerSecond(44100),
            MediaAttribute::AudioNumChannels(2),
        ]
    );
    assert_eq!(
        c.output_type,
        vec![
            MediaAttribute::MajorType(MajorType::Audio),
            MediaAttribute::Subtype(Subtype::Aac),
            MediaAttribute::AudioBitsPerSample(16),
            MediaAttribute::AudioSamplesPerSecond(44100),
            MediaAttribute::AudioNumChannels(2),
            MediaAttribute::AudioAvgBytesPerSecond(16000),
        ]
    );
}

#[test]
fn fragment_buffer_keeps_every_write_in_order() {
    let mut b = FragmentBuffer::new();
    assert_eq!(b.len(), 0);
    assert_eq!(b.write(b"ftyp"), 4);
    assert_eq!(b.write(b""), 0);
    assert_eq!(b.write(&[1, 2, 3]), 3);
    b.flush();
    assert_eq!(b.len(), 3);
    let all: Vec<u8> = b.parts().iter().flatten().copied().collect();
    assert_eq!(all, vec![b'f', b't', b'y', b'p', 1, 2, 3]);
    assert_eq!(b.parts()[1], Vec::<u8>::new());
}
