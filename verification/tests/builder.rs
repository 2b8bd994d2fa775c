//! Codec profiles, encoder construction and hardware-buffer sharing.

use bitwhip::{
    Codec, EncoderBuilder, EncoderTuning, PixelFormat, Rational, RawFrame, ScriptStep,
    ScriptedSource, StreamError, VideoEncoder,
};
use bitwhip::hwbuf::HwBufferPool;
use bitwhip::source::CaptureMethod;

fn example_steps() -> Vec<ScriptStep> {
    vec![ScriptStep::Frame { pts: 0, duration: 1 }]
}

fn tuning_30fps() -> EncoderTuning {
    let mut t = EncoderTuning::none();
    t.frame_rate = Some(Rational::new(30, 1));
    t.time_base = Some(Rational::new(1, 30));
    t.gop = Some(120);
    t.max_b_frames = Some(0);
    t
}

#[test]
fn default_profile_is_the_hardware_encoder() {
    let name: String = Codec::default().into();
    assert_eq!(name, "h264_nvenc");
    assert!(matches!(CaptureMethod::default(), CaptureMethod::DXGI));
}

#[test]
fn profile_for_each_capture_method() {
    let dx: String = Codec::for_capture(&CaptureMethod::DXGI).into();
    let av: String = Codec::for_capture(&CaptureMethod::AVFoundation).into();
    assert_eq!(dx, "h264_nvenc");
    assert_eq!(av, "h264_videotoolbox");
}

#[test]
fn nvenc_default_settings_are_low_latency() {
    let settings = Codec::new("h264_nvenc".to_string()).default_settings();
    assert_eq!(settings.len(), 2);
    assert_eq!(settings[0].0, "preset");
    assert_eq!(settings[0].1, "p6");
    assert_eq!(settings[1].0, "tune");
    assert_eq!(settings[1].1, "ull");
}

#[test]
fn other_profiles_have_no_default_settings() {
    assert!(Codec::new("h264_videotoolbox".to_string()).default_settings().is_empty());
    assert!(Codec::new("libx264".to_string()).default_settings().is_empty());
}

#[test]
fn unknown_codec_fails_before_touching_anything() {
    // Scenario: the builder is handed a codec name no implementation has.
    let mut pool = HwBufferPool::new();
    let capture_ref = pool.allocate();
    let id = capture_ref.id();

    let mut src = ScriptedSource::new(640, 480, example_steps()).with_hw_buffer(id);
    let r = EncoderBuilder::new()
        .set_encoder(Codec::new("h264_fictional".to_string()))
        .for_source(&mut src)
        .open(&mut pool);
    match r {
        Err(StreamError::MissingCodec) => {},
        _ => panic!("an unknown codec must fail with MissingCodec"),
    }
    // no device handle was touched: the shared buffer's count is untouched
    assert_eq!(pool.count(id), 1);
}

#[test]
fn builder_copies_example_frame_geometry() {
    let mut src = ScriptedSource::new(1920, 1080, example_steps());
    let mut pool = HwBufferPool::new();
    let enc = EncoderBuilder::new()
        .for_source(&mut src)
        .customise(tuning_30fps())
        .open(&mut pool)
        .expect("a known codec and a valid example frame must open");

    // width/height/aspect exactly match the example frame's values
    assert_eq!(enc.config.width, 1920);
    assert_eq!(enc.config.height, 1080);
    assert_eq!(enc.config.aspect, Rational::new(1, 1));
    assert_eq!(enc.config.format, PixelFormat(0));
    // the customization step took
    assert_eq!(enc.config.frame_rate, Some(Rational::new(30, 1)));
    assert_eq!(enc.config.time_base, Some(Rational::new(1, 30)));
    assert_eq!(enc.config.gop, Some(120));
    assert_eq!(enc.config.max_b_frames, Some(0));
    // every profile default option is applied, in order
    assert_eq!(enc.config.options.len(), 2);
    assert_eq!(enc.config.options[0].0, "preset");
    assert_eq!(enc.config.options[0].1, "p6");
    assert_eq!(enc.config.options[1].0, "tune");
    assert_eq!(enc.config.options[1].1, "ull");
}

#[test]
fn customization_cannot_override_geometry_or_options() {
    // the one override the step has is the pixel format
    let mut src = ScriptedSource::new(800, 600, example_steps());
    let mut t = tuning_30fps();
    t.format = Some(PixelFormat(23));
    let mut pool = HwBufferPool::new();
    let enc = EncoderBuilder::new()
        .for_source(&mut src)
        .customise(t)
        .open(&mut pool)
        .expect("open");
    assert_eq!(enc.config.width, 800);
    assert_eq!(enc.config.height, 600);
    assert_eq!(enc.config.format, PixelFormat(23));
    assert_eq!(enc.config.options.len(), 2);
}

#[test]
fn hardware_buffer_gains_exactly_one_reference() {
    let mut pool = HwBufferPool::new();
    let capture_ref = pool.allocate();
    let id = capture_ref.id();
    assert_eq!(pool.count(id), 1);

    let mut src = ScriptedSource::new(2560, 1440, example_steps()).with_hw_buffer(id);
    let enc = EncoderBuilder::new()
        .for_source(&mut src)
        .customise(tuning_30fps())
        .open(&mut pool)
        .expect("open");

    // attachment takes exactly one new counted reference
    assert_eq!(pool.count(id), 2);
    let attached = enc.config.hw_frames_ctx.as_ref().expect("zero-copy wiring");
    assert_eq!(attached.id(), id);

    // the capture backend's own reference is independent: releasing it
    // leaves the encoder's buffer live for the encoder's full lifetime
    pool.release(capture_ref);
    assert_eq!(pool.count(id), 1);
    assert!(pool.live(id));
}

#[test]
fn software_source_leaves_no_hardware_wiring() {
    let mut src = ScriptedSource::new(640, 480, example_steps());
    let mut pool = HwBufferPool::new();
    let enc = EncoderBuilder::new().for_source(&mut src).open(&mut pool).expect("open");
    assert!(enc.config.hw_frames_ctx.is_none());
    assert_eq!(pool.len(), 0);
}

#[test]
fn failed_example_pull_surfaces_at_open() {
    let mut src = ScriptedSource::new(640, 480, vec![ScriptStep::Fail(-7)]);
    let mut pool = HwBufferPool::new();
    let r = EncoderBuilder::new().for_source(&mut src).open(&mut pool);
    match r {
        Err(StreamError::DeviceError(code)) => assert_eq!(code, -7),
        _ => panic!("the capture failure must surface at open"),
    }
}

#[test]
fn empty_example_frame_cannot_open() {
    // no example frame was ever pulled: zero geometry fails the open step
    let mut pool = HwBufferPool::new();
    match EncoderBuilder::new().open(&mut pool) {
        Err(StreamError::EncoderOpenFailed) => {},
        _ => panic!("zero geometry must fail with EncoderOpenFailed"),
    }
}

#[test]
fn empty_option_key_is_refused() {
    let mut enc = VideoEncoder::new();
    match enc.set_option("", "x") {
        Err(StreamError::OptionSetFailed) => {},
        _ => panic!("an empty option key must fail"),
    }
    assert!(enc.options.is_empty());
    enc.set_option("preset", "p6").expect("a named option applies");
    assert_eq!(enc.options.len(), 1);
}

#[test]
fn error_taxonomy_fatality() {
    assert!(!StreamError::WouldRetry.is_fatal());
    assert!(!StreamError::EndOfStream.is_fatal());
    assert!(StreamError::DeviceError(0).is_fatal());
    assert!(StreamError::MissingCodec.is_fatal());
    assert!(StreamError::EncoderOpenFailed.is_fatal());
    assert!(StreamError::OptionSetFailed.is_fatal());
    assert!(StreamError::ChannelClosed.is_fatal());
}
