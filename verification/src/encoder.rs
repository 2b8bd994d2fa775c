//! Encoder construction and the packet production state machine.
//!
//! The codec implementations themselves live in an external codec library;
//! this module holds what the pipeline decides about them: how an encoder is
//! configured from a codec profile and an example frame ([`EncoderBuilder`]),
//! how the zero-copy hardware buffer is shared with the capture backend, and
//! how paced frames are turned into a timestamped packet sequence
//! ([`EncodedPacketIter`]).

use vstd::prelude::*;
use vstd::string::*;
use crate::codec::{option_views, spec_default_settings, Codec};
use crate::error::StreamError;
use crate::frame::{PixelFormat, RawFrame};
use crate::hwbuf::{HwBufferPool, HwBufferRef};
use crate::rational::{spec_frame_interval_ms, Rational};
use crate::source::{spec_wait, Delta, Output, PollSource, PollState, Source};

verus! {

/// One unit of compressed bitstream output. The payload bytes stay with the
/// codec library; the pipeline reads only the packet's presentation
/// timestamp, which the encoder copies from the frame that produced it.
#[derive(Clone, Copy, Debug, PartialEq, Eq, Structural)]
pub struct Packet {
    pub pts: i64,
}

impl Packet {
    pub fn empty() -> (p: Packet)
        ensures
            p.pts == 0,
    {
        Packet { pts: 0 }
    }
}

/// The packet the encoder produces for a frame.
pub open spec fn packet_of(frame: RawFrame) -> Packet {
    Packet { pts: frame.pts }
}

/// An encoded packet tagged with the capture-relative elapsed time of the
/// frame that produced it, in milliseconds — the wall-clock pacing timestamp
/// the publish boundary needs, not the encoder's internal time base.
#[derive(Clone, Copy, Debug, PartialEq, Eq, Structural)]
pub struct EncodedPacket(pub Packet, pub Delta);

/// A codec context before it is opened: the tunables the builder and the
/// caller's customization fill in, and, on the zero-copy path, the counted
/// reference to the capture backend's hardware frame buffer.
#[derive(Debug)]
pub struct VideoEncoder {
    pub width: u32,
    pub height: u32,
    pub aspect: Rational,
    pub format: PixelFormat,
    pub frame_rate: Option<Rational>,
    pub time_base: Option<Rational>,
    pub gop: Option<u32>,
    pub max_b_frames: Option<u32>,
    pub bit_rate: Option<u64>,
    /// The options applied so far, in application order.
    pub options: Vec<(String, String)>,
    pub hw_frames_ctx: Option<HwBufferRef>,
}

impl VideoEncoder {
    /// A fresh context: no geometry, no tunables, no options, no hardware
    /// wiring.
    pub fn new() -> (enc: VideoEncoder)
        ensures
            enc.width == 0,
            enc.height == 0,
            enc.aspect == (Rational { num: 0i32, den: 1i32 }),
            enc.format == (PixelFormat(-1i32)),
            enc.frame_rate is None,
            enc.time_base is None,
            enc.gop is None,
            enc.max_b_frames is None,
            enc.bit_rate is None,
            enc.options@ == Seq::<(String, String)>::empty(),
            enc.hw_frames_ctx is None,
    {
        VideoEncoder {
            width: 0,
            height: 0,
            aspect: Rational { num: 0, den: 1 },
            format: PixelFormat(-1),
            frame_rate: None,
            time_base: None,
            gop: None,
            max_b_frames: None,
            bit_rate: None,
            options: Vec::new(),
            hw_frames_ctx: None,
        }
    }

    pub fn set_width(&mut self, width: u32)
        ensures
            *final(self) == (VideoEncoder { width, ..*old(self) }),
    {
        self.width = width;
    }

    pub fn set_height(&mut self, height: u32)
        ensures
            *final(self) == (VideoEncoder { height, ..*old(self) }),
    {
        self.height = height;
    }

    pub fn set_aspect_ratio(&mut self, aspect: Rational)
        ensures
            *final(self) == (VideoEncoder { aspect, ..*old(self) }),
    {
        self.aspect = aspect;
    }

    pub fn set_format(&mut self, format: PixelFormat)
        ensures
            *final(self) == (VideoEncoder { format, ..*old(self) }),
    {
        self.format = format;
    }

    pub fn set_frame_rate(&mut self, frame_rate: Option<Rational>)
        ensures
            *final(self) == (VideoEncoder { frame_rate, ..*old(self) }),
    {
        self.frame_rate = frame_rate;
    }

    pub fn set_time_base(&mut self, time_base: Rational)
        ensures
            *final(self) == (VideoEncoder { time_base: Some(time_base), ..*old(self) }),
    {
        self.time_base = Some(time_base);
    }

    pub fn set_gop(&mut self, gop: u32)
        ensures
            *final(self) == (VideoEncoder { gop: Some(gop), ..*old(self) }),
    {
        self.gop = Some(gop);
    }

    pub fn set_max_b_frames(&mut self, max_b_frames: u32)
        ensures
            *final(self) == (VideoEncoder { max_b_frames: Some(max_b_frames), ..*old(self) }),
    {
        self.max_b_frames = Some(max_b_frames);
    }

    pub fn set_bit_rate(&mut self, bit_rate: u64)
        ensures
            *final(self) == (VideoEncoder { bit_rate: Some(bit_rate), ..*old(self) }),
    {
        self.bit_rate = Some(bit_rate);
    }

    /// Everything but the applied option list agrees between two contexts.
    pub open spec fn same_but_options(&self, other: &VideoEncoder) -> bool {
        &&& self.width == other.width
        &&& self.height == other.height
        &&& self.aspect == other.aspect
        &&& self.format == other.format
        &&& self.frame_rate == other.frame_rate
        &&& self.time_base == other.time_base
        &&& self.gop == other.gop
        &&& self.max_b_frames == other.max_b_frames
        &&& self.bit_rate == other.bit_rate
        &&& self.hw_frames_ctx == other.hw_frames_ctx
    }

    /// The generic typed option setter: records the (key, value) pair in
    /// application order. An empty key is not an option name and is refused
    /// with [`StreamError::OptionSetFailed`].
    pub fn set_option(&mut self, name: &str, val: &str) -> (r: Result<(), StreamError>)
        ensures
            final(self).same_but_options(old(self)),
            name@.len() == 0 ==> r == Err::<(), StreamError>(StreamError::OptionSetFailed)
                && final(self).options == old(self).options,
            name@.len() > 0 ==> r == Ok::<(), StreamError>(()) && option_views(
                final(self).options@,
            ) == option_views(old(self).options@).push((name@, val@)),
    {
        if name.is_empty() {
            return Err(StreamError::OptionSetFailed);
        }
        self.options.push((name.to_owned(), val.to_owned()));
        proof {
            assert(option_views(self.options@) =~= option_views(old(self).options@).push(
                (name@, val@),
            ));
        }
        Ok(())
    }
}

/// The one-shot customization step: the tunables a caller may set on the
/// pre-opened encoder — frame rate, time base, GOP length, bitrate, maximum
/// B-frames, pixel format. These depend on stream intent, not on the source,
/// so they are deliberately left to the caller; a field left `None` keeps
/// what the builder derived.
#[derive(Clone, Copy, Debug, PartialEq, Eq, Structural)]
pub struct EncoderTuning {
    pub frame_rate: Option<Rational>,
    pub time_base: Option<Rational>,
    pub gop: Option<u32>,
    pub max_b_frames: Option<u32>,
    pub bit_rate: Option<u64>,
    pub format: Option<PixelFormat>,
}

impl EncoderTuning {
    /// A customization that changes nothing.
    pub fn none() -> (t: EncoderTuning)
        ensures
            t == (EncoderTuning {
                frame_rate: None,
                time_base: None,
                gop: None,
                max_b_frames: None,
                bit_rate: None,
                format: None,
            }),
    {
        EncoderTuning {
            frame_rate: None,
            time_base: None,
            gop: None,
            max_b_frames: None,
            bit_rate: None,
            format: None,
        }
    }

    /// Writes every tunable this customization carries into the context,
    /// leaving the rest as the builder derived them.
    pub fn apply(&self, enc: &mut VideoEncoder)
        ensures
            *final(enc) == spec_tuned(*old(enc), *self),
    {
        if let Some(fr) = self.frame_rate {
            enc.set_frame_rate(Some(fr));
        }
        if let Some(tb) = self.time_base {
            enc.set_time_base(tb);
        }
        if let Some(g) = self.gop {
            enc.set_gop(g);
        }
        if let Some(b) = self.max_b_frames {
            enc.set_max_b_frames(b);
        }
        if let Some(br) = self.bit_rate {
            enc.set_bit_rate(br);
        }
        if let Some(f) = self.format {
            enc.set_format(f);
        }
    }
}

/// The context after the customization step ran: each tunable the step
/// carries replaces the derived one; everything else stands.
pub open spec fn spec_tuned(enc: VideoEncoder, t: EncoderTuning) -> VideoEncoder {
    VideoEncoder {
        frame_rate: if t.frame_rate is Some {
            t.frame_rate
        } else {
            enc.frame_rate
        },
        time_base: if t.time_base is Some {
            t.time_base
        } else {
            enc.time_base
        },
        gop: if t.gop is Some {
            t.gop
        } else {
            enc.gop
        },
        max_b_frames: if t.max_b_frames is Some {
            t.max_b_frames
        } else {
            enc.max_b_frames
        },
        bit_rate: if t.bit_rate is Some {
            t.bit_rate
        } else {
            enc.bit_rate
        },
        format: match t.format {
            Some(f) => f,
            None => enc.format,
        },
        ..enc
    }
}

/// An opened encoder: its frozen configuration and its input/output state.
/// Frames go in with [`OpenedEncoder::send_frame`]; packets come out of
/// [`OpenedEncoder::receive_packet`] in the order their frames went in, each
/// carrying its frame's presentation timestamp. An empty output queue
/// answers `Err(WouldRetry)`: the encoder needs more input.
#[derive(Debug)]
pub struct OpenedEncoder {
    pub config: VideoEncoder,
    /// Packets encoded but not yet drained, oldest first.
    pub queue: Vec<Packet>,
}

impl OpenedEncoder {
    /// The configured target frame rate, or the codec library's zero rate
    /// where the customization step never set one.
    pub fn frame_rate(&self) -> (r: Rational)
        ensures
            self.config.frame_rate matches Some(fr) ==> r == fr,
            self.config.frame_rate is None ==> r == (Rational { num: 0i32, den: 1i32 }),
    {
        match self.config.frame_rate {
            Some(fr) => fr,
            None => Rational { num: 0, den: 1 },
        }
    }

    /// Accepts one frame for encoding; its packet joins the output queue
    /// with the frame's presentation timestamp.
    pub fn send_frame(&mut self, frame: &RawFrame) -> (r: Result<(), StreamError>)
        ensures
            r == Ok::<(), StreamError>(()),
            final(self).queue@ == old(self).queue@.push(packet_of(*frame)),
            final(self).config == old(self).config,
    {
        self.queue.push(Packet { pts: frame.pts });
        Ok(())
    }

    /// Drains the oldest pending packet into `packet`, or answers
    /// `Err(WouldRetry)` when the encoder needs more input first.
    pub fn receive_packet(&mut self, packet: &mut Packet) -> (r: Result<(), StreamError>)
        ensures
            final(self).config == old(self).config,
            old(self).queue@.len() > 0 ==> r == Ok::<(), StreamError>(()) && *final(packet)
                == old(self).queue@[0] && final(self).queue@ == old(self).queue@.drop_first(),
            old(self).queue@.len() == 0 ==> r == Err::<(), StreamError>(StreamError::WouldRetry)
                && final(self).queue == old(self).queue && *final(packet) == *old(packet),
    {
        if self.queue.len() == 0 {
            return Err(StreamError::WouldRetry);
        }
        *packet = self.queue.remove(0);
        Ok(())
    }
}

/// The encoder implementations this pipeline selects among: the codec
/// library resolves these names. Resolution of any other name fails with
/// [`StreamError::MissingCodec`].
pub open spec fn spec_known_encoder(name: Seq<char>) -> bool {
    name == "h264_nvenc"@ || name == "h264_videotoolbox"@
}

/// Resolves an encoder implementation by name.
fn find_by_name(name: &String) -> (found: bool)
    ensures
        found == spec_known_encoder(name@),
{
    *name == String::from_str("h264_nvenc") || *name == String::from_str("h264_videotoolbox")
}

/// How an opened encoder's configuration relates to the builder it came
/// from: geometry, aspect and pixel format copied from the example frame,
/// then the customization step's overrides, then the zero-copy wiring from
/// the example frame's hardware buffer, then every profile default option,
/// in order, and nothing else.
pub open spec fn spec_built_config(b: EncoderBuilder, enc: VideoEncoder) -> bool {
    let tuned = spec_tuned(
        VideoEncoder {
            width: b.example_frame.width,
            height: b.example_frame.height,
            aspect: b.example_frame.aspect,
            format: b.example_frame.format,
            frame_rate: None,
            time_base: None,
            gop: None,
            max_b_frames: None,
            bit_rate: None,
            ..enc
        },
        match b.tuning {
            Some(t) => t,
            None => EncoderTuning {
                frame_rate: None,
                time_base: None,
                gop: None,
                max_b_frames: None,
                bit_rate: None,
                format: None,
            },
        },
    );
    &&& enc.width == tuned.width
    &&& enc.height == tuned.height
    &&& enc.aspect == tuned.aspect
    &&& enc.format == tuned.format
    &&& enc.frame_rate == tuned.frame_rate
    &&& enc.time_base == tuned.time_base
    &&& enc.gop == tuned.gop
    &&& enc.max_b_frames == tuned.max_b_frames
    &&& enc.bit_rate == tuned.bit_rate
    &&& option_views(enc.options@) == spec_default_settings(b.codec@)
    &&& (b.hw_ctx matches Some(id) ==> enc.hw_frames_ctx matches Some(h) && h.spec_id() == id)
    &&& (b.hw_ctx is None ==> enc.hw_frames_ctx is None)
}

/// Builds and opens an encoder: a codec profile, one example frame pulled
/// from the chosen capture backend (for geometry, format, aspect and, on the
/// hardware path, the shared buffer), and a one-shot customization step.
/// Consumed exactly once: [`EncoderBuilder::open`] is terminal.
#[derive(Debug)]
pub struct EncoderBuilder {
    pub codec: Codec,
    /// The example frame's hardware buffer, noted when the source declared
    /// hardware support; the counted reference is taken only at `open`.
    pub hw_ctx: Option<usize>,
    pub example_frame: RawFrame,
    pub tuning: Option<EncoderTuning>,
    /// The failure the example pull reported, if it did; surfaced by `open`.
    pub capture_error: Option<StreamError>,
}

impl EncoderBuilder {
    pub fn new() -> (b: EncoderBuilder)
        ensures
            b.codec@ == "h264_nvenc"@,
            b.hw_ctx is None,
            b.tuning is None,
            b.capture_error is None,
            b.example_frame.width == 0,
            b.example_frame.height == 0,
    {
        EncoderBuilder {
            codec: Codec::default(),
            hw_ctx: None,
            example_frame: RawFrame::empty(),
            tuning: None,
            capture_error: None,
        }
    }

    /// Chooses the codec profile.
    pub fn set_encoder(self, c: Codec) -> (b: EncoderBuilder)
        ensures
            b.codec == c,
            b.hw_ctx == self.hw_ctx,
            b.example_frame == self.example_frame,
            b.tuning == self.tuning,
            b.capture_error == self.capture_error,
    {
        EncoderBuilder { codec: c, ..self }
    }

    /// Pulls one example frame from the backend, read only for its geometry,
    /// format, aspect and — when the backend declares hardware support — its
    /// shared hardware buffer. The backend's answer is its own; whatever
    /// came back: the profile and the customization are untouched, a noted
    /// hardware buffer always comes from the example frame, and a reported
    /// failure is never dropped (it surfaces at `open`).
    pub fn for_source<T: Source>(self, src: &mut T) -> (b: EncoderBuilder)
        ensures
            b.codec == self.codec,
            b.tuning == self.tuning,
            b.capture_error is None ==> self.capture_error is None,
            b.hw_ctx matches Some(id) ==> b.example_frame.hw_frames_ctx == Some(id),
    {
        let mut b = self;
        match src.next_frame(&mut b.example_frame) {
            Ok(_) => {
                if src.hw_support() {
                    b.hw_ctx = b.example_frame.hw_frames_ctx;
                } else {
                    b.hw_ctx = None;
                }
            },
            Err(e) => {
                b.hw_ctx = None;
                b.capture_error = Some(e);
            },
        }
        b
    }

    /// Stores the one-shot customization step, run by `open` after the
    /// example frame's values are copied.
    pub fn customise(self, t: EncoderTuning) -> (b: EncoderBuilder)
        ensures
            b.tuning == Some(t),
            b.codec == self.codec,
            b.hw_ctx == self.hw_ctx,
            b.example_frame == self.example_frame,
            b.capture_error == self.capture_error,
    {
        EncoderBuilder { tuning: Some(t), ..self }
    }

    /// Builds and opens the encoder, in order: resolve the codec profile's
    /// implementation by name (`MissingCodec` if absent — before any frame
    /// or buffer is touched); surface a failed example pull; create a fresh
    /// context; copy width, height, aspect and format from the example
    /// frame; run the customization step; take one counted reference to the
    /// source's hardware buffer and attach it — after customization so it
    /// cannot be overridden, before the profile defaults so it cannot be
    /// reset; apply every profile default option; open the context, which
    /// demands nonzero geometry (`EncoderOpenFailed`).
    ///
    /// Succeeds exactly on a known codec, a successful example pull and
    /// nonzero geometry. On success with a hardware buffer, that buffer's
    /// reference count rises by exactly one; every other buffer, and the
    /// whole pool on failure, is left as it was.
    #[verifier::loop_isolation(false)]
    pub fn open(self, pool: &mut HwBufferPool) -> (r: Result<OpenedEncoder, StreamError>)
        requires
            self.hw_ctx matches Some(id) ==> old(pool).is_live(id) && old(pool).ref_count(id)
                < u64::MAX,
        ensures
            r is Ok <==> spec_known_encoder(self.codec@) && self.capture_error is None
                && self.example_frame.width > 0 && self.example_frame.height > 0,
            !spec_known_encoder(self.codec@) ==> r == Err::<OpenedEncoder, StreamError>(
                StreamError::MissingCodec,
            ),
            spec_known_encoder(self.codec@) ==> (self.capture_error matches Some(e) ==> r == Err::<
                OpenedEncoder,
                StreamError,
            >(e)),
            spec_known_encoder(self.codec@) && self.capture_error is None && !(
            self.example_frame.width > 0 && self.example_frame.height > 0) ==> r == Err::<
                OpenedEncoder,
                StreamError,
            >(StreamError::EncoderOpenFailed),
            r matches Ok(enc) ==> spec_built_config(self, enc.config) && enc.queue@ == Seq::<
                Packet,
            >::empty(),
            r is Ok ==> (self.hw_ctx matches Some(id) ==> final(pool).ref_count(id)
                == old(pool).ref_count(id) + 1 && final(pool).others_unchanged(old(pool), id)
                && final(pool).is_live(id)),
            (r is Err || self.hw_ctx is None) ==> final(pool).spec_len() == old(pool).spec_len()
                && forall|j: usize|
                j < old(pool).spec_len() ==> final(pool).ref_count(j) == old(pool).ref_count(j),
    {
        let settings = self.codec.default_settings();
        let name: String = String::from(self.codec);

        if !find_by_name(&name) {
            return Err(StreamError::MissingCodec);
        }
        if let Some(e) = self.capture_error {
            return Err(e);
        }

        let mut enc = VideoEncoder::new();
        enc.set_width(self.example_frame.width);
        enc.set_height(self.example_frame.height);
        enc.set_aspect_ratio(self.example_frame.aspect);
        enc.set_format(self.example_frame.format);

        if let Some(t) = self.tuning {
            t.apply(&mut enc);
        }

        if let Some(id) = self.hw_ctx {
            enc.hw_frames_ctx = Some(pool.acquire(id));
        }

        let ghost enc_wired = enc;
        let mut i: usize = 0;
        while i < settings.len()
            invariant
                i <= settings@.len(),
                option_views(settings@) == spec_default_settings(self.codec@),
                enc.same_but_options(&enc_wired),
                option_views(enc.options@) == option_views(settings@.take(i as int)),
            decreases settings@.len() - i,
        {
            let pair = &settings[i];
            match enc.set_option(pair.0.as_str(), pair.1.as_str()) {
                Ok(_) => {},
                Err(e) => {
                    // unreachable: the profile defaults' keys are never empty
                    proof {
                        reveal_strlit("preset");
                        reveal_strlit("tune");
                        assert(option_views(settings@)[i as int] == (
                            settings@[i as int].0@,
                            settings@[i as int].1@,
                        ));
                        assert(option_views(settings@).len() == settings@.len());
                        assert(spec_default_settings(self.codec@).len() == settings@.len());
                        assert(settings@.len() == 2 && (self.codec@ == "h264_nvenc"@));
                        assert(settings@[i as int].0@ == "preset"@ || settings@[i as int].0@
                            == "tune"@);
                        assert(false);
                    }
                    return Err(e);
                },
            }
            proof {
                assert(option_views(enc.options@) =~= option_views(
                    settings@.take(i as int),
                ).push((settings@[i as int].0@, settings@[i as int].1@)));
                assert(option_views(settings@.take(i as int + 1)) =~= option_views(
                    settings@.take(i as int),
                ).push((settings@[i as int].0@, settings@[i as int].1@)));
            }
            i += 1;
        }
        proof {
            assert(settings@.take(settings@.len() as int) =~= settings@);
        }

        if self.example_frame.width == 0 || self.example_frame.height == 0 {
            match enc.hw_frames_ctx {
                Some(h) => {
                    pool.release(h);
                },
                None => {},
            }
            return Err(StreamError::EncoderOpenFailed);
        }

        Ok(OpenedEncoder { config: enc, queue: Vec::new() })
    }
}

/// Drives the encoder's input/output state machine over a paced capture
/// source, yielding timestamped encoded packets. Each call first tries to
/// drain a packet; when the encoder needs input instead, the pacing adapter
/// is pulled once — `Pending(wait)` asks the caller to sleep `wait`
/// milliseconds and call again, so the iterator itself never blocks. A
/// `Complete` from the adapter, or any error, finishes the iterator for
/// good: afterwards every call answers `Complete` without touching the
/// backend or the encoder.
#[derive(Debug)]
pub struct EncodedPacketIter<T> {
    pub source: PollSource<T>,
    pub encoder: OpenedEncoder,
    pub frame_next: RawFrame,
    /// The capture-relative elapsed time of the newest frame fed in; every
    /// drained packet is stamped with it.
    pub frame_timestamp: Delta,
    pub finished: bool,
}

impl<T> EncodedPacketIter<T> {
    /// The iterator's bookkeeping stays consistent: the pacing state is
    /// well formed and the newest frame timestamp never runs ahead of the
    /// elapsed time already observed.
    pub open spec fn wf(&self) -> bool {
        &&& self.source.state.wf()
        &&& self.frame_timestamp <= self.source.state.last_now - self.source.state.start
    }

    /// Pairs an opened encoder with a capture backend, pacing the backend
    /// at the encoder's configured frame rate from the given start instant.
    pub fn new(encoder: OpenedEncoder, source: T, start: u64) -> (it: EncodedPacketIter<T>)
        requires
            encoder.config.frame_rate matches Some(fr) && fr.is_positive(),
        ensures
            it.encoder == encoder,
            it.source.source == source,
            it.source.state == (PollState {
                start,
                next: None,
                last_now: start,
                target_fps: encoder.config.frame_rate->0,
                complete: false,
            }),
            it.frame_next.width == 0 && it.frame_next.height == 0,
            it.frame_timestamp == 0,
            !it.finished,
            it.wf(),
    {
        let target_fps = encoder.frame_rate();
        let source = PollSource::new(source, target_fps, start);
        EncodedPacketIter {
            source,
            encoder,
            frame_next: RawFrame::empty(),
            frame_timestamp: 0,
            finished: false,
        }
    }
}

impl<T: Source> EncodedPacketIter<T> {
    /// One cooperative step of packet production at time `now` (in
    /// milliseconds, on a clock that never runs backwards).
    ///
    /// Every packet comes out stamped with the capture-relative elapsed
    /// time of the frame that produced it, and those stamps never decrease
    /// across the life of the iterator. A `Pending(wait)` repeats the
    /// pacing adapter's computed wait. Once finished — by `Complete` or by
    /// an error item — the iterator stays finished and answers `Complete`
    /// without pulling the backend again.
    pub fn next(&mut self, now: u64) -> (r: Output<Result<EncodedPacket, StreamError>>)
        requires
            old(self).wf(),
            now >= old(self).source.state.last_now,
            now + spec_frame_interval_ms(old(self).source.state.target_fps) <= u64::MAX,
        ensures
            final(self).wf(),
            final(self).source.state.start == old(self).source.state.start,
            final(self).source.state.target_fps == old(self).source.state.target_fps,
            final(self).frame_timestamp >= old(self).frame_timestamp,
            old(self).finished ==> r is Complete && *final(self) == *old(self),
            r matches Output::Item(item, d) ==> (item matches Ok(p) ==> p.1 == d
                && final(self).frame_timestamp == d && d >= old(self).frame_timestamp),
            r matches Output::Item(item, d) ==> (item is Err ==> final(self).finished),
            r is Complete ==> final(self).finished,
            r matches Output::Pending(w) ==> !final(self).finished && w == spec_wait(
                old(self).source.state,
                now,
            ),
            // a packet already encoded is drained first, stamped with the
            // newest frame's elapsed time, before the backend is consulted
            !old(self).finished && old(self).encoder.queue@.len() > 0 ==> r == Output::<
                Result<EncodedPacket, StreamError>,
            >::Item(
                Ok(EncodedPacket(old(self).encoder.queue@[0], old(self).frame_timestamp)),
                old(self).frame_timestamp,
            ) && final(self).encoder.queue@ == old(self).encoder.queue@.drop_first()
                && final(self).source == old(self).source,
            // with the encoder drained, a produced frame is fed and comes
            // straight back out as its packet, at its elapsed time
            !old(self).finished && old(self).encoder.queue@.len() == 0 ==> (r matches
                Output::Item(item, d) ==> (item matches Ok(p) ==> d
                == now - old(self).source.state.start && p.0 == packet_of(final(self).frame_next)
                && final(self).encoder.queue@.len() == 0)),
            !old(self).finished ==> (r is Complete ==> final(self).source.state.complete),
            final(self).encoder.config == old(self).encoder.config,
    {
        if self.finished {
            return Output::Complete;
        }
        let mut p = Packet::empty();

        // drain a packet from the encoder; reuse the newest frame timestamp
        match self.encoder.receive_packet(&mut p) {
            Ok(_) => {
                return Output::Item(Ok(EncodedPacket(p, self.frame_timestamp)), self.frame_timestamp);
            },
            Err(StreamError::WouldRetry) => {},
            Err(e) => {
                self.finished = true;
                return Output::Item(Err(e), self.frame_timestamp);
            },
        }

        // the encoder needs input: pull the pacing adapter once
        match self.source.next(now, &mut self.frame_next) {
            Output::Complete => {
                self.finished = true;
                return Output::Complete;
            },
            Output::Pending(w) => {
                return Output::Pending(w);
            },
            Output::Item(Err(e), d) => {
                self.finished = true;
                return Output::Item(Err(e), d);
            },
            Output::Item(Ok(_), d) => {
                self.frame_timestamp = d;
                match self.encoder.send_frame(&self.frame_next) {
                    Ok(_) => {},
                    Err(e) => {
                        self.finished = true;
                        return Output::Item(Err(e), d);
                    },
                }
                match self.encoder.receive_packet(&mut p) {
                    Ok(_) => {
                        return Output::Item(Ok(EncodedPacket(p, d)), d);
                    },
                    Err(StreamError::WouldRetry) => {
                        return Output::Pending(0);
                    },
                    Err(e) => {
                        self.finished = true;
                        return Output::Item(Err(e), d);
                    },
                }
            },
        }
    }
}

/// Feeds one frame to the encoder and attempts one drain: the packet if one
/// is ready, `None` while the encoder holds its output back.
pub fn encode(encoder: &mut OpenedEncoder, frame: &RawFrame) -> (r: Result<
    Option<Packet>,
    StreamError,
>)
    ensures
        final(encoder).config == old(encoder).config,
        r == Ok::<Option<Packet>, StreamError>(
            Some(old(encoder).queue@.push(packet_of(*frame))[0]),
        ),
        final(encoder).queue@ == old(encoder).queue@.push(packet_of(*frame)).drop_first(),
{
    encoder.send_frame(frame)?;

    let mut packet = Packet::empty();
    if encoder.receive_packet(&mut packet).is_ok() {
        return Ok(Some(packet));
    }

    Ok(None)
}

} // verus!
