//! The narrow trusted layer around the rav1e encoder: type declarations
//! for the engine's opaque values and one small wrapper per engine call.
//! Everything above this module is verified against the contracts stated
//! here; everything below it is the engine's own code.
//!
//! The wrappers only move plain values into and out of the engine's
//! types; no rule of this library lives here.

use vstd::prelude::*;
use rav1e::prelude::EncoderStatus as EngineStatus;
use crate::config::{ChromaSamplePosition, ChromaSampling, PixelRange, StrictConfig, Tune};
use crate::session::EncoderStatus;

verus! {

#[verifier::external_type_specification]
#[verifier::external_body]
pub struct ExEngineConfig(rav1e::prelude::EncoderConfig);

/// The engine's opaque per-session state: one 8-bit-pixel rav1e context.
/// Its generic pixel trait keeps the context's own type from being
/// declared to the verifier, so it is hidden in this opaque holder and
/// reached only through the wrappers below.
#[verifier::external_body]
pub struct EngineContext {
    context: rav1e::Context<u8>,
}

/// One opaque engine frame under construction: three planar buffers
/// allocated by the context, hidden for the same reason as the context.
#[verifier::external_body]
pub struct EngineFrame {
    frame: rav1e::prelude::Frame<u8>,
}

/// The resolved fields an engine configuration holds, read back as this
/// library's strict record: what the setters below write in, named so
/// that their effect can be stated.
pub uninterp spec fn engine_fields(enc: rav1e::prelude::EncoderConfig) -> StrictConfig;

/// Whether the engine's own validation accepts a configuration with
/// these resolved fields: a deterministic check of the fields alone.
pub uninterp spec fn engine_accepts(cfg: StrictConfig) -> bool;

/// The frames a context has accepted so far, oldest first, each as its
/// three raw plane buffers paired with the source stride they were laid
/// out at.
pub uninterp spec fn submissions(context: EngineContext) -> Seq<Seq<(Seq<u8>, nat)>>;

/// The raw buffer and source stride each plane of a frame was last
/// filled from; a fresh frame's planes were filled from nothing.
pub uninterp spec fn plane_fills(frame: EngineFrame) -> Seq<(Seq<u8>, nat)>;

/// How much work a context can still do when polled: every poll that
/// returns a packet or reports a frame encoded advances the encoder by
/// at least one output frame, of which a context holds finitely many.
pub uninterp spec fn poll_budget(context: EngineContext) -> nat;

/// Whether the context has been told the stream is over; polling never
/// takes the mark away.
pub uninterp spec fn eos_signaled(context: EngineContext) -> bool;

/// The resolved fields of the configuration a context was created from;
/// they never change for the context's lifetime.
pub uninterp spec fn context_config(context: EngineContext) -> StrictConfig;

/// The resolved fields of the configuration whose context allocated a
/// frame: they fix the frame's plane geometry.
pub uninterp spec fn frame_config(frame: EngineFrame) -> StrictConfig;

/// How many packets the context has emitted so far. The engine numbers
/// packets by their source frame and emits them in submission order, so
/// the next packet's index is exactly this count.
pub uninterp spec fn emitted(context: EngineContext) -> nat;


/// Relies on rav1e's `EncoderConfig::default`: a configuration holding
/// the engine's documented defaults for every field — this library's
/// baseline except for the chroma subsampling, which the engine defaults
/// to 4:2:0.
#[verifier::external_body]
fn default_config() -> (r: rav1e::prelude::EncoderConfig)
    ensures
        engine_fields(r) == (StrictConfig {
            chroma_sampling: ChromaSampling::Cs420,
            ..StrictConfig::spec_baseline()
        }),
{
    rav1e::prelude::EncoderConfig::default()
}

/// Moves the resolved geometry into the engine configuration; relies on
/// `Rational::new`, which stores the numerator and denominator verbatim.
#[verifier::external_body]
fn set_geometry(
    enc: &mut rav1e::prelude::EncoderConfig,
    width: usize,
    height: usize,
    sample_aspect_ratio: (u64, u64),
    time_base: (u64, u64),
)
    ensures
        engine_fields(*final(enc)) == (StrictConfig {
            width,
            height,
            sample_aspect_ratio,
            time_base,
            ..engine_fields(*old(enc))
        }),
{
    enc.width = width;
    enc.height = height;
    enc.sample_aspect_ratio = rav1e::prelude::Rational::new(
        sample_aspect_ratio.0,
        sample_aspect_ratio.1,
    );
    enc.time_base = rav1e::prelude::Rational::new(time_base.0, time_base.1);
}

/// Moves the resolved format and ancillary fields into the engine
/// configuration, field for field.
#[verifier::external_body]
fn set_format(
    enc: &mut rav1e::prelude::EncoderConfig,
    bit_depth: usize,
    enable_timing_info: bool,
    still_picture: bool,
    error_resilient: bool,
    switch_frame_interval: u64,
)
    ensures
        engine_fields(*final(enc)) == (StrictConfig {
            bit_depth,
            enable_timing_info,
            still_picture,
            error_resilient,
            switch_frame_interval,
            ..engine_fields(*old(enc))
        }),
{
    enc.bit_depth = bit_depth;
    enc.enable_timing_info = enable_timing_info;
    enc.still_picture = still_picture;
    enc.error_resilient = error_resilient;
    enc.switch_frame_interval = switch_frame_interval;
}

/// Translates this library's chroma subsampling value to the engine's,
/// variant for variant.
#[verifier::external_body]
fn set_chroma(enc: &mut rav1e::prelude::EncoderConfig, chroma: ChromaSampling)
    ensures
        engine_fields(*final(enc)) == (StrictConfig {
            chroma_sampling: chroma,
            ..engine_fields(*old(enc))
        }),
{
    enc.chroma_sampling = match chroma {
        ChromaSampling::Cs444 => rav1e::prelude::ChromaSampling::Cs444,
        ChromaSampling::Cs420 => rav1e::prelude::ChromaSampling::Cs420,
        ChromaSampling::Cs422 => rav1e::prelude::ChromaSampling::Cs422,
        ChromaSampling::Cs400 => rav1e::prelude::ChromaSampling::Cs400,
    };
}

/// Translates this library's chroma sample position value to the
/// engine's, variant for variant.
#[verifier::external_body]
fn set_chroma_pos(enc: &mut rav1e::prelude::EncoderConfig, pos: ChromaSamplePosition)
    ensures
        engine_fields(*final(enc)) == (StrictConfig {
            chroma_sample_position: pos,
            ..engine_fields(*old(enc))
        }),
{
    enc.chroma_sample_position = match pos {
        ChromaSamplePosition::Unknown => rav1e::prelude::ChromaSamplePosition::Unknown,
        ChromaSamplePosition::Vertical => rav1e::prelude::ChromaSamplePosition::Vertical,
        ChromaSamplePosition::Colocated => rav1e::prelude::ChromaSamplePosition::Colocated,
    };
}

/// Translates this library's pixel range value to the engine's, variant
/// for variant.
#[verifier::external_body]
fn set_pixel_range(enc: &mut rav1e::prelude::EncoderConfig, range: PixelRange)
    ensures
        engine_fields(*final(enc)) == (StrictConfig {
            pixel_range: range,
            ..engine_fields(*old(enc))
        }),
{
    enc.pixel_range = match range {
        PixelRange::Limited => rav1e::prelude::PixelRange::Limited,
        PixelRange::Full => rav1e::prelude::PixelRange::Full,
    };
}

/// Translates this library's tuning metric value to the engine's,
/// variant for variant.
#[verifier::external_body]
fn set_tune(enc: &mut rav1e::prelude::EncoderConfig, tune: Tune)
    ensures
        engine_fields(*final(enc)) == (StrictConfig { tune, ..engine_fields(*old(enc)) }),
{
    enc.tune = match tune {
        Tune::Psnr => rav1e::prelude::Tune::Psnr,
        Tune::Psychovisual => rav1e::prelude::Tune::Psychovisual,
    };
}

/// Moves the resolved rate-control fields into the engine configuration,
/// field for field.
#[verifier::external_body]
fn set_rates(
    enc: &mut rav1e::prelude::EncoderConfig,
    min_key_frame_interval: u64,
    max_key_frame_interval: u64,
    reservoir_frame_delay: Option<i32>,
    low_latency: bool,
    quantizer: usize,
    min_quantizer: u8,
    bitrate: i32,
)
    ensures
        engine_fields(*final(enc)) == (StrictConfig {
            min_key_frame_interval,
            max_key_frame_interval,
            reservoir_frame_delay,
            low_latency,
            quantizer,
            min_quantizer,
            bitrate,
            ..engine_fields(*old(enc))
        }),
{
    enc.min_key_frame_interval = min_key_frame_interval;
    enc.max_key_frame_interval = max_key_frame_interval;
    enc.reservoir_frame_delay = reservoir_frame_delay;
    enc.low_latency = low_latency;
    enc.quantizer = quantizer;
    enc.min_quantizer = min_quantizer;
    enc.bitrate = bitrate;
}

/// Moves the resolved tiling fields into the engine configuration, field
/// for field.
#[verifier::external_body]
fn set_tiles(
    enc: &mut rav1e::prelude::EncoderConfig,
    tile_cols: usize,
    tile_rows: usize,
    tiles: usize,
)
    ensures
        engine_fields(*final(enc)) == (StrictConfig {
            tile_cols,
            tile_rows,
            tiles,
            ..engine_fields(*old(enc))
        }),
{
    enc.tile_cols = tile_cols;
    enc.tile_rows = tile_rows;
    enc.tiles = tiles;
}

/// Relies on `SpeedSettings::from_preset`: expands a preset index into
/// the engine's full speed-settings bundle, including the preset's own
/// documented lookahead depth (so any earlier override is gone). Above
/// 10 the engine reuses the fastest bundle, so the index could not be
/// read back; such presets are excluded here and clamped away by the
/// normalizer.
#[verifier::external_body]
fn set_speed(enc: &mut rav1e::prelude::EncoderConfig, preset: u8)
    requires
        preset <= 10,
    ensures
        engine_fields(*final(enc)) == (StrictConfig {
            speed_preset: preset,
            rdo_lookahead_frames: crate::config::preset_lookahead(preset),
            ..engine_fields(*old(enc))
        }),
{
    enc.speed_settings = rav1e::prelude::SpeedSettings::from_preset(preset);
}

/// Overrides the RDO lookahead depth chosen by the speed preset; the
/// engine keeps this field inside its speed settings.
#[verifier::external_body]
fn set_rdo_lookahead(enc: &mut rav1e::prelude::EncoderConfig, frames: usize)
    ensures
        engine_fields(*final(enc)) == (StrictConfig {
            rdo_lookahead_frames: frames,
            ..engine_fields(*old(enc))
        }),
{
    enc.speed_settings.rdo_lookahead_frames = frames;
}

/// Relies on `Config::new_context`: validates the configuration and
/// builds the engine context, with a bounded internal thread pool; on
/// rejection, the engine's own diagnostic is returned as text. The
/// validation is a deterministic check of the configuration's fields,
/// which accepts only geometries from 1 to 65535 on each side.
/// Building the thread pool aborts the process if the system refuses
/// threads, comparable to an allocation failure. Only
/// 8-bit depths are admitted here: deeper samples fail the engine's
/// pixel-size assertion instead of returning its error, and contexts
/// with shallower depths reach unimplemented quantizer tables when
/// polled.
#[verifier::external_body]
fn make_context(enc: rav1e::prelude::EncoderConfig) -> (r: Result<EngineContext, String>)
    requires
        engine_fields(enc).bit_depth == 8,
    ensures
        r is Ok <==> engine_accepts(engine_fields(enc)),
        r matches Ok(c) ==> submissions(c) =~= Seq::<Seq<(Seq<u8>, nat)>>::empty()
            && context_config(c) == engine_fields(enc) && emitted(c) == 0 && !eos_signaled(c)
            && engine_fields(enc).width >= 1 && engine_fields(enc).width <= 65535
            && engine_fields(enc).height >= 1 && engine_fields(enc).height <= 65535,
{
    let cfg = rav1e::Config::new().with_threads(4).with_encoder_config(enc);
    match cfg.new_context::<u8>() {
        Ok(context) => Ok(EngineContext { context }),
        Err(e) => Err(format!("{}", e)),
    }
}

/// Builds one engine context from a strict configuration: the engine's
/// defaults, overwritten group by group with the resolved fields, then
/// validated by the engine itself, so a context comes back exactly when
/// the engine accepts the configuration.
pub(crate) fn create_context(cfg: &StrictConfig) -> (r: Result<EngineContext, String>)
    requires
        cfg.bit_depth == 8,
        cfg.speed_preset <= 10,
    ensures
        r is Ok <==> engine_accepts(*cfg),
        r matches Ok(c) ==> submissions(c) =~= Seq::<Seq<(Seq<u8>, nat)>>::empty()
            && context_config(c) == *cfg && emitted(c) == 0 && !eos_signaled(c)
            && cfg.width >= 1 && cfg.width <= 65535 && cfg.height >= 1 && cfg.height
            <= 65535,
{
    let mut enc = default_config();
    set_geometry(&mut enc, cfg.width, cfg.height, cfg.sample_aspect_ratio, cfg.time_base);
    set_format(
        &mut enc,
        cfg.bit_depth,
        cfg.enable_timing_info,
        cfg.still_picture,
        cfg.error_resilient,
        cfg.switch_frame_interval,
    );
    set_chroma(&mut enc, cfg.chroma_sampling);
    set_chroma_pos(&mut enc, cfg.chroma_sample_position);
    set_pixel_range(&mut enc, cfg.pixel_range);
    set_tune(&mut enc, cfg.tune);
    set_rates(
        &mut enc,
        cfg.min_key_frame_interval,
        cfg.max_key_frame_interval,
        cfg.reservoir_frame_delay,
        cfg.low_latency,
        cfg.quantizer,
        cfg.min_quantizer,
        cfg.bitrate,
    );
    set_tiles(&mut enc, cfg.tile_cols, cfg.tile_rows, cfg.tiles);
    set_speed(&mut enc, cfg.speed_preset);
    set_rdo_lookahead(&mut enc, cfg.rdo_lookahead_frames);
    proof {
        assert(engine_fields(enc) == *cfg);
    }
    make_context(enc)
}

/// Relies on `Context::new_frame`: allocates a blank frame whose planes
/// match the context's geometry and chroma subsampling.
#[verifier::external_body]
pub(crate) fn new_frame(context: &EngineContext) -> (r: EngineFrame)
    ensures
        frame_config(r) == context_config(*context),
        plane_fills(r) =~= seq![
            (Seq::<u8>::empty(), 0nat),
            (Seq::<u8>::empty(), 0nat),
            (Seq::<u8>::empty(), 0nat),
        ],
{
    EngineFrame { frame: context.context.new_frame() }
}

/// Relies on `Plane::copy_from_raw_u8` with a byte width of 1: copies
/// the source into the plane row by row, as far as both reach. Contexts
/// exist only for engine-validated geometries, so the plane's own stride
/// is never zero, and with a positive source stride the copy cannot
/// panic.
#[verifier::external_body]
pub(crate) fn fill_plane(
    frame: &mut EngineFrame,
    plane_index: usize,
    src: &[u8],
    stride: usize,
)
    requires
        plane_index < 3,
        stride >= 1,
        stride == frame_config(*old(frame)).width,
        src@.len() == (if plane_index == 0 {
            frame_config(*old(frame)).spec_luma_len()
        } else {
            frame_config(*old(frame)).spec_chroma_len()
        }),
    ensures
        frame_config(*final(frame)) == frame_config(*old(frame)),
        plane_fills(*final(frame)) =~= plane_fills(*old(frame)).update(
            plane_index as int,
            (src@, stride as nat),
        ),
{
    frame.frame.planes[plane_index].copy_from_raw_u8(src, stride, 1);
}

/// Relies on `Context::send_frame` with a frame payload: queues the
/// frame for encoding, or reports `EnoughData` when the encoder accepts
/// no more frames (after end-of-stream, or a second frame of a
/// still-picture session); the engine pads the planes itself, reading
/// them with the geometry the context was created with, which is why a
/// frame must come from a context of the same configuration. One frame
/// short of the engine's 31-bit frame limit it accepts the frame but
/// starts flushing on its own, the one case where the end-of-stream
/// mark can move here. The engine's status is translated variant for
/// variant.
#[verifier::external_body]
pub(crate) fn send_frame(
    context: &mut EngineContext,
    frame: EngineFrame,
) -> (r: Result<(), EncoderStatus>)
    requires
        frame_config(frame) == context_config(*old(context)),
    ensures
        context_config(*final(context)) == context_config(*old(context)),
        emitted(*final(context)) == emitted(*old(context)),
        r is Ok ==> submissions(*final(context)) =~= submissions(*old(context)).push(
            plane_fills(frame),
        ),
        r is Err ==> submissions(*final(context)) == submissions(*old(context)),
        !eos_signaled(*old(context)) && (!context_config(*old(context)).still_picture
            || submissions(*old(context)).len() == 0) ==> r is Ok,
        submissions(*old(context)).len() != 2147483646 ==> eos_signaled(*final(context))
            == eos_signaled(*old(context)),
{
    match context.context.send_frame(frame.frame) {
        Ok(()) => Ok(()),
        Err(EngineStatus::NeedMoreData) => Err(EncoderStatus::NeedMoreData),
        Err(EngineStatus::EnoughData) => Err(EncoderStatus::EnoughData),
        Err(EngineStatus::LimitReached) => Err(EncoderStatus::LimitReached),
        Err(EngineStatus::Encoded) => Err(EncoderStatus::Encoded),
        Err(EngineStatus::Failure) => Err(EncoderStatus::Failure),
        Err(EngineStatus::NotReady) => Err(EncoderStatus::NotReady),
    }
}

/// Relies on `Context::send_frame` with no frame payload: signals
/// end-of-stream. The engine documents that this cannot fail — a first
/// signal marks the context as flushing and a repeated signal is
/// accepted and does nothing — so the result is always `Ok`.
#[verifier::external_body]
pub(crate) fn send_eos(context: &mut EngineContext) -> (r: Result<(), EncoderStatus>)
    ensures
        r is Ok,
        submissions(*final(context)) == submissions(*old(context)),
        context_config(*final(context)) == context_config(*old(context)),
        emitted(*final(context)) == emitted(*old(context)),
        eos_signaled(*final(context)),
{
    match context.context.send_frame(None) {
        Ok(()) => Ok(()),
        Err(_) => Err(EncoderStatus::Failure),
    }
}

/// Relies on `Context::receive_packet`: polls once for a compressed
/// packet, returning its source-frame index and data, or the engine's
/// status (`NeedMoreData` while the lookahead fills, `Encoded` when a
/// frame was processed without emitting a packet yet, `LimitReached`
/// once a flushed context is fully drained). A packet's index is the
/// submission counter its source frame was accepted under, so it always
/// falls short of the accepted-frame count. Contexts exist only for
/// 8-bit configurations (see `make_context`), whose quantizer tables
/// the engine implements, so polling cannot hit the deeper depths'
/// unimplemented paths. The engine's status is translated variant for
/// variant.
#[verifier::external_body]
pub(crate) fn receive_packet(
    context: &mut EngineContext,
) -> (r: Result<(u64, Vec<u8>), EncoderStatus>)
    ensures
        submissions(*final(context)) == submissions(*old(context)),
        context_config(*final(context)) == context_config(*old(context)),
        eos_signaled(*final(context)) == eos_signaled(*old(context)),
        r is Ok || r == Err::<(u64, Vec<u8>), EncoderStatus>(EncoderStatus::Encoded)
            ==> poll_budget(*final(context)) < poll_budget(*old(context)),
        r matches Ok(p) ==> (p.0 as nat) < submissions(*old(context)).len() && (
        p.0 as nat) == emitted(*old(context)) && emitted(*final(context)) == emitted(
            *old(context),
        ) + 1,
        r is Err ==> emitted(*final(context)) == emitted(*old(context)),
        eos_signaled(*old(context)) && r == Err::<(u64, Vec<u8>), EncoderStatus>(
            EncoderStatus::LimitReached,
        ) ==> emitted(*old(context)) == submissions(*old(context)).len(),
{
    match context.context.receive_packet() {
        Ok(packet) => Ok((packet.input_frameno, packet.data)),
        Err(EngineStatus::NeedMoreData) => Err(EncoderStatus::NeedMoreData),
        Err(EngineStatus::EnoughData) => Err(EncoderStatus::EnoughData),
        Err(EngineStatus::LimitReached) => Err(EncoderStatus::LimitReached),
        Err(EngineStatus::Encoded) => Err(EncoderStatus::Encoded),
        Err(EngineStatus::Failure) => Err(EncoderStatus::Failure),
        Err(EngineStatus::NotReady) => Err(EncoderStatus::NotReady),
    }
}

} // verus!
