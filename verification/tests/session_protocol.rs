//! Tests driving real engine sessions: packet-per-frame accounting,
//! repeated flushes, the first-encode scenario and creation failures.

use std::collections::BTreeSet;

use rav1e_native::config::{ChromaSampling, ExEncoderConfig, StrictConfig};
use rav1e_native::session::{EncoderStatus, Rav1e};

fn record(width: usize, height: usize) -> ExEncoderConfig {
    ExEncoderConfig {
        width,
        height,
        sample_aspect_ratio: None,
        time_base: None,
        bit_depth: None,
        chroma_sampling: None,
        chroma_sample_position: None,
        pixel_range: None,
        enable_timing_info: None,
        still_picture: None,
        error_resilient: None,
        switch_frame_interval: None,
        min_key_frame_interval: None,
        max_key_frame_interval: None,
        reservoir_frame_delay: None,
        low_latency: None,
        quantizer: None,
        min_quantizer: None,
        bitrate: None,
        tune: None,
        tile_cols: None,
        tile_rows: None,
        tiles: None,
        rdo_lookahead_frames: None,
        speed_settings: None,
    }
}

/// Plane sizes for one frame under the given strict configuration, with
/// the width as stride (8-bit samples).
fn plane_sizes(cfg: &StrictConfig) -> (usize, usize, usize) {
    let luma = cfg.width * cfg.height;
    let chroma = match cfg.chroma_sampling {
        ChromaSampling::Cs444 => luma,
        ChromaSampling::Cs422 => ((cfg.width + 1) / 2) * cfg.height,
        ChromaSampling::Cs420 => ((cfg.width + 1) / 2) * ((cfg.height + 1) / 2),
        ChromaSampling::Cs400 => 0,
    };
    (luma, chroma, chroma)
}

/// Submits `count` frames of varying flat gray levels, then flushes, and
/// returns every input frame number seen, with how many packets arrived.
fn run_session(strict: StrictConfig, count: usize) -> (Vec<u64>, usize) {
    let (y_len, cb_len, cr_len) = plane_sizes(&strict);
    let mut session = Rav1e::new(strict).unwrap();
    let mut frame_numbers: Vec<u64> = Vec::new();
    for i in 0..count {
        let level = (i * 17 % 256) as u8;
        let y = vec![level; y_len];
        let cb = vec![level; cb_len];
        let cr = vec![level; cr_len];
        match session.encode([y.as_slice(), cb.as_slice(), cr.as_slice()]) {
            Ok((frameno, packet)) => {
                assert!(!packet.is_empty());
                frame_numbers.push(frameno);
            }
            Err(EncoderStatus::NeedMoreData) | Err(EncoderStatus::Encoded) => {}
            Err(other) => panic!("unexpected status during encode: {:?}", other),
        }
    }
    let drained = session.flush().unwrap();
    for (frameno, packet) in &drained {
        assert!(!packet.is_empty());
        frame_numbers.push(*frameno);
    }
    // A second flush on the fully drained session succeeds with nothing
    // left to return.
    let again = session.flush().unwrap();
    assert!(again.is_empty());
    (frame_numbers, drained.len())
}

#[test]
fn one_packet_per_frame_c420() {
    let mut rec = record(16, 16);
    rec.chroma_sampling = Some("C420".to_owned());
    let strict = rec.to_rav1e().unwrap();
    let n = 4;
    let (frame_numbers, _) = run_session(strict, n);
    assert_eq!(frame_numbers.len(), n);
    let distinct: BTreeSet<u64> = frame_numbers.iter().copied().collect();
    let expected: BTreeSet<u64> = (0..n as u64).collect();
    assert_eq!(distinct, expected);
}

#[test]
fn flush_twice_on_drained_session_is_empty() {
    let mut rec = record(16, 16);
    rec.chroma_sampling = Some("C420".to_owned());
    rec.speed_settings = Some(10);
    let strict = rec.to_rav1e().unwrap();
    let mut session = Rav1e::new(strict).unwrap();
    let (y_len, cb_len, cr_len) = plane_sizes(&strict);
    let y = vec![90u8; y_len];
    let cb = vec![120u8; cb_len];
    let cr = vec![150u8; cr_len];
    let from_encode = session.encode([y.as_slice(), cb.as_slice(), cr.as_slice()]).is_ok();
    let first = session.flush().unwrap();
    assert_eq!(first.len(), if from_encode { 0 } else { 1 });
    let second = session.flush().unwrap();
    assert!(second.is_empty());
    let third = session.flush().unwrap();
    assert!(third.is_empty());
}

#[test]
fn first_encode_scenario_64x64() {
    // Only the geometry is supplied; creation must succeed, and the
    // first well-shaped frame yields either packet zero at once or the
    // need-more-data status while the lookahead fills. The final flush
    // then accounts for the one submitted frame exactly once.
    let strict = record(64, 64).to_rav1e().unwrap();
    let (y_len, cb_len, cr_len) = plane_sizes(&strict);
    let mut session = Rav1e::new(strict).unwrap();
    let y = vec![64u8; y_len];
    let cb = vec![128u8; cb_len];
    let cr = vec![128u8; cr_len];
    let mut got_packet_zero = false;
    match session.encode([y.as_slice(), cb.as_slice(), cr.as_slice()]) {
        Ok((frameno, packet)) => {
            assert_eq!(frameno, 0);
            assert!(!packet.is_empty());
            got_packet_zero = true;
        }
        Err(EncoderStatus::NeedMoreData) => {}
        Err(other) => panic!("unexpected status during encode: {:?}", other),
    }
    let drained = session.flush().unwrap();
    if got_packet_zero {
        assert!(drained.is_empty());
    } else {
        assert_eq!(drained.len(), 1);
        assert_eq!(drained[0].0, 0);
    }
}

#[test]
fn packets_arrive_after_lookahead_depth() {
    // With the fastest preset the lookahead window is ten frames; after
    // submitting well past that depth, some encode call must hand back a
    // packet before the flush, and the flush then completes the set of
    // frame numbers exactly.
    let mut rec = record(64, 64);
    rec.speed_settings = Some(10);
    let strict = rec.to_rav1e().unwrap();
    let n = 25;
    let (y_len, cb_len, cr_len) = plane_sizes(&strict);
    let mut session = Rav1e::new(strict).unwrap();
    let mut from_encode = 0usize;
    let mut frame_numbers: Vec<u64> = Vec::new();
    for i in 0..n {
        let level = (i * 11 % 256) as u8;
        let y = vec![level; y_len];
        let cb = vec![255 - level; cb_len];
        let cr = vec![level / 2; cr_len];
        match session.encode([y.as_slice(), cb.as_slice(), cr.as_slice()]) {
            Ok((frameno, _)) => {
                from_encode += 1;
                frame_numbers.push(frameno);
            }
            Err(EncoderStatus::NeedMoreData) | Err(EncoderStatus::Encoded) => {}
            Err(other) => panic!("unexpected status during encode: {:?}", other),
        }
    }
    assert!(from_encode > 0);
    for (frameno, _) in session.flush().unwrap() {
        frame_numbers.push(frameno);
    }
    assert_eq!(frame_numbers.len(), n);
    let distinct: BTreeSet<u64> = frame_numbers.iter().copied().collect();
    let expected: BTreeSet<u64> = (0..n as u64).collect();
    assert_eq!(distinct, expected);
}

#[test]
fn encode_after_flush_reports_enough_data() {
    let mut rec = record(16, 16);
    rec.speed_settings = Some(10);
    let strict = rec.to_rav1e().unwrap();
    let (y_len, cb_len, cr_len) = plane_sizes(&strict);
    let mut session = Rav1e::new(strict).unwrap();
    session.flush().unwrap();
    let y = vec![10u8; y_len];
    let cb = vec![20u8; cb_len];
    let cr = vec![30u8; cr_len];
    assert_eq!(session.encode([y.as_slice(), cb.as_slice(), cr.as_slice()]), Err(EncoderStatus::EnoughData));
}

#[test]
fn wrong_plane_sizes_fail_unrecoverably() {
    // Plane shapes are the caller's contract: a mismatched buffer is an
    // unrecoverable failure for that call, never silently truncated,
    // and the session itself is untouched by the failed call.
    let mut rec = record(16, 16);
    rec.chroma_sampling = Some("C420".to_owned());
    rec.speed_settings = Some(10);
    let strict = rec.to_rav1e().unwrap();
    let mut session = Rav1e::new(strict).unwrap();
    let short_y = vec![0u8; 255];
    let cb = vec![0u8; 64];
    let cr = vec![0u8; 64];
    assert_eq!(
        session.encode([short_y.as_slice(), cb.as_slice(), cr.as_slice()]),
        Err(EncoderStatus::Failure)
    );
    let y = vec![0u8; 256];
    let mut packet_from_encode = false;
    match session.encode([y.as_slice(), cb.as_slice(), cr.as_slice()]) {
        Ok((frameno, _)) => {
            assert_eq!(frameno, 0);
            packet_from_encode = true;
        }
        Err(EncoderStatus::NeedMoreData) => {}
        Err(other) => panic!("unexpected status during encode: {:?}", other),
    }
    let drained = session.flush().unwrap();
    assert_eq!(drained.len(), if packet_from_encode { 0 } else { 1 });
}

#[test]
fn engine_rejects_small_geometry() {
    // The normalizer accepts any positive geometry, but the engine
    // itself requires at least 16x16 outside still-picture mode; the
    // rejection surfaces the engine's own diagnostic.
    let strict = record(8, 8).to_rav1e().unwrap();
    match Rav1e::new(strict) {
        Ok(_) => panic!("an 8x8 non-still configuration must be rejected"),
        Err(err) => assert!(err.detail.contains("width")),
    }
}
