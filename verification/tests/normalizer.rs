//! Tests for configuration normalization: defaulting, token decoding,
//! validation errors and determinism.

use rav1e_native::config::{
    ChromaSamplePosition, ChromaSampling, ConfigError, ConfigField, ConfigIssue, ExEncoderConfig,
    PixelRange, StrictConfig, Tune,
};

fn record(width: usize, height: usize) -> ExEncoderConfig {
    ExEncoderConfig {
        width,
        height,
        sample_aspect_ratio: None,
        time_base: None,
        bit_depth: None,
        chroma_sampling: None,
        chroma_sample_position: None,
        pixel_range: None,
        enable_timing_info: None,
        still_picture: None,
        error_resilient: None,
        switch_frame_interval: None,
        min_key_frame_interval: None,
        max_key_frame_interval: None,
        reservoir_frame_delay: None,
        low_latency: None,
        quantizer: None,
        min_quantizer: None,
        bitrate: None,
        tune: None,
        tile_cols: None,
        tile_rows: None,
        tiles: None,
        rdo_lookahead_frames: None,
        speed_settings: None,
    }
}

#[test]
fn geometry_only_matches_baseline() {
    let strict = record(320, 240).to_rav1e().unwrap();
    let mut expected = StrictConfig::baseline();
    expected.width = 320;
    expected.height = 240;
    assert_eq!(strict, expected);
}

#[test]
fn baseline_keeps_chroma_override() {
    // Regression test for the deliberate baseline override: absent
    // chroma subsampling resolves to 4:4:4, not the engine's own 4:2:0
    // default.
    let strict = record(64, 64).to_rav1e().unwrap();
    assert_eq!(strict.chroma_sampling, ChromaSampling::Cs444);
    assert_eq!(strict.tune, Tune::Psychovisual);
    assert_eq!(strict.speed_preset, 6);
}

#[test]
fn accepted_chroma_tokens_decode() {
    let cases = [
        ("C444", ChromaSampling::Cs444),
        ("C420", ChromaSampling::Cs420),
        ("C422", ChromaSampling::Cs422),
        ("C400", ChromaSampling::Cs400),
    ];
    for (token, expected) in cases {
        let mut rec = record(16, 16);
        rec.chroma_sampling = Some(token.to_owned());
        let strict = rec.to_rav1e().unwrap();
        assert_eq!(strict.chroma_sampling, expected);
    }
}

#[test]
fn accepted_position_tokens_decode() {
    let cases = [
        ("Unknown", ChromaSamplePosition::Unknown),
        ("Vertical", ChromaSamplePosition::Vertical),
        ("Colocated", ChromaSamplePosition::Colocated),
    ];
    for (token, expected) in cases {
        let mut rec = record(16, 16);
        rec.chroma_sample_position = Some(token.to_owned());
        let strict = rec.to_rav1e().unwrap();
        assert_eq!(strict.chroma_sample_position, expected);
    }
}

#[test]
fn accepted_range_tokens_decode() {
    let cases = [("limited", PixelRange::Limited), ("full", PixelRange::Full)];
    for (token, expected) in cases {
        let mut rec = record(16, 16);
        rec.pixel_range = Some(token.to_owned());
        let strict = rec.to_rav1e().unwrap();
        assert_eq!(strict.pixel_range, expected);
    }
}

#[test]
fn accepted_tune_tokens_decode() {
    let cases = [("psnr", Tune::Psnr), ("psychovisual", Tune::Psychovisual)];
    for (token, expected) in cases {
        let mut rec = record(16, 16);
        rec.tune = Some(token.to_owned());
        let strict = rec.to_rav1e().unwrap();
        assert_eq!(strict.tune, expected);
    }
}

#[test]
fn unknown_chroma_token_fails() {
    let mut rec = record(16, 16);
    rec.chroma_sampling = Some("C411".to_owned());
    let err = rec.to_rav1e().unwrap_err();
    assert_eq!(
        err,
        ConfigError::InvalidEnumValue(ConfigField::ChromaSampling, "C411".to_owned())
    );
}

#[test]
fn token_decoding_is_case_sensitive() {
    let mut rec = record(16, 16);
    rec.chroma_sampling = Some("c444".to_owned());
    assert_eq!(
        rec.to_rav1e().unwrap_err(),
        ConfigError::InvalidEnumValue(ConfigField::ChromaSampling, "c444".to_owned())
    );
    let mut rec = record(16, 16);
    rec.tune = Some("PSNR".to_owned());
    assert_eq!(
        rec.to_rav1e().unwrap_err(),
        ConfigError::InvalidEnumValue(ConfigField::Tune, "PSNR".to_owned())
    );
}

#[test]
fn unknown_tune_token_fails() {
    let mut rec = record(16, 16);
    rec.tune = Some("sharpness".to_owned());
    assert_eq!(
        rec.to_rav1e().unwrap_err(),
        ConfigError::InvalidEnumValue(ConfigField::Tune, "sharpness".to_owned())
    );
}

#[test]
fn unknown_range_token_fails() {
    let mut rec = record(16, 16);
    rec.pixel_range = Some("studio".to_owned());
    assert_eq!(
        rec.to_rav1e().unwrap_err(),
        ConfigError::InvalidEnumValue(ConfigField::PixelRange, "studio".to_owned())
    );
}

#[test]
fn unknown_position_token_fails() {
    let mut rec = record(16, 16);
    rec.chroma_sample_position = Some("Left".to_owned());
    assert_eq!(
        rec.to_rav1e().unwrap_err(),
        ConfigError::InvalidEnumValue(ConfigField::ChromaSamplePosition, "Left".to_owned())
    );
}

#[test]
fn first_bad_field_wins() {
    // Both tokens are bad; the chroma subsampling field is checked first.
    let mut rec = record(16, 16);
    rec.chroma_sampling = Some("bogus".to_owned());
    rec.tune = Some("bogus".to_owned());
    assert_eq!(
        rec.to_rav1e().unwrap_err(),
        ConfigError::InvalidEnumValue(ConfigField::ChromaSampling, "bogus".to_owned())
    );
}

#[test]
fn zero_geometry_fails() {
    assert_eq!(
        record(0, 16).to_rav1e().unwrap_err(),
        ConfigError::InvalidConfig(ConfigIssue::ZeroWidth)
    );
    assert_eq!(
        record(16, 0).to_rav1e().unwrap_err(),
        ConfigError::InvalidConfig(ConfigIssue::ZeroHeight)
    );
}

#[test]
fn unsupported_bit_depth_fails() {
    let mut rec = record(16, 16);
    rec.bit_depth = Some(10);
    assert_eq!(
        rec.to_rav1e().unwrap_err(),
        ConfigError::InvalidConfig(ConfigIssue::UnsupportedBitDepth)
    );
    let mut rec = record(16, 16);
    rec.bit_depth = Some(12);
    assert_eq!(
        rec.to_rav1e().unwrap_err(),
        ConfigError::InvalidConfig(ConfigIssue::UnsupportedBitDepth)
    );
    let mut rec = record(16, 16);
    rec.bit_depth = Some(8);
    assert_eq!(rec.to_rav1e().unwrap().bit_depth, 8);
}

#[test]
fn normalize_twice_is_identical() {
    let mut rec = record(128, 96);
    rec.chroma_sampling = Some("C420".to_owned());
    rec.quantizer = Some(80);
    rec.speed_settings = Some(4);
    let first = rec.clone().to_rav1e();
    let second = rec.to_rav1e();
    assert_eq!(first, second);
}

#[test]
fn speed_preset_resolves_and_clamps() {
    let mut rec = record(16, 16);
    rec.speed_settings = Some(3);
    assert_eq!(rec.to_rav1e().unwrap().speed_preset, 3);
    let mut rec = record(16, 16);
    rec.speed_settings = Some(12);
    assert_eq!(rec.to_rav1e().unwrap().speed_preset, 10);
    assert_eq!(record(16, 16).to_rav1e().unwrap().speed_preset, 6);
}

#[test]
fn absent_lookahead_keeps_preset_choice() {
    // Regression test for the delegated default: an absent lookahead
    // count resolves to the speed preset's own documented depth (40 up
    // to preset 2, 30 up to 5, 20 up to 7, 10 from 8 on), not to one
    // fixed number; a present count always wins.
    assert_eq!(record(16, 16).to_rav1e().unwrap().rdo_lookahead_frames, 20);
    let mut rec = record(16, 16);
    rec.speed_settings = Some(0);
    assert_eq!(rec.to_rav1e().unwrap().rdo_lookahead_frames, 40);
    let mut rec = record(16, 16);
    rec.speed_settings = Some(4);
    assert_eq!(rec.to_rav1e().unwrap().rdo_lookahead_frames, 30);
    let mut rec = record(16, 16);
    rec.speed_settings = Some(10);
    assert_eq!(rec.to_rav1e().unwrap().rdo_lookahead_frames, 10);
    let mut rec = record(16, 16);
    rec.speed_settings = Some(10);
    rec.rdo_lookahead_frames = Some(33);
    assert_eq!(rec.to_rav1e().unwrap().rdo_lookahead_frames, 33);
}

#[test]
fn present_fields_override_defaults() {
    let mut rec = record(48, 32);
    rec.sample_aspect_ratio = Some((4, 3));
    rec.time_base = Some((1001, 30000));
    rec.bit_depth = Some(8);
    rec.enable_timing_info = Some(true);
    rec.still_picture = Some(false);
    rec.error_resilient = Some(true);
    rec.switch_frame_interval = Some(5);
    rec.min_key_frame_interval = Some(2);
    rec.max_key_frame_interval = Some(60);
    rec.reservoir_frame_delay = Some(24);
    rec.low_latency = Some(true);
    rec.quantizer = Some(72);
    rec.min_quantizer = Some(16);
    rec.bitrate = Some(500_000);
    rec.tile_cols = Some(2);
    rec.tile_rows = Some(1);
    rec.tiles = Some(4);
    rec.rdo_lookahead_frames = Some(15);
    let strict = rec.to_rav1e().unwrap();
    assert_eq!(strict.width, 48);
    assert_eq!(strict.height, 32);
    assert_eq!(strict.sample_aspect_ratio, (4, 3));
    assert_eq!(strict.time_base, (1001, 30000));
    assert_eq!(strict.enable_timing_info, true);
    assert_eq!(strict.error_resilient, true);
    assert_eq!(strict.switch_frame_interval, 5);
    assert_eq!(strict.min_key_frame_interval, 2);
    assert_eq!(strict.max_key_frame_interval, 60);
    assert_eq!(strict.reservoir_frame_delay, Some(24));
    assert_eq!(strict.low_latency, true);
    assert_eq!(strict.quantizer, 72);
    assert_eq!(strict.min_quantizer, 16);
    assert_eq!(strict.bitrate, 500_000);
    assert_eq!(strict.tile_cols, 2);
    assert_eq!(strict.tile_rows, 1);
    assert_eq!(strict.tiles, 4);
    assert_eq!(strict.rdo_lookahead_frames, 15);
}
