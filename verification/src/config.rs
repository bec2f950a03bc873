//! Configuration normalization: turning a loosely-typed record whose
//! fields are mostly optional into a fully resolved strict configuration,
//! or a typed validation error.
//!
//! The strict configuration mirrors the engine's `EncoderConfig` field for
//! field, but holds only plain values (integers, booleans and this module's
//! own enums), so every defaulting and decoding rule is stated and proved
//! here. The one-way translation into the engine's own types happens in
//! the trusted layer of `crate::engine`.

use vstd::prelude::*;

verus! {

/// Chroma subsampling of a frame, mirroring the engine's values.
#[derive(Clone, Copy, Debug, PartialEq, Eq, Structural)]
pub enum ChromaSampling {
    /// 4:4:4 — no subsampling.
    Cs444,
    /// 4:2:0 — both directions halved.
    Cs420,
    /// 4:2:2 — horizontally halved.
    Cs422,
    /// 4:0:0 — monochrome.
    Cs400,
}

/// Chroma sample position, mirroring the engine's values.
#[derive(Clone, Copy, Debug, PartialEq, Eq, Structural)]
pub enum ChromaSamplePosition {
    Unknown,
    Vertical,
    Colocated,
}

/// Pixel value range, mirroring the engine's values.
#[derive(Clone, Copy, Debug, PartialEq, Eq, Structural)]
pub enum PixelRange {
    Limited,
    Full,
}

/// Quality metric the encoder tunes for, mirroring the engine's values.
#[derive(Clone, Copy, Debug, PartialEq, Eq, Structural)]
pub enum Tune {
    Psnr,
    Psychovisual,
}

/// The enumerated record fields that are decoded from string tokens.
#[derive(Clone, Copy, Debug, PartialEq, Eq, Structural)]
pub enum ConfigField {
    ChromaSampling,
    ChromaSamplePosition,
    PixelRange,
    Tune,
}

/// A non-enum validation problem in a configuration record.
#[derive(Clone, Copy, Debug, PartialEq, Eq, Structural)]
pub enum ConfigIssue {
    /// The mandatory width is zero.
    ZeroWidth,
    /// The mandatory height is zero.
    ZeroHeight,
    /// A bit depth other than 8 was requested; this bridge submits raw
    /// 8-bit planes (one byte per sample), and the engine's 8-bit pixel
    /// type holds no deeper samples.
    UnsupportedBitDepth,
}

/// Why a configuration record was rejected.
#[derive(Clone, Debug, PartialEq, Eq)]
pub enum ConfigError {
    /// An enumerated field was present but its token is not accepted;
    /// carries the field and the offending token.
    InvalidEnumValue(ConfigField, String),
    /// The record is invalid for a non-enum reason.
    InvalidConfig(ConfigIssue),
}

/// The caller-supplied configuration record. Width and height are
/// mandatory; every other field is optional, where absence means "use the
/// baseline default". Enumerated fields arrive as string tokens and are
/// decoded case-sensitively; rationals arrive as (numerator, denominator).
#[derive(Clone, Debug)]
pub struct ExEncoderConfig {
    /// Width of the frames in pixels.
    pub width: usize,
    /// Height of the frames in pixels.
    pub height: usize,
    /// Sample aspect ratio (for anamorphic video).
    pub sample_aspect_ratio: Option<(u64, u64)>,
    /// Video time base.
    pub time_base: Option<(u64, u64)>,
    /// Bit depth.
    pub bit_depth: Option<usize>,
    /// Chroma subsampling token: "C444", "C420", "C422" or "C400".
    pub chroma_sampling: Option<String>,
    /// Chroma sample position token: "Unknown", "Vertical" or "Colocated".
    pub chroma_sample_position: Option<String>,
    /// Pixel value range token: "limited" or "full".
    pub pixel_range: Option<String>,
    /// Enable signaling timing info in the bitstream.
    pub enable_timing_info: Option<bool>,
    /// Still picture mode flag.
    pub still_picture: Option<bool>,
    /// Flag to force all frames to be error resilient.
    pub error_resilient: Option<bool>,
    /// Interval between switch frames (0 to disable).
    pub switch_frame_interval: Option<u64>,
    /// The minimum interval between two keyframes.
    pub min_key_frame_interval: Option<u64>,
    /// The maximum interval between two keyframes.
    pub max_key_frame_interval: Option<u64>,
    /// The number of temporal units over which to distribute the
    /// reservoir usage.
    pub reservoir_frame_delay: Option<i32>,
    /// Flag to enable low latency mode (disables frame reordering).
    pub low_latency: Option<bool>,
    /// The base quantizer to use.
    pub quantizer: Option<usize>,
    /// The minimum allowed base quantizer to use in bitrate mode.
    pub min_quantizer: Option<u8>,
    /// The target bitrate for the bitrate mode.
    pub bitrate: Option<i32>,
    /// Tuning metric token: "psnr" or "psychovisual".
    pub tune: Option<String>,
    /// Number of tiles horizontally. Must be a power of two.
    pub tile_cols: Option<usize>,
    /// Number of tiles vertically. Must be a power of two.
    pub tile_rows: Option<usize>,
    /// Total number of tiles desired; overrides tile_cols and tile_rows.
    pub tiles: Option<usize>,
    /// Number of frames to read ahead for the RDO lookahead computation.
    pub rdo_lookahead_frames: Option<usize>,
    /// Speed preset index, 0 (slowest, best quality) to 10 (fastest).
    pub speed_settings: Option<usize>,
}

/// A fully resolved encoder configuration: no optional field is left
/// undecided, except the one the engine itself keeps optional (the
/// reservoir frame delay, where absence means "choose automatically").
/// The RDO lookahead is resolved to a concrete frame count: an absent
/// record field takes the speed preset's own documented depth.
#[derive(Clone, Copy, Debug, PartialEq, Eq)]
pub struct StrictConfig {
    pub width: usize,
    pub height: usize,
    pub sample_aspect_ratio: (u64, u64),
    pub time_base: (u64, u64),
    pub bit_depth: usize,
    pub chroma_sampling: ChromaSampling,
    pub chroma_sample_position: ChromaSamplePosition,
    pub pixel_range: PixelRange,
    pub enable_timing_info: bool,
    pub still_picture: bool,
    pub error_resilient: bool,
    pub switch_frame_interval: u64,
    pub min_key_frame_interval: u64,
    pub max_key_frame_interval: u64,
    pub reservoir_frame_delay: Option<i32>,
    pub low_latency: bool,
    pub quantizer: usize,
    pub min_quantizer: u8,
    pub bitrate: i32,
    pub tune: Tune,
    pub tile_cols: usize,
    pub tile_rows: usize,
    pub tiles: usize,
    pub rdo_lookahead_frames: usize,
    pub speed_preset: u8,
}

/// What a chroma subsampling token decodes to, if it is accepted.
pub open spec fn chroma_of(s: Seq<char>) -> Option<ChromaSampling> {
    if s == "C444"@ {
        Some(ChromaSampling::Cs444)
    } else if s == "C420"@ {
        Some(ChromaSampling::Cs420)
    } else if s == "C422"@ {
        Some(ChromaSampling::Cs422)
    } else if s == "C400"@ {
        Some(ChromaSampling::Cs400)
    } else {
        None
    }
}

/// What a chroma sample position token decodes to, if it is accepted.
pub open spec fn chroma_pos_of(s: Seq<char>) -> Option<ChromaSamplePosition> {
    if s == "Unknown"@ {
        Some(ChromaSamplePosition::Unknown)
    } else if s == "Vertical"@ {
        Some(ChromaSamplePosition::Vertical)
    } else if s == "Colocated"@ {
        Some(ChromaSamplePosition::Colocated)
    } else {
        None
    }
}

/// What a pixel range token decodes to, if it is accepted.
pub open spec fn pixel_range_of(s: Seq<char>) -> Option<PixelRange> {
    if s == "limited"@ {
        Some(PixelRange::Limited)
    } else if s == "full"@ {
        Some(PixelRange::Full)
    } else {
        None
    }
}

/// What a tuning metric token decodes to, if it is accepted.
pub open spec fn tune_of(s: Seq<char>) -> Option<Tune> {
    if s == "psnr"@ {
        Some(Tune::Psnr)
    } else if s == "psychovisual"@ {
        Some(Tune::Psychovisual)
    } else {
        None
    }
}

fn decode_chroma(s: &String) -> (r: Option<ChromaSampling>)
    ensures
        r == chroma_of(s@),
{
    if *s == "C444".to_owned() {
        Some(ChromaSampling::Cs444)
    } else if *s == "C420".to_owned() {
        Some(ChromaSampling::Cs420)
    } else if *s == "C422".to_owned() {
        Some(ChromaSampling::Cs422)
    } else if *s == "C400".to_owned() {
        Some(ChromaSampling::Cs400)
    } else {
        None
    }
}

fn decode_chroma_pos(s: &String) -> (r: Option<ChromaSamplePosition>)
    ensures
        r == chroma_pos_of(s@),
{
    if *s == "Unknown".to_owned() {
        Some(ChromaSamplePosition::Unknown)
    } else if *s == "Vertical".to_owned() {
        Some(ChromaSamplePosition::Vertical)
    } else if *s == "Colocated".to_owned() {
        Some(ChromaSamplePosition::Colocated)
    } else {
        None
    }
}

fn decode_pixel_range(s: &String) -> (r: Option<PixelRange>)
    ensures
        r == pixel_range_of(s@),
{
    if *s == "limited".to_owned() {
        Some(PixelRange::Limited)
    } else if *s == "full".to_owned() {
        Some(PixelRange::Full)
    } else {
        None
    }
}

fn decode_tune(s: &String) -> (r: Option<Tune>)
    ensures
        r == tune_of(s@),
{
    if *s == "psnr".to_owned() {
        Some(Tune::Psnr)
    } else if *s == "psychovisual".to_owned() {
        Some(Tune::Psychovisual)
    } else {
        None
    }
}

impl StrictConfig {
    /// The strict configuration used when every optional record field is
    /// absent. All fields mirror the engine's documented defaults with one
    /// deliberate exception, kept for compatibility with the callers of
    /// this bridge: chroma subsampling is pinned to 4:4:4, where the
    /// engine's own default is 4:2:0.
    pub open spec fn spec_baseline() -> StrictConfig {
        StrictConfig {
            width: 640,
            height: 480,
            sample_aspect_ratio: (1u64, 1u64),
            time_base: (1u64, 30u64),
            bit_depth: 8,
            chroma_sampling: ChromaSampling::Cs444,
            chroma_sample_position: ChromaSamplePosition::Unknown,
            pixel_range: PixelRange::Limited,
            enable_timing_info: false,
            still_picture: false,
            error_resilient: false,
            switch_frame_interval: 0,
            min_key_frame_interval: 12,
            max_key_frame_interval: 240,
            reservoir_frame_delay: None,
            low_latency: false,
            quantizer: 100,
            min_quantizer: 0,
            bitrate: 0,
            tune: Tune::Psychovisual,
            tile_cols: 0,
            tile_rows: 0,
            tiles: 0,
            rdo_lookahead_frames: 20,
            speed_preset: 6,
        }
    }

    /// Executable counterpart of [`StrictConfig::spec_baseline`].
    pub fn baseline() -> (r: StrictConfig)
        ensures
            r == Self::spec_baseline(),
    {
        StrictConfig {
            width: 640,
            height: 480,
            sample_aspect_ratio: (1u64, 1u64),
            time_base: (1u64, 30u64),
            bit_depth: 8,
            chroma_sampling: ChromaSampling::Cs444,
            chroma_sample_position: ChromaSamplePosition::Unknown,
            pixel_range: PixelRange::Limited,
            enable_timing_info: false,
            still_picture: false,
            error_resilient: false,
            switch_frame_interval: 0,
            min_key_frame_interval: 12,
            max_key_frame_interval: 240,
            reservoir_frame_delay: None,
            low_latency: false,
            quantizer: 100,
            min_quantizer: 0,
            bitrate: 0,
            tune: Tune::Psychovisual,
            tile_cols: 0,
            tile_rows: 0,
            tiles: 0,
            rdo_lookahead_frames: 20,
            speed_preset: 6,
        }
    }

    /// Bytes of one luma plane at this geometry: one 8-bit sample per
    /// pixel, rows of exactly `width` bytes.
    pub open spec fn spec_luma_len(self) -> nat {
        (self.width * self.height) as nat
    }

    /// Bytes of one chroma plane at this geometry and subsampling:
    /// halved dimensions round up, and a monochrome stream carries no
    /// chroma bytes at all.
    pub open spec fn spec_chroma_len(self) -> nat {
        match self.chroma_sampling {
            ChromaSampling::Cs444 => (self.width * self.height) as nat,
            ChromaSampling::Cs422 => (((self.width + 1) / 2) * self.height) as nat,
            ChromaSampling::Cs420 => ((((self.width + 1) / 2)) * ((self.height + 1) / 2)) as nat,
            ChromaSampling::Cs400 => 0,
        }
    }

    /// Executable counterpart of [`StrictConfig::spec_luma_len`].
    pub fn luma_len(&self) -> (r: usize)
        requires
            self.width <= 65535,
            self.height <= 65535,
        ensures
            r == self.spec_luma_len(),
    {
        proof {
            assert(self.width * self.height <= 65535 * 65535) by (nonlinear_arith)
                requires
                    self.width <= 65535,
                    self.height <= 65535,
            ;
        }
        self.width * self.height
    }

    /// Executable counterpart of [`StrictConfig::spec_chroma_len`].
    pub fn chroma_len(&self) -> (r: usize)
        requires
            self.width <= 65535,
            self.height <= 65535,
        ensures
            r == self.spec_chroma_len(),
    {
        let half_width: usize = (self.width + 1) / 2;
        let half_height: usize = (self.height + 1) / 2;
        proof {
            assert(self.width * self.height <= 65535 * 65535) by (nonlinear_arith)
                requires
                    self.width <= 65535,
                    self.height <= 65535,
            ;
            assert(half_width * self.height <= 32768 * 65535) by (nonlinear_arith)
                requires
                    half_width <= 32768,
                    self.height <= 65535,
            ;
            assert(half_width * half_height <= 32768 * 32768) by (nonlinear_arith)
                requires
                    half_width <= 32768,
                    half_height <= 32768,
            ;
        }
        match self.chroma_sampling {
            ChromaSampling::Cs444 => self.width * self.height,
            ChromaSampling::Cs422 => half_width * self.height,
            ChromaSampling::Cs420 => half_width * half_height,
            ChromaSampling::Cs400 => 0,
        }
    }
}

/// How a present chroma subsampling token resolves: its decoded value,
/// the baseline 4:4:4 where absent, or the error naming field and token.
pub open spec fn chroma_resolved(o: Option<String>) -> Result<ChromaSampling, ConfigError> {
    match o {
        Some(s) => match chroma_of(s@) {
            Some(m) => Ok(m),
            None => Err(ConfigError::InvalidEnumValue(ConfigField::ChromaSampling, s)),
        },
        None => Ok(ChromaSampling::Cs444),
    }
}

/// How a tuning metric token resolves; absent keeps the engine default.
pub open spec fn tune_resolved(o: Option<String>) -> Result<Tune, ConfigError> {
    match o {
        Some(s) => match tune_of(s@) {
            Some(m) => Ok(m),
            None => Err(ConfigError::InvalidEnumValue(ConfigField::Tune, s)),
        },
        None => Ok(Tune::Psychovisual),
    }
}

/// How a pixel range token resolves; absent keeps the engine default.
pub open spec fn pixel_range_resolved(o: Option<String>) -> Result<PixelRange, ConfigError> {
    match o {
        Some(s) => match pixel_range_of(s@) {
            Some(m) => Ok(m),
            None => Err(ConfigError::InvalidEnumValue(ConfigField::PixelRange, s)),
        },
        None => Ok(PixelRange::Limited),
    }
}

/// How a chroma sample position token resolves; absent keeps the engine
/// default.
pub open spec fn chroma_pos_resolved(o: Option<String>) -> Result<ChromaSamplePosition, ConfigError> {
    match o {
        Some(s) => match chroma_pos_of(s@) {
            Some(m) => Ok(m),
            None => Err(ConfigError::InvalidEnumValue(ConfigField::ChromaSamplePosition, s)),
        },
        None => Ok(ChromaSamplePosition::Unknown),
    }
}

fn resolve_chroma(o: Option<String>) -> (r: Result<ChromaSampling, ConfigError>)
    ensures
        r == chroma_resolved(o),
{
    match o {
        Some(s) => match decode_chroma(&s) {
            Some(m) => Ok(m),
            None => Err(ConfigError::InvalidEnumValue(ConfigField::ChromaSampling, s)),
        },
        None => Ok(ChromaSampling::Cs444),
    }
}

fn resolve_tune(o: Option<String>) -> (r: Result<Tune, ConfigError>)
    ensures
        r == tune_resolved(o),
{
    match o {
        Some(s) => match decode_tune(&s) {
            Some(m) => Ok(m),
            None => Err(ConfigError::InvalidEnumValue(ConfigField::Tune, s)),
        },
        None => Ok(Tune::Psychovisual),
    }
}

fn resolve_pixel_range(o: Option<String>) -> (r: Result<PixelRange, ConfigError>)
    ensures
        r == pixel_range_resolved(o),
{
    match o {
        Some(s) => match decode_pixel_range(&s) {
            Some(m) => Ok(m),
            None => Err(ConfigError::InvalidEnumValue(ConfigField::PixelRange, s)),
        },
        None => Ok(PixelRange::Limited),
    }
}

fn resolve_chroma_pos(o: Option<String>) -> (r: Result<ChromaSamplePosition, ConfigError>)
    ensures
        r == chroma_pos_resolved(o),
{
    match o {
        Some(s) => match decode_chroma_pos(&s) {
            Some(m) => Ok(m),
            None => Err(ConfigError::InvalidEnumValue(ConfigField::ChromaSamplePosition, s)),
        },
        None => Ok(ChromaSamplePosition::Unknown),
    }
}

/// The one defaulting rule every optional non-enum field follows: take
/// the field's value where present, the baseline default where absent.
fn or_default<T: Copy>(field: Option<T>, baseline: T) -> (r: T)
    ensures
        r == (match field {
            Some(v) => v,
            None => baseline,
        }),
{
    match field {
        Some(v) => v,
        None => baseline,
    }
}

/// The RDO lookahead depth a speed preset selects on its own, per the
/// engine's preset table: 40 frames up to preset 2, 30 up to 5, 20 up
/// to 7, and 10 from preset 8 on.
pub open spec fn preset_lookahead(preset: u8) -> usize {
    if preset >= 8 {
        10
    } else if preset >= 6 {
        20
    } else if preset >= 3 {
        30
    } else {
        40
    }
}

/// Executable counterpart of [`preset_lookahead`].
pub fn lookahead_of_preset(preset: u8) -> (r: usize)
    ensures
        r == preset_lookahead(preset),
{
    if preset >= 8 {
        10
    } else if preset >= 6 {
        20
    } else if preset >= 3 {
        30
    } else {
        40
    }
}

/// The resolved speed preset: present values above 10 clamp to 10,
/// matching the engine's own treatment of out-of-range presets; absence
/// keeps the engine's default preset.
pub open spec fn speed_preset_resolved(o: Option<usize>) -> u8 {
    match o {
        Some(n) => if n > 10 {
            10u8
        } else {
            n as u8
        },
        None => 6u8,
    }
}

fn resolve_speed_preset(o: Option<usize>) -> (r: u8)
    ensures
        r == speed_preset_resolved(o),
{
    match o {
        Some(n) => if n > 10 {
            10
        } else {
            n as u8
        },
        None => 6,
    }
}

impl ExEncoderConfig {
    /// The enum-decoding error this record produces, if any; fields are
    /// checked in a fixed order (chroma subsampling, tune, pixel range,
    /// chroma sample position), so the first offending field wins.
    pub open spec fn spec_enum_error(self) -> Option<ConfigError> {
        if chroma_resolved(self.chroma_sampling) is Err {
            Some(chroma_resolved(self.chroma_sampling)->Err_0)
        } else if tune_resolved(self.tune) is Err {
            Some(tune_resolved(self.tune)->Err_0)
        } else if pixel_range_resolved(self.pixel_range) is Err {
            Some(pixel_range_resolved(self.pixel_range)->Err_0)
        } else if chroma_pos_resolved(self.chroma_sample_position) is Err {
            Some(chroma_pos_resolved(self.chroma_sample_position)->Err_0)
        } else {
            None
        }
    }

    /// The strict configuration this record resolves to, assuming every
    /// present enum token is accepted: present fields are taken (after
    /// decoding), absent fields keep the baseline defaults, and a present
    /// speed preset above 10 is clamped to 10, matching the engine's own
    /// treatment of out-of-range presets.
    pub open spec fn resolved(self) -> StrictConfig {
        StrictConfig {
            width: self.width,
            height: self.height,
            sample_aspect_ratio: match self.sample_aspect_ratio {
                Some(r) => r,
                None => (1u64, 1u64),
            },
            time_base: match self.time_base {
                Some(r) => r,
                None => (1u64, 30u64),
            },
            bit_depth: match self.bit_depth {
                Some(b) => b,
                None => 8,
            },
            chroma_sampling: match chroma_resolved(self.chroma_sampling) {
                Ok(m) => m,
                Err(_) => ChromaSampling::Cs444,
            },
            chroma_sample_position: match chroma_pos_resolved(self.chroma_sample_position) {
                Ok(m) => m,
                Err(_) => ChromaSamplePosition::Unknown,
            },
            pixel_range: match pixel_range_resolved(self.pixel_range) {
                Ok(m) => m,
                Err(_) => PixelRange::Limited,
            },
            enable_timing_info: match self.enable_timing_info {
                Some(b) => b,
                None => false,
            },
            still_picture: match self.still_picture {
                Some(b) => b,
                None => false,
            },
            error_resilient: match self.error_resilient {
                Some(b) => b,
                None => false,
            },
            switch_frame_interval: match self.switch_frame_interval {
                Some(v) => v,
                None => 0,
            },
            min_key_frame_interval: match self.min_key_frame_interval {
                Some(v) => v,
                None => 12,
            },
            max_key_frame_interval: match self.max_key_frame_interval {
                Some(v) => v,
                None => 240,
            },
            reservoir_frame_delay: self.reservoir_frame_delay,
            low_latency: match self.low_latency {
                Some(b) => b,
                None => false,
            },
            quantizer: match self.quantizer {
                Some(v) => v,
                None => 100,
            },
            min_quantizer: match self.min_quantizer {
                Some(v) => v,
                None => 0,
            },
            bitrate: match self.bitrate {
                Some(v) => v,
                None => 0,
            },
            tune: match tune_resolved(self.tune) {
                Ok(m) => m,
                Err(_) => Tune::Psychovisual,
            },
            tile_cols: match self.tile_cols {
                Some(v) => v,
                None => 0,
            },
            tile_rows: match self.tile_rows {
                Some(v) => v,
                None => 0,
            },
            tiles: match self.tiles {
                Some(v) => v,
                None => 0,
            },
            rdo_lookahead_frames: match self.rdo_lookahead_frames {
                Some(n) => n,
                None => preset_lookahead(speed_preset_resolved(self.speed_settings)),
            },
            speed_preset: speed_preset_resolved(self.speed_settings),
        }
    }

    /// Whether the record's bit depth is one this bridge supports: the
    /// field is absent (the 8-bit default) or names 8 explicitly.
    pub open spec fn bit_depth_ok(self) -> bool {
        match self.bit_depth {
            Some(b) => b == 8,
            None => true,
        }
    }

    /// What normalizing this record returns: the geometry must be
    /// positive, the bit depth must be the supported 8, every present
    /// enum token must be accepted, and the result is then the resolved
    /// strict configuration.
    pub open spec fn normalized(self) -> Result<StrictConfig, ConfigError> {
        if self.width == 0 {
            Err(ConfigError::InvalidConfig(ConfigIssue::ZeroWidth))
        } else if self.height == 0 {
            Err(ConfigError::InvalidConfig(ConfigIssue::ZeroHeight))
        } else if !self.bit_depth_ok() {
            Err(ConfigError::InvalidConfig(ConfigIssue::UnsupportedBitDepth))
        } else {
            match self.spec_enum_error() {
                Some(e) => Err(e),
                None => Ok(self.resolved()),
            }
        }
    }

    /// Normalizes this record into the strict configuration the engine
    /// session is created from, or reports the first validation problem.
    /// A present enum field with an unaccepted token is always an error;
    /// it is never silently replaced with a default.
    pub fn to_rav1e(self) -> (r: Result<StrictConfig, ConfigError>)
        ensures
            r == self.normalized(),
    {
        if self.width == 0 {
            return Err(ConfigError::InvalidConfig(ConfigIssue::ZeroWidth));
        }
        if self.height == 0 {
            return Err(ConfigError::InvalidConfig(ConfigIssue::ZeroHeight));
        }
        match self.bit_depth {
            Some(b) => if b != 8 {
                return Err(ConfigError::InvalidConfig(ConfigIssue::UnsupportedBitDepth));
            },
            None => (),
        }
        let chroma_sampling = match resolve_chroma(self.chroma_sampling) {
            Ok(m) => m,
            Err(e) => {
                return Err(e);
            },
        };
        let tune = match resolve_tune(self.tune) {
            Ok(m) => m,
            Err(e) => {
                return Err(e);
            },
        };
        let pixel_range = match resolve_pixel_range(self.pixel_range) {
            Ok(m) => m,
            Err(e) => {
                return Err(e);
            },
        };
        let chroma_sample_position = match resolve_chroma_pos(self.chroma_sample_position) {
            Ok(m) => m,
            Err(e) => {
                return Err(e);
            },
        };
        let r = StrictConfig {
            width: self.width,
            height: self.height,
            sample_aspect_ratio: or_default(self.sample_aspect_ratio, (1u64, 1u64)),
            time_base: or_default(self.time_base, (1u64, 30u64)),
            bit_depth: or_default(self.bit_depth, 8),
            chroma_sampling,
            chroma_sample_position,
            pixel_range,
            enable_timing_info: or_default(self.enable_timing_info, false),
            still_picture: or_default(self.still_picture, false),
            error_resilient: or_default(self.error_resilient, false),
            switch_frame_interval: or_default(self.switch_frame_interval, 0),
            min_key_frame_interval: or_default(self.min_key_frame_interval, 12),
            max_key_frame_interval: or_default(self.max_key_frame_interval, 240),
            reservoir_frame_delay: self.reservoir_frame_delay,
            low_latency: or_default(self.low_latency, false),
            quantizer: or_default(self.quantizer, 100),
            min_quantizer: or_default(self.min_quantizer, 0),
            bitrate: or_default(self.bitrate, 0),
            tune,
            tile_cols: or_default(self.tile_cols, 0),
            tile_rows: or_default(self.tile_rows, 0),
            tiles: or_default(self.tiles, 0),
            rdo_lookahead_frames: match self.rdo_lookahead_frames {
                Some(n) => n,
                None => lookahead_of_preset(resolve_speed_preset(self.speed_settings)),
            },
            speed_preset: resolve_speed_preset(self.speed_settings),
        };
        proof {
            assert(self.spec_enum_error() is None);
            assert(r == self.resolved());
        }
        Ok(r)
    }
}

/// A valid record that sets only the mandatory geometry normalizes to
/// the baseline configuration with just width and height replaced.
pub proof fn lemma_geometry_only_is_baseline(rec: ExEncoderConfig)
    requires
        rec.width >= 1,
        rec.height >= 1,
        rec.sample_aspect_ratio is None,
        rec.time_base is None,
        rec.bit_depth is None,
        rec.chroma_sampling is None,
        rec.chroma_sample_position is None,
        rec.pixel_range is None,
        rec.enable_timing_info is None,
        rec.still_picture is None,
        rec.error_resilient is None,
        rec.switch_frame_interval is None,
        rec.min_key_frame_interval is None,
        rec.max_key_frame_interval is None,
        rec.reservoir_frame_delay is None,
        rec.low_latency is None,
        rec.quantizer is None,
        rec.min_quantizer is None,
        rec.bitrate is None,
        rec.tune is None,
        rec.tile_cols is None,
        rec.tile_rows is None,
        rec.tiles is None,
        rec.rdo_lookahead_frames is None,
        rec.speed_settings is None,
    ensures
        rec.normalized() == Ok::<StrictConfig, ConfigError>(
            (StrictConfig { width: rec.width, height: rec.height, ..StrictConfig::spec_baseline() }),
        ),
{
}

/// Every accepted token of every enumerated field decodes to its engine
/// value.
pub proof fn lemma_accepted_tokens()
    ensures
        chroma_of("C444"@) == Some(ChromaSampling::Cs444),
        chroma_of("C420"@) == Some(ChromaSampling::Cs420),
        chroma_of("C422"@) == Some(ChromaSampling::Cs422),
        chroma_of("C400"@) == Some(ChromaSampling::Cs400),
        chroma_pos_of("Unknown"@) == Some(ChromaSamplePosition::Unknown),
        chroma_pos_of("Vertical"@) == Some(ChromaSamplePosition::Vertical),
        chroma_pos_of("Colocated"@) == Some(ChromaSamplePosition::Colocated),
        pixel_range_of("limited"@) == Some(PixelRange::Limited),
        pixel_range_of("full"@) == Some(PixelRange::Full),
        tune_of("psnr"@) == Some(Tune::Psnr),
        tune_of("psychovisual"@) == Some(Tune::Psychovisual),
{
    reveal_strlit("C444");
    reveal_strlit("C420");
    reveal_strlit("C422");
    reveal_strlit("C400");
    reveal_strlit("Unknown");
    reveal_strlit("Vertical");
    reveal_strlit("Colocated");
    reveal_strlit("limited");
    reveal_strlit("full");
    reveal_strlit("psnr");
    reveal_strlit("psychovisual");
    assert("C420"@.index(2) != "C444"@.index(2));
    assert("C422"@.index(2) != "C444"@.index(2));
    assert("C422"@.index(3) != "C420"@.index(3));
    assert("C400"@.index(2) != "C444"@.index(2));
    assert("C400"@.index(2) != "C420"@.index(2));
    assert("C400"@.index(2) != "C422"@.index(2));
    assert(!("C420"@ =~= "C444"@));
    assert(!("C422"@ =~= "C444"@));
    assert(!("C422"@ =~= "C420"@));
    assert(!("C400"@ =~= "C444"@));
    assert(!("C400"@ =~= "C420"@));
    assert(!("C400"@ =~= "C422"@));
    assert(!("Vertical"@ =~= "Unknown"@));
    assert(!("Colocated"@ =~= "Unknown"@));
    assert(!("Colocated"@ =~= "Vertical"@));
    assert(!("full"@ =~= "limited"@));
    assert(!("psychovisual"@ =~= "psnr"@));
}

/// Only the listed tokens are accepted: every other string decodes to
/// nothing, for every enumerated field.
pub proof fn lemma_only_listed_tokens(s: Seq<char>)
    ensures
        chroma_of(s) is Some <==> (s == "C444"@ || s == "C420"@ || s == "C422"@ || s
            == "C400"@),
        chroma_pos_of(s) is Some <==> (s == "Unknown"@ || s == "Vertical"@ || s
            == "Colocated"@),
        pixel_range_of(s) is Some <==> (s == "limited"@ || s == "full"@),
        tune_of(s) is Some <==> (s == "psnr"@ || s == "psychovisual"@),
{
}

/// A present enumerated field whose token is not accepted always fails
/// normalization with `InvalidEnumValue` naming that field and token (in
/// the fixed checking order), and a record whose geometry is positive and
/// whose present tokens are all accepted always normalizes successfully.
pub proof fn lemma_unknown_token_rejected(rec: ExEncoderConfig)
    requires
        rec.width >= 1,
        rec.height >= 1,
        rec.bit_depth_ok(),
    ensures
        rec.chroma_sampling matches Some(s) ==> chroma_of(s@) is None ==> rec.normalized()
            == Err::<StrictConfig, ConfigError>(
            ConfigError::InvalidEnumValue(ConfigField::ChromaSampling, s),
        ),
        chroma_resolved(rec.chroma_sampling) is Ok ==> (rec.tune matches Some(s) ==> tune_of(
            s@,
        ) is None ==> rec.normalized() == Err::<StrictConfig, ConfigError>(
            ConfigError::InvalidEnumValue(ConfigField::Tune, s),
        )),
        chroma_resolved(rec.chroma_sampling) is Ok && tune_resolved(rec.tune) is Ok ==> (
        rec.pixel_range matches Some(s) ==> pixel_range_of(s@) is None ==> rec.normalized()
            == Err::<StrictConfig, ConfigError>(
            ConfigError::InvalidEnumValue(ConfigField::PixelRange, s),
        )),
        chroma_resolved(rec.chroma_sampling) is Ok && tune_resolved(rec.tune) is Ok
            && pixel_range_resolved(rec.pixel_range) is Ok ==> (rec.chroma_sample_position
            matches Some(s) ==> chroma_pos_of(s@) is None ==> rec.normalized()
            == Err::<StrictConfig, ConfigError>(
            ConfigError::InvalidEnumValue(ConfigField::ChromaSamplePosition, s),
        )),
        rec.spec_enum_error() is None ==> rec.normalized() == Ok::<StrictConfig, ConfigError>(
            rec.resolved(),
        ),
{
}

/// Normalization is deterministic: two runs over the same record yield
/// identical results, so normalizing twice changes nothing.
pub proof fn lemma_normalize_deterministic(
    a: Result<StrictConfig, ConfigError>,
    b: Result<StrictConfig, ConfigError>,
    rec: ExEncoderConfig,
)
    requires
        a == rec.normalized(),
        b == rec.normalized(),
    ensures
        a == b,
{
}

} // verus!
