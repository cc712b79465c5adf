//! Typed configuration: closed enumerations with their fixed numeric codes,
//! the encoder's parameter record, and a fluent setter layer over it.
use vstd::prelude::*;

verus! {

/// Encoder input bit depth.
#[derive(Debug, Clone, Copy, PartialEq, Eq, Structural)]
pub enum BitDepth {
    Eight,
    Ten,
    Twelve,
}

impl BitDepth {
    pub open spec fn spec_code(self) -> u32 {
        match self {
            BitDepth::Eight => 8,
            BitDepth::Ten => 10,
            BitDepth::Twelve => 12,
        }
    }

    /// The numeric code the component uses for this depth.
    #[verifier::when_used_as_spec(spec_code)]
    pub fn code(self) -> (r: u32)
        ensures
            r == self.spec_code(),
    {
        match self {
            BitDepth::Eight => 8,
            BitDepth::Ten => 10,
            BitDepth::Twelve => 12,
        }
    }
}

/// Chroma subsampling of the input pictures.
#[derive(Debug, Clone, Copy, PartialEq, Eq, Structural)]
pub enum ColorFormat {
    Yuv400,
    Yuv420,
    Yuv422,
    Yuv444,
}

impl ColorFormat {
    pub open spec fn spec_code(self) -> u32 {
        match self {
            ColorFormat::Yuv400 => 0,
            ColorFormat::Yuv420 => 1,
            ColorFormat::Yuv422 => 2,
            ColorFormat::Yuv444 => 3,
        }
    }

    /// The numeric code the component uses for this format.
    #[verifier::when_used_as_spec(spec_code)]
    pub fn code(self) -> (r: u32)
        ensures
            r == self.spec_code(),
    {
        match self {
            ColorFormat::Yuv400 => 0,
            ColorFormat::Yuv420 => 1,
            ColorFormat::Yuv422 => 2,
            ColorFormat::Yuv444 => 3,
        }
    }
}

/// Sample value range.
#[derive(Debug, Clone, Copy, PartialEq, Eq, Structural)]
pub enum ColorRange {
    Studio,
    Full,
}

impl ColorRange {
    pub open spec fn spec_code(self) -> u32 {
        match self {
            ColorRange::Studio => 0,
            ColorRange::Full => 1,
        }
    }

    /// The numeric code the component uses for this range.
    #[verifier::when_used_as_spec(spec_code)]
    pub fn code(self) -> (r: u32)
        ensures
            r == self.spec_code(),
    {
        match self {
            ColorRange::Studio => 0,
            ColorRange::Full => 1,
        }
    }
}

/// Position of chroma samples relative to luma samples.
#[derive(Debug, Clone, Copy, PartialEq, Eq, Structural)]
pub enum ChromaSamplePosition {
    Unknown,
    Vertical,
    Colocated,
}

impl ChromaSamplePosition {
    pub open spec fn spec_code(self) -> u32 {
        match self {
            ChromaSamplePosition::Unknown => 0,
            ChromaSamplePosition::Vertical => 1,
            ChromaSamplePosition::Colocated => 2,
        }
    }

    /// The numeric code the component uses for this position.
    #[verifier::when_used_as_spec(spec_code)]
    pub fn code(self) -> (r: u32)
        ensures
            r == self.spec_code(),
    {
        match self {
            ChromaSamplePosition::Unknown => 0,
            ChromaSamplePosition::Vertical => 1,
            ChromaSamplePosition::Colocated => 2,
        }
    }
}

/// AV1 profile.
#[derive(Debug, Clone, Copy, PartialEq, Eq, Structural)]
pub enum Profile {
    Main,
    High,
    Professional,
}

impl Profile {
    pub open spec fn spec_code(self) -> u32 {
        match self {
            Profile::Main => 0,
            Profile::High => 1,
            Profile::Professional => 2,
        }
    }

    /// The numeric code the component uses for this profile.
    #[verifier::when_used_as_spec(spec_code)]
    pub fn code(self) -> (r: u32)
        ensures
            r == self.spec_code(),
    {
        match self {
            Profile::Main => 0,
            Profile::High => 1,
            Profile::Professional => 2,
        }
    }
}

/// AV1 tier.
#[derive(Debug, Clone, Copy, PartialEq, Eq, Structural)]
pub enum Tier {
    Main,
    High,
}

impl Tier {
    pub open spec fn spec_code(self) -> u32 {
        match self {
            Tier::Main => 0,
            Tier::High => 1,
        }
    }

    /// The numeric code the component uses for this tier.
    #[verifier::when_used_as_spec(spec_code)]
    pub fn code(self) -> (r: u32)
        ensures
            r == self.spec_code(),
    {
        match self {
            Tier::Main => 0,
            Tier::High => 1,
        }
    }
}

/// Rate-control mode.
#[derive(Debug, Clone, Copy, PartialEq, Eq, Structural)]
pub enum RcMode {
    CqpOrCrf,
    Vbr,
    Cbr,
}

impl RcMode {
    pub open spec fn spec_code(self) -> u8 {
        match self {
            RcMode::CqpOrCrf => 0,
            RcMode::Vbr => 1,
            RcMode::Cbr => 2,
        }
    }

    /// The numeric code the component uses for this mode.
    #[verifier::when_used_as_spec(spec_code)]
    pub fn code(self) -> (r: u8)
        ensures
            r == self.spec_code(),
    {
        match self {
            RcMode::CqpOrCrf => 0,
            RcMode::Vbr => 1,
            RcMode::Cbr => 2,
        }
    }
}

/// Intra-refresh policy.
#[derive(Debug, Clone, Copy, PartialEq, Eq, Structural)]
pub enum IntraRefreshType {
    FwdKey,
    Key,
}

impl IntraRefreshType {
    pub open spec fn spec_code(self) -> u32 {
        match self {
            IntraRefreshType::FwdKey => 1,
            IntraRefreshType::Key => 2,
        }
    }

    /// The numeric code the component uses for this policy.
    #[verifier::when_used_as_spec(spec_code)]
    pub fn code(self) -> (r: u32)
        ensures
            r == self.spec_code(),
    {
        match self {
            IntraRefreshType::FwdKey => 1,
            IntraRefreshType::Key => 2,
        }
    }
}

/// The encoder's parameter record. The component fills it with its own
/// defaults when a handle is opened; callers adjust it and commit it.
#[derive(Debug, Clone, Copy, PartialEq, Eq, Structural)]
pub struct Configuration {
    pub source_width: u32,
    pub source_height: u32,
    pub frame_rate_numerator: u32,
    pub frame_rate_denominator: u32,
    pub encoder_bit_depth: u32,
    pub encoder_color_format: u32,
    pub color_range: u32,
    pub chroma_sample_position: u32,
    pub profile: u32,
    pub tier: u32,
    pub level: u32,
    pub rate_control_mode: u32,
    pub target_bit_rate: u32,
    pub qp: u32,
    pub intra_refresh_type: u32,
    pub intra_period_length: i32,
    pub enable_roi_map: u8,
    pub recon_enabled: u8,
}

/// Fluent setters over a parameter record. Each one writes its own field
/// and nothing else, and hands the record back for chaining.
pub trait ConfigExt {
    fn set_resolution(&mut self, width: u32, height: u32) -> &mut Self;

    fn set_frame_rate(&mut self, num: u32, den: u32) -> &mut Self;

    fn set_bit_depth(&mut self, depth: BitDepth) -> &mut Self;

    fn set_color_format(&mut self, fmt: ColorFormat) -> &mut Self;

    fn set_color_range(&mut self, range: ColorRange) -> &mut Self;

    fn set_chroma_sample_position(&mut self, csp: ChromaSamplePosition) -> &mut Self;

    fn set_profile(&mut self, profile: Profile) -> &mut Self;

    fn set_tier(&mut self, tier: Tier) -> &mut Self;

    fn set_level_auto(&mut self) -> &mut Self;

    fn set_level_code(&mut self, level_code: u32) -> &mut Self;

    fn set_rc_mode(&mut self, mode: RcMode) -> &mut Self;

    fn set_target_bitrate(&mut self, bps: u32) -> &mut Self;

    fn set_qp(&mut self, qp: u32) -> &mut Self;

    fn set_intra_refresh(&mut self, t: IntraRefreshType) -> &mut Self;

    /// Enables or disables per-picture ROI maps.
    fn enable_roi_map(&mut self, enable: bool) -> &mut Self;

    fn enable_recon(&mut self, enable: bool) -> &mut Self;
}

/// `1` for true, `0` for false.
pub open spec fn flag(b: bool) -> u8 {
    if b {
        1
    } else {
        0
    }
}

impl ConfigExt for Configuration {
    fn set_resolution(&mut self, width: u32, height: u32) -> (r: &mut Self)
        ensures
            *r == (Configuration { source_width: width, source_height: height, ..*old(self) }),
            *final(self) == *final(r),
    {
        self.source_width = width;
        self.source_height = height;
        self
    }

    fn set_frame_rate(&mut self, num: u32, den: u32) -> (r: &mut Self)
        ensures
            *r == (Configuration {
                frame_rate_numerator: num,
                frame_rate_denominator: den,
                ..*old(self)
            }),
            *final(self) == *final(r),
    {
        self.frame_rate_numerator = num;
        self.frame_rate_denominator = den;
        self
    }

    fn set_bit_depth(&mut self, depth: BitDepth) -> (r: &mut Self)
        ensures
            *r == (Configuration { encoder_bit_depth: depth.spec_code(), ..*old(self) }),
            *final(self) == *final(r),
    {
        self.encoder_bit_depth = depth.code();
        self
    }

    fn set_color_format(&mut self, fmt: ColorFormat) -> (r: &mut Self)
        ensures
            *r == (Configuration { encoder_color_format: fmt.spec_code(), ..*old(self) }),
            *final(self) == *final(r),
    {
        self.encoder_color_format = fmt.code();
        self
    }

    fn set_color_range(&mut self, range: ColorRange) -> (r: &mut Self)
        ensures
            *r == (Configuration { color_range: range.spec_code(), ..*old(self) }),
            *final(self) == *final(r),
    {
        self.color_range = range.code();
        self
    }

    fn set_chroma_sample_position(&mut self, csp: ChromaSamplePosition) -> (r: &mut Self)
        ensures
            *r == (Configuration { chroma_sample_position: csp.spec_code(), ..*old(self) }),
            *final(self) == *final(r),
    {
        self.chroma_sample_position = csp.code();
        self
    }

    fn set_profile(&mut self, profile: Profile) -> (r: &mut Self)
        ensures
            *r == (Configuration { profile: profile.spec_code(), ..*old(self) }),
            *final(self) == *final(r),
    {
        self.profile = profile.code();
        self
    }

    fn set_tier(&mut self, tier: Tier) -> (r: &mut Self)
        ensures
            *r == (Configuration { tier: tier.spec_code(), ..*old(self) }),
            *final(self) == *final(r),
    {
        self.tier = tier.code();
        self
    }

    fn set_level_auto(&mut self) -> (r: &mut Self)
        ensures
            *r == (Configuration { level: 0, ..*old(self) }),
            *final(self) == *final(r),
    {
        self.level = 0;
        self
    }

    fn set_level_code(&mut self, level_code: u32) -> (r: &mut Self)
        ensures
            *r == (Configuration { level: level_code, ..*old(self) }),
            *final(self) == *final(r),
    {
        self.level = level_code;
        self
    }

    fn set_rc_mode(&mut self, mode: RcMode) -> (r: &mut Self)
        ensures
            *r == (Configuration { rate_control_mode: mode.spec_code() as u32, ..*old(self) }),
            *final(self) == *final(r),
    {
        self.rate_control_mode = mode.code() as u32;
        self
    }

    fn set_target_bitrate(&mut self, bps: u32) -> (r: &mut Self)
        ensures
            *r == (Configuration { target_bit_rate: bps, ..*old(self) }),
            *final(self) == *final(r),
    {
        self.target_bit_rate = bps;
        self
    }

    fn set_qp(&mut self, qp: u32) -> (r: &mut Self)
        ensures
            *r == (Configuration { qp, ..*old(self) }),
            *final(self) == *final(r),
    {
        self.qp = qp;
        self
    }

    fn set_intra_refresh(&mut self, t: IntraRefreshType) -> (r: &mut Self)
        ensures
            *r == (Configuration { intra_refresh_type: t.spec_code(), ..*old(self) }),
            *final(self) == *final(r),
    {
        self.intra_refresh_type = t.code();
        self
    }

    fn enable_roi_map(&mut self, enable: bool) -> (r: &mut Self)
        ensures
            *r == (Configuration { enable_roi_map: flag(enable), ..*old(self) }),
            *final(self) == *final(r),
    {
        self.enable_roi_map = if enable {
            1
        } else {
            0
        };
        self
    }

    fn enable_recon(&mut self, enable: bool) -> (r: &mut Self)
        ensures
            *r == (Configuration { recon_enabled: flag(enable), ..*old(self) }),
            *final(self) == *final(r),
    {
        self.recon_enabled = if enable {
            1
        } else {
            0
        };
        self
    }
}

} // verus!
