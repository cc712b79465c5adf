use svt_av1::config::{
    BitDepth, ChromaSamplePosition, ColorFormat, ColorRange, ConfigExt, Configuration, IntraRefreshType, Profile,
    RcMode, Tier,
};

fn base() -> Configuration {
    Configuration {
        source_width: 1,
        source_height: 2,
        frame_rate_numerator: 3,
        frame_rate_denominator: 4,
        encoder_bit_depth: 5,
        encoder_color_format: 6,
        color_range: 7,
        chroma_sample_position: 8,
        profile: 9,
        tier: 10,
        level: 11,
        rate_control_mode: 12,
        target_bit_rate: 13,
        qp: 14,
        intra_refresh_type: 15,
        intra_period_length: 16,
        enable_roi_map: 17,
        recon_enabled: 18,
    }
}

#[test]
fn set_resolution_touches_only_resolution() {
    let mut cfg = base();
    cfg.set_resolution(1920, 1080);
    let expected = Configuration { source_width: 1920, source_height: 1080, ..base() };
    assert_eq!(cfg, expected);
}

#[test]
fn chained_setters_write_codes() {
    let mut cfg = base();
    cfg.set_resolution(320, 240)
        .set_frame_rate(30, 1)
        .set_bit_depth(BitDepth::Ten)
        .set_color_format(ColorFormat::Yuv444)
        .set_color_range(ColorRange::Full)
        .set_chroma_sample_position(ChromaSamplePosition::Colocated)
        .set_profile(Profile::Professional)
        .set_tier(Tier::High)
        .set_level_code(51)
        .set_rc_mode(RcMode::Cbr)
        .set_target_bitrate(2_000_000)
        .set_qp(50)
        .set_intra_refresh(IntraRefreshType::Key)
        .enable_roi_map(true)
        .enable_recon(false);
    assert_eq!(
        cfg,
        Configuration {
            source_width: 320,
            source_height: 240,
            frame_rate_numerator: 30,
            frame_rate_denominator: 1,
            encoder_bit_depth: 10,
            encoder_color_format: 3,
            color_range: 1,
            chroma_sample_position: 2,
            profile: 2,
            tier: 1,
            level: 51,
            rate_control_mode: 2,
            target_bit_rate: 2_000_000,
            qp: 50,
            intra_refresh_type: 2,
            intra_period_length: 16,
            enable_roi_map: 1,
            recon_enabled: 0,
        }
    );
    cfg.set_level_auto();
    assert_eq!(cfg.level, 0);
}

#[test]
fn enum_codes() {
    assert_eq!([BitDepth::Eight.code(), BitDepth::Ten.code(), BitDepth::Twelve.code()], [8, 10, 12]);
    assert_eq!(
        [ColorFormat::Yuv400.code(), ColorFormat::Yuv420.code(), ColorFormat::Yuv422.code(), ColorFormat::Yuv444.code()],
        [0, 1, 2, 3]
    );
    assert_eq!([ColorRange::Studio.code(), ColorRange::Full.code()], [0, 1]);
    assert_eq!(
        [
            ChromaSamplePosition::Unknown.code(),
            ChromaSamplePosition::Vertical.code(),
            ChromaSamplePosition::Colocated.code()
        ],
        [0, 1, 2]
    );
    assert_eq!([Profile::Main.code(), Profile::High.code(), Profile::Professional.code()], [0, 1, 2]);
    assert_eq!([Tier::Main.code(), Tier::High.code()], [0, 1]);
    assert_eq!([RcMode::CqpOrCrf.code(), RcMode::Vbr.code(), RcMode::Cbr.code()], [0, 1, 2]);
    assert_eq!([IntraRefreshType::FwdKey.code(), IntraRefreshType::Key.code()], [1, 2]);
}

#[test]
fn flags_write_one_or_zero() {
    let mut cfg = base();
    cfg.enable_roi_map(false).enable_recon(true);
    assert_eq!(cfg, Configuration { enable_roi_map: 0, recon_enabled: 1, ..base() });
}
