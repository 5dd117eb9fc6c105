//! Profile classification over the raw flag vectors, tier and level
//! decoding, and aspect ratio queries.

use h265_reader::nal::sps::profile::LayerProfile;
use h265_reader::nal::sps::profile::Level;
use h265_reader::nal::sps::profile::Profile;
use h265_reader::nal::sps::profile::Tier;
use h265_reader::nal::sps::vui::AspectRatioInfo;
use h265_reader::nal::sps::ChromaFormat;

fn base_profile(idc: u8) -> LayerProfile {
    LayerProfile {
        profile_space: 0,
        tier_flag: false,
        profile_idc: idc,
        profile_compatibility_flag: vec![false; 32],
        progressive_source_flag: false,
        interlaced_source_flag: false,
        non_packed_constraint_flag: false,
        frame_only_constraint_flag: false,
        max_14bit_constraint_flag: false,
        max_12bit_constraint_flag: false,
        max_10bit_constraint_flag: false,
        max_8bit_constraint_flag: false,
        max_422chroma_constraint_flag: false,
        max_420chroma_constraint_flag: false,
        max_monochrome_constraint_flag: false,
        intra_constraint_flag: false,
        one_picture_only_constraint_flag: false,
        lower_bit_rate_constraint_flag: false,
        inbld_flag: false,
    }
}

#[test]
fn classify_main_family() {
    assert_eq!(base_profile(1).profile(), Profile::Main);
    let mut by_compat = base_profile(20);
    by_compat.profile_compatibility_flag[1] = true;
    assert_eq!(by_compat.profile(), Profile::Main);
    assert_eq!(base_profile(2).profile(), Profile::Main10);
    let mut still = base_profile(2);
    still.one_picture_only_constraint_flag = true;
    assert_eq!(still.profile(), Profile::Main10StillPicture);
    assert_eq!(base_profile(3).profile(), Profile::MainStillPicture);
}

#[test]
fn classify_format_range_extensions() {
    let mut p = base_profile(4);
    p.max_12bit_constraint_flag = true;
    p.max_10bit_constraint_flag = true;
    p.max_8bit_constraint_flag = true;
    p.max_422chroma_constraint_flag = true;
    p.max_420chroma_constraint_flag = true;
    p.max_monochrome_constraint_flag = true;
    p.lower_bit_rate_constraint_flag = true;
    assert_eq!(p.profile(), Profile::Monochrome);
    p.max_monochrome_constraint_flag = false;
    p.max_422chroma_constraint_flag = false;
    p.max_420chroma_constraint_flag = false;
    assert_eq!(p.profile(), Profile::Main444);
    p.max_8bit_constraint_flag = false;
    assert_eq!(p.profile(), Profile::Main444_10);
}

#[test]
fn classify_high_throughput_and_screen() {
    let mut p = base_profile(5);
    p.max_14bit_constraint_flag = true;
    p.max_12bit_constraint_flag = true;
    p.max_10bit_constraint_flag = true;
    p.max_8bit_constraint_flag = true;
    p.lower_bit_rate_constraint_flag = true;
    assert_eq!(p.profile(), Profile::HighThroughput444);
    let mut q = base_profile(9);
    q.max_14bit_constraint_flag = true;
    q.max_12bit_constraint_flag = true;
    q.max_10bit_constraint_flag = true;
    q.max_8bit_constraint_flag = true;
    q.max_422chroma_constraint_flag = true;
    q.max_420chroma_constraint_flag = true;
    q.lower_bit_rate_constraint_flag = true;
    assert_eq!(q.profile(), Profile::ScreenExtendedMain);
    let mut m = base_profile(6);
    m.max_12bit_constraint_flag = true;
    m.max_10bit_constraint_flag = true;
    m.max_8bit_constraint_flag = true;
    m.max_422chroma_constraint_flag = true;
    m.max_420chroma_constraint_flag = true;
    m.lower_bit_rate_constraint_flag = true;
    assert_eq!(m.profile(), Profile::MultiviewMain);
}

#[test]
fn unmatched_tuples_classify_as_unknown_never_fail() {
    // an idc-4 tuple outside the documented table.
    let mut p = base_profile(4);
    p.intra_constraint_flag = true;
    p.max_monochrome_constraint_flag = true;
    assert_eq!(p.profile(), Profile::Unknown(4));
    // an idc that selects no branch at all.
    assert_eq!(base_profile(31).profile(), Profile::Unknown(31));
    assert_eq!(base_profile(0).profile(), Profile::Unknown(0));
}

#[test]
fn tier_from_flag() {
    assert_eq!(Tier::from_tier_flag(false), Tier::Main);
    assert_eq!(Tier::from_tier_flag(true), Tier::High);
    let mut p = base_profile(1);
    p.tier_flag = true;
    assert_eq!(p.tier(), Tier::High);
}

#[test]
fn level_from_idc() {
    assert_eq!(Level::from_level_idc(30), Level::L1);
    assert_eq!(Level::from_level_idc(93), Level::L3_1);
    assert_eq!(Level::from_level_idc(123), Level::L4_1);
    assert_eq!(Level::from_level_idc(186), Level::L6_2);
    assert_eq!(Level::from_level_idc(255), Level::L8_5);
    assert_eq!(Level::from_level_idc(77), Level::Reserved(77));
}

#[test]
fn aspect_ratio_get() {
    assert_eq!(AspectRatioInfo::Ratio40_33.get(), Some((40, 33)));
    assert_eq!(AspectRatioInfo::Extended(64, 45).get(), Some((64, 45)));
    assert_eq!(AspectRatioInfo::Extended(0, 45).get(), None);
    assert_eq!(AspectRatioInfo::Extended(64, 0).get(), None);
    assert_eq!(AspectRatioInfo::Unspecified.get(), None);
    assert_eq!(AspectRatioInfo::Reserved(128).get(), None);
}

#[test]
fn chroma_format_from_idc() {
    assert_eq!(ChromaFormat::from_chroma_format_idc(0), ChromaFormat::Monochrome);
    assert_eq!(ChromaFormat::from_chroma_format_idc(1), ChromaFormat::YUV420);
    assert_eq!(ChromaFormat::from_chroma_format_idc(2), ChromaFormat::YUV422);
    assert_eq!(ChromaFormat::from_chroma_format_idc(3), ChromaFormat::YUV444);
    assert_eq!(ChromaFormat::from_chroma_format_idc(4), ChromaFormat::Invalid(4));
}
