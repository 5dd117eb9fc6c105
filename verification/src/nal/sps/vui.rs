//! Video usability information (VUI) syntax: aspect ratio, overscan, video
//! signal type, chroma sample locations, timing and HRD parameters, and
//! bitstream restrictions. Optional display/timing metadata embedded in an
//! SPS; not required for decoding.

use vstd::prelude::*;

verus! {

use crate::nal::sps::SpsError;
use crate::nal::sps::Window;
use crate::nal::sps::spec_read_window;
use crate::nal::sps::spec_take_bool;
use crate::nal::sps::spec_take_u8;
use crate::nal::sps::spec_take_u16;
use crate::nal::sps::spec_take_u32;
use crate::nal::sps::spec_take_ue;
use crate::nal::sps::take_bool;
use crate::nal::sps::take_u8;
use crate::nal::sps::take_u16;
use crate::nal::sps::take_u32;
use crate::nal::sps::take_ue;
use crate::nal::sps::spec_read_list;
use crate::nal::sps::lemma_read_list_extend;
use crate::nal::sps::lemma_read_list_error;
use crate::rbsp::BitReader;

/// Sample aspect ratio of the coded video, as signalled by
/// `aspect_ratio_idc` (sixteen named ratios, reserved values, or an
/// extended explicit width/height pair).
#[derive(Clone, Copy, Debug, PartialEq, Eq)]
pub enum AspectRatioInfo {
    Unspecified,
    Ratio1_1,
    Ratio12_11,
    Ratio10_11,
    Ratio16_11,
    Ratio40_33,
    Ratio24_11,
    Ratio20_11,
    Ratio32_11,
    Ratio80_33,
    Ratio18_11,
    Ratio15_11,
    Ratio64_33,
    Ratio160_99,
    Ratio4_3,
    Ratio3_2,
    Ratio2_1,
    /// A reserved `aspect_ratio_idc` value, carried through explicitly.
    Reserved(u8),
    /// `sar_width` and `sar_height` signalled explicitly.
    Extended(u16, u16),
}

/// The aspect ratio a non-extended `aspect_ratio_idc` value denotes.
pub open spec fn spec_aspect_ratio_from_idc(idc: u8) -> AspectRatioInfo
    recommends
        idc != 255,
{
    if idc == 0 {
        AspectRatioInfo::Unspecified
    } else if idc == 1 {
        AspectRatioInfo::Ratio1_1
    } else if idc == 2 {
        AspectRatioInfo::Ratio12_11
    } else if idc == 3 {
        AspectRatioInfo::Ratio10_11
    } else if idc == 4 {
        AspectRatioInfo::Ratio16_11
    } else if idc == 5 {
        AspectRatioInfo::Ratio40_33
    } else if idc == 6 {
        AspectRatioInfo::Ratio24_11
    } else if idc == 7 {
        AspectRatioInfo::Ratio20_11
    } else if idc == 8 {
        AspectRatioInfo::Ratio32_11
    } else if idc == 9 {
        AspectRatioInfo::Ratio80_33
    } else if idc == 10 {
        AspectRatioInfo::Ratio18_11
    } else if idc == 11 {
        AspectRatioInfo::Ratio15_11
    } else if idc == 12 {
        AspectRatioInfo::Ratio64_33
    } else if idc == 13 {
        AspectRatioInfo::Ratio160_99
    } else if idc == 14 {
        AspectRatioInfo::Ratio4_3
    } else if idc == 15 {
        AspectRatioInfo::Ratio3_2
    } else if idc == 16 {
        AspectRatioInfo::Ratio2_1
    } else {
        AspectRatioInfo::Reserved(idc)
    }
}

/// The aspect ratio syntax: a presence flag, an 8-bit idc when present, and
/// explicit 16-bit width and height for the extended idc.
#[verifier::opaque]
pub open spec fn spec_read_aspect_ratio_info(d: Seq<u8>, pos: nat) -> Result<
    (Option<AspectRatioInfo>, nat),
    SpsError,
> {
    match spec_take_bool(d, pos, "aspect_ratio_info_present_flag") {
        Err(e) => Err(e),
        Ok((present, p0)) => {
            if !present {
                Ok((None, p0))
            } else {
                match spec_take_u8(d, p0, 8, "aspect_ratio_idc") {
                    Err(e) => Err(e),
                    Ok((idc, p1)) => {
                        if idc == 255 {
                            match spec_take_u16(d, p1, 16, "sar_width") {
                                Err(e) => Err(e),
                                Ok((w, p2)) => match spec_take_u16(d, p2, 16, "sar_height") {
                                    Err(e) => Err(e),
                                    Ok((h, p3)) => Ok(
                                        (Some(AspectRatioInfo::Extended(w, h)), p3),
                                    ),
                                },
                            }
                        } else {
                            Ok((Some(spec_aspect_ratio_from_idc(idc)), p1))
                        }
                    },
                }
            }
        },
    }
}

/// The aspect ratio as `(width, height)`, if one is specified. An extended
/// ratio with a zero width or height is unspecified per the standard.
pub open spec fn spec_aspect_ratio_get(a: AspectRatioInfo) -> Option<(u16, u16)> {
    match a {
        AspectRatioInfo::Unspecified => None,
        AspectRatioInfo::Ratio1_1 => Some((1u16, 1u16)),
        AspectRatioInfo::Ratio12_11 => Some((12u16, 11u16)),
        AspectRatioInfo::Ratio10_11 => Some((10u16, 11u16)),
        AspectRatioInfo::Ratio16_11 => Some((16u16, 11u16)),
        AspectRatioInfo::Ratio40_33 => Some((40u16, 33u16)),
        AspectRatioInfo::Ratio24_11 => Some((24u16, 11u16)),
        AspectRatioInfo::Ratio20_11 => Some((20u16, 11u16)),
        AspectRatioInfo::Ratio32_11 => Some((32u16, 11u16)),
        AspectRatioInfo::Ratio80_33 => Some((80u16, 33u16)),
        AspectRatioInfo::Ratio18_11 => Some((18u16, 11u16)),
        AspectRatioInfo::Ratio15_11 => Some((15u16, 11u16)),
        AspectRatioInfo::Ratio64_33 => Some((64u16, 33u16)),
        AspectRatioInfo::Ratio160_99 => Some((160u16, 99u16)),
        AspectRatioInfo::Ratio4_3 => Some((4u16, 3u16)),
        AspectRatioInfo::Ratio3_2 => Some((3u16, 2u16)),
        AspectRatioInfo::Ratio2_1 => Some((2u16, 1u16)),
        AspectRatioInfo::Reserved(_) => None,
        AspectRatioInfo::Extended(w, h) => if w == 0 || h == 0 {
            None
        } else {
            Some((w, h))
        },
    }
}

impl AspectRatioInfo {
    /// Parses the optional aspect ratio info.
    pub fn read(r: &mut BitReader<'_>) -> (res: Result<Option<AspectRatioInfo>, SpsError>)
        requires
            old(r).wf(),
        ensures
            final(r).wf(),
            final(r).data() == old(r).data(),
            match res {
                Ok(v) => spec_read_aspect_ratio_info(old(r).data(), old(r).pos()) == Ok::<
                    (Option<AspectRatioInfo>, nat),
                    SpsError,
                >((v, final(r).pos())),
                Err(e) => spec_read_aspect_ratio_info(old(r).data(), old(r).pos()) == Err::<
                    (Option<AspectRatioInfo>, nat),
                    SpsError,
                >(e),
            },
    {
        proof {
            reveal(spec_read_aspect_ratio_info);
        }
        let present = take_bool(r, "aspect_ratio_info_present_flag")?;
        if !present {
            return Ok(None);
        }
        let idc = take_u8(r, 8, "aspect_ratio_idc")?;
        if idc == 255 {
            let w = take_u16(r, 16, "sar_width")?;
            let h = take_u16(r, 16, "sar_height")?;
            return Ok(Some(AspectRatioInfo::Extended(w, h)));
        }
        let v = match idc {
            0 => AspectRatioInfo::Unspecified,
            1 => AspectRatioInfo::Ratio1_1,
            2 => AspectRatioInfo::Ratio12_11,
            3 => AspectRatioInfo::Ratio10_11,
            4 => AspectRatioInfo::Ratio16_11,
            5 => AspectRatioInfo::Ratio40_33,
            6 => AspectRatioInfo::Ratio24_11,
            7 => AspectRatioInfo::Ratio20_11,
            8 => AspectRatioInfo::Ratio32_11,
            9 => AspectRatioInfo::Ratio80_33,
            10 => AspectRatioInfo::Ratio18_11,
            11 => AspectRatioInfo::Ratio15_11,
            12 => AspectRatioInfo::Ratio64_33,
            13 => AspectRatioInfo::Ratio160_99,
            14 => AspectRatioInfo::Ratio4_3,
            15 => AspectRatioInfo::Ratio3_2,
            16 => AspectRatioInfo::Ratio2_1,
            _ => AspectRatioInfo::Reserved(idc),
        };
        Ok(Some(v))
    }

    /// Returns the aspect ratio as `(width, height)`, if specified.
    pub fn get(&self) -> (res: Option<(u16, u16)>)
        ensures
            res == spec_aspect_ratio_get(*self),
    {
        match self {
            AspectRatioInfo::Unspecified => None,
            AspectRatioInfo::Ratio1_1 => Some((1, 1)),
            AspectRatioInfo::Ratio12_11 => Some((12, 11)),
            AspectRatioInfo::Ratio10_11 => Some((10, 11)),
            AspectRatioInfo::Ratio16_11 => Some((16, 11)),
            AspectRatioInfo::Ratio40_33 => Some((40, 33)),
            AspectRatioInfo::Ratio24_11 => Some((24, 11)),
            AspectRatioInfo::Ratio20_11 => Some((20, 11)),
            AspectRatioInfo::Ratio32_11 => Some((32, 11)),
            AspectRatioInfo::Ratio80_33 => Some((80, 33)),
            AspectRatioInfo::Ratio18_11 => Some((18, 11)),
            AspectRatioInfo::Ratio15_11 => Some((15, 11)),
            AspectRatioInfo::Ratio64_33 => Some((64, 33)),
            AspectRatioInfo::Ratio160_99 => Some((160, 99)),
            AspectRatioInfo::Ratio4_3 => Some((4, 3)),
            AspectRatioInfo::Ratio3_2 => Some((3, 2)),
            AspectRatioInfo::Ratio2_1 => Some((2, 1)),
            AspectRatioInfo::Reserved(_) => None,
            AspectRatioInfo::Extended(width, height) => {
                if *width == 0 || *height == 0 {
                    None
                } else {
                    Some((*width, *height))
                }
            },
        }
    }
}

/// Whether the coded video is suitable for overscan display.
#[derive(Clone, Copy, Debug, PartialEq, Eq)]
pub enum OverscanAppropriate {
    Unspecified,
    Appropriate,
    Inappropriate,
}

/// The overscan syntax: a presence flag, then the appropriateness flag when
/// present.
#[verifier::opaque]
pub open spec fn spec_read_overscan(d: Seq<u8>, pos: nat) -> Result<
    (OverscanAppropriate, nat),
    SpsError,
> {
    match spec_take_bool(d, pos, "overscan_info_present_flag") {
        Err(e) => Err(e),
        Ok((present, p0)) => {
            if !present {
                Ok((OverscanAppropriate::Unspecified, p0))
            } else {
                match spec_take_bool(d, p0, "overscan_appropriate_flag") {
                    Err(e) => Err(e),
                    Ok((appropriate, p1)) => Ok(
                        (
                            if appropriate {
                                OverscanAppropriate::Appropriate
                            } else {
                                OverscanAppropriate::Inappropriate
                            },
                            p1,
                        ),
                    ),
                }
            }
        },
    }
}

impl OverscanAppropriate {
    /// Parses the overscan appropriateness.
    pub fn read(r: &mut BitReader<'_>) -> (res: Result<OverscanAppropriate, SpsError>)
        requires
            old(r).wf(),
        ensures
            final(r).wf(),
            final(r).data() == old(r).data(),
            match res {
                Ok(v) => spec_read_overscan(old(r).data(), old(r).pos()) == Ok::<
                    (OverscanAppropriate, nat),
                    SpsError,
                >((v, final(r).pos())),
                Err(e) => spec_read_overscan(old(r).data(), old(r).pos()) == Err::<
                    (OverscanAppropriate, nat),
                    SpsError,
                >(e),
            },
    {
        proof {
            reveal(spec_read_overscan);
        }
        let present = take_bool(r, "overscan_info_present_flag")?;
        if present {
            let appropriate = take_bool(r, "overscan_appropriate_flag")?;
            if appropriate {
                Ok(OverscanAppropriate::Appropriate)
            } else {
                Ok(OverscanAppropriate::Inappropriate)
            }
        } else {
            Ok(OverscanAppropriate::Unspecified)
        }
    }
}

/// Analogue video standard of the source material, from the 3-bit
/// `video_format` field.
#[derive(Clone, Copy, Debug, PartialEq, Eq)]
pub enum VideoFormat {
    Component,
    PAL,
    NTSC,
    SECAM,
    MAC,
    Unspecified,
    /// A reserved `video_format` value, carried through explicitly.
    Reserved(u8),
}

/// The video format a 3-bit `video_format` value denotes.
pub open spec fn spec_video_format(v: u8) -> VideoFormat
    recommends
        v < 8,
{
    if v == 0 {
        VideoFormat::Component
    } else if v == 1 {
        VideoFormat::PAL
    } else if v == 2 {
        VideoFormat::NTSC
    } else if v == 3 {
        VideoFormat::SECAM
    } else if v == 4 {
        VideoFormat::MAC
    } else if v == 5 {
        VideoFormat::Unspecified
    } else {
        VideoFormat::Reserved(v)
    }
}

impl VideoFormat {
    /// Decodes the 3-bit `video_format` field; values 6 and 7 are reserved.
    pub fn from(video_format: u8) -> (res: VideoFormat)
        requires
            video_format < 8,
        ensures
            res == spec_video_format(video_format),
    {
        match video_format {
            0 => VideoFormat::Component,
            1 => VideoFormat::PAL,
            2 => VideoFormat::NTSC,
            3 => VideoFormat::SECAM,
            4 => VideoFormat::MAC,
            5 => VideoFormat::Unspecified,
            _ => VideoFormat::Reserved(video_format),
        }
    }
}

/// Colour primaries, transfer characteristics and matrix coefficients.
#[derive(Clone, Copy, Debug, PartialEq, Eq)]
pub struct ColourDescription {
    pub colour_primaries: u8,
    pub transfer_characteristics: u8,
    pub matrix_coeffs: u8,
}

/// The colour description syntax: a presence flag, then three 8-bit fields.
#[verifier::opaque]
pub open spec fn spec_read_colour_description(d: Seq<u8>, pos: nat) -> Result<
    (Option<ColourDescription>, nat),
    SpsError,
> {
    match spec_take_bool(d, pos, "colour_description_present_flag") {
        Err(e) => Err(e),
        Ok((present, p0)) => {
            if !present {
                Ok((None, p0))
            } else {
                match spec_take_u8(d, p0, 8, "colour_primaries") {
                    Err(e) => Err(e),
                    Ok((cp, p1)) => match spec_take_u8(d, p1, 8, "transfer_characteristics") {
                        Err(e) => Err(e),
                        Ok((tc, p2)) => match spec_take_u8(d, p2, 8, "matrix_coeffs") {
                            Err(e) => Err(e),
                            Ok((mc, p3)) => Ok(
                                (
                                    Some(
                                        ColourDescription {
                                            colour_primaries: cp,
                                            transfer_characteristics: tc,
                                            matrix_coeffs: mc,
                                        },
                                    ),
                                    p3,
                                ),
                            ),
                        },
                    },
                }
            }
        },
    }
}

impl ColourDescription {
    /// Parses the optional colour description.
    pub fn read(r: &mut BitReader<'_>) -> (res: Result<Option<ColourDescription>, SpsError>)
        requires
            old(r).wf(),
        ensures
            final(r).wf(),
            final(r).data() == old(r).data(),
            match res {
                Ok(v) => spec_read_colour_description(old(r).data(), old(r).pos()) == Ok::<
                    (Option<ColourDescription>, nat),
                    SpsError,
                >((v, final(r).pos())),
                Err(e) => spec_read_colour_description(old(r).data(), old(r).pos()) == Err::<
                    (Option<ColourDescription>, nat),
                    SpsError,
                >(e),
            },
    {
        proof {
            reveal(spec_read_colour_description);
        }
        if take_bool(r, "colour_description_present_flag")? {
            Ok(
                Some(
                    ColourDescription {
                        colour_primaries: take_u8(r, 8, "colour_primaries")?,
                        transfer_characteristics: take_u8(r, 8, "transfer_characteristics")?,
                        matrix_coeffs: take_u8(r, 8, "matrix_coeffs")?,
                    },
                ),
            )
        } else {
            Ok(None)
        }
    }
}

/// Video format, full-range flag and optional colour description.
#[derive(Clone, Copy, Debug, PartialEq, Eq)]
pub struct VideoSignalType {
    pub video_format: VideoFormat,
    pub video_full_range_flag: bool,
    pub colour_description: Option<ColourDescription>,
}

/// The video signal type syntax: a presence flag, then the 3-bit format,
/// the full-range flag, and the nested colour description.
#[verifier::opaque]
pub open spec fn spec_read_video_signal_type(d: Seq<u8>, pos: nat) -> Result<
    (Option<VideoSignalType>, nat),
    SpsError,
> {
    match spec_take_bool(d, pos, "video_signal_type_present_flag") {
        Err(e) => Err(e),
        Ok((present, p0)) => {
            if !present {
                Ok((None, p0))
            } else {
                match spec_take_u8(d, p0, 3, "video_format") {
                    Err(e) => Err(e),
                    Ok((vf, p1)) => match spec_take_bool(d, p1, "video_full_range_flag") {
                        Err(e) => Err(e),
                        Ok((fr, p2)) => match spec_read_colour_description(d, p2) {
                            Err(e) => Err(e),
                            Ok((cd, p3)) => Ok(
                                (
                                    Some(
                                        VideoSignalType {
                                            video_format: spec_video_format(vf),
                                            video_full_range_flag: fr,
                                            colour_description: cd,
                                        },
                                    ),
                                    p3,
                                ),
                            ),
                        },
                    },
                }
            }
        },
    }
}

impl VideoSignalType {
    /// Parses the optional video signal type.
    pub fn read(r: &mut BitReader<'_>) -> (res: Result<Option<VideoSignalType>, SpsError>)
        requires
            old(r).wf(),
        ensures
            final(r).wf(),
            final(r).data() == old(r).data(),
            match res {
                Ok(v) => spec_read_video_signal_type(old(r).data(), old(r).pos()) == Ok::<
                    (Option<VideoSignalType>, nat),
                    SpsError,
                >((v, final(r).pos())),
                Err(e) => spec_read_video_signal_type(old(r).data(), old(r).pos()) == Err::<
                    (Option<VideoSignalType>, nat),
                    SpsError,
                >(e),
            },
    {
        proof {
            reveal(spec_read_video_signal_type);
        }
        if take_bool(r, "video_signal_type_present_flag")? {
            let ghost pvf = r.pos();
            let vf = take_u8(r, 3, "video_format")?;
            proof {
                reveal(crate::nal::sps::spec_take_u8);
                crate::rbsp::lemma_bits_value_bound(old(r).data(), pvf, 3);
                vstd::arithmetic::power2::lemma2_to64();
            }
            Ok(
                Some(
                    VideoSignalType {
                        video_format: VideoFormat::from(vf),
                        video_full_range_flag: take_bool(r, "video_full_range_flag")?,
                        colour_description: ColourDescription::read(r)?,
                    },
                ),
            )
        } else {
            Ok(None)
        }
    }
}

/// Chroma sample positions for the top and bottom fields.
#[derive(Clone, Copy, Debug, PartialEq, Eq)]
pub struct ChromaLocInfo {
    pub chroma_sample_loc_type_top_field: u32,
    pub chroma_sample_loc_type_bottom_field: u32,
}

/// The chroma location syntax: a presence flag, then two Exp-Golomb fields.
#[verifier::opaque]
pub open spec fn spec_read_chroma_loc_info(d: Seq<u8>, pos: nat) -> Result<
    (Option<ChromaLocInfo>, nat),
    SpsError,
> {
    match spec_take_bool(d, pos, "chroma_loc_info_present_flag") {
        Err(e) => Err(e),
        Ok((present, p0)) => {
            if !present {
                Ok((None, p0))
            } else {
                match spec_take_ue(d, p0, "chroma_sample_loc_type_top_field") {
                    Err(e) => Err(e),
                    Ok((top, p1)) => match spec_take_ue(
                        d,
                        p1,
                        "chroma_sample_loc_type_bottom_field",
                    ) {
                        Err(e) => Err(e),
                        Ok((bottom, p2)) => Ok(
                            (
                                Some(
                                    ChromaLocInfo {
                                        chroma_sample_loc_type_top_field: top,
                                        chroma_sample_loc_type_bottom_field: bottom,
                                    },
                                ),
                                p2,
                            ),
                        ),
                    },
                }
            }
        },
    }
}

impl ChromaLocInfo {
    /// Parses the optional chroma sample location info.
    pub fn read(r: &mut BitReader<'_>) -> (res: Result<Option<ChromaLocInfo>, SpsError>)
        requires
            old(r).wf(),
        ensures
            final(r).wf(),
            final(r).data() == old(r).data(),
            match res {
                Ok(v) => spec_read_chroma_loc_info(old(r).data(), old(r).pos()) == Ok::<
                    (Option<ChromaLocInfo>, nat),
                    SpsError,
                >((v, final(r).pos())),
                Err(e) => spec_read_chroma_loc_info(old(r).data(), old(r).pos()) == Err::<
                    (Option<ChromaLocInfo>, nat),
                    SpsError,
                >(e),
            },
    {
        proof {
            reveal(spec_read_chroma_loc_info);
        }
        if take_bool(r, "chroma_loc_info_present_flag")? {
            Ok(
                Some(
                    ChromaLocInfo {
                        chroma_sample_loc_type_top_field: take_ue(
                            r,
                            "chroma_sample_loc_type_top_field",
                        )?,
                        chroma_sample_loc_type_bottom_field: take_ue(
                            r,
                            "chroma_sample_loc_type_bottom_field",
                        )?,
                    },
                ),
            )
        } else {
            Ok(None)
        }
    }
}

/// Limits the bitstream promises to respect (tiles, motion vector lengths,
/// and so on).
#[derive(Clone, Copy, Debug, PartialEq, Eq)]
pub struct BitstreamRestrictions {
    pub tiles_fixed_structure_flag: bool,
    pub motion_vectors_over_pic_boundaries_flag: bool,
    pub restricted_ref_pic_lists_flag: bool,
    pub min_spatial_segmentation_idc: u32,
    pub max_bytes_per_pic_denom: u32,
    pub max_bits_per_mb_denom: u32,
    pub log2_max_mv_length_horizontal: u32,
    pub log2_max_mv_length_vertical: u32,
}

/// The bitstream restrictions syntax: a presence flag, three flags, then
/// five Exp-Golomb fields.
#[verifier::opaque]
pub open spec fn spec_read_bitstream_restrictions(d: Seq<u8>, pos: nat) -> Result<
    (Option<BitstreamRestrictions>, nat),
    SpsError,
> {
    match spec_take_bool(d, pos, "bitstream_restriction_flag") {
        Err(e) => Err(e),
        Ok((present, p0)) => {
            if !present {
                Ok((None, p0))
            } else {
                match spec_take_bool(d, p0, "tiles_fixed_structure_flag") {
                    Err(e) => Err(e),
                    Ok((tf, p1)) => match spec_take_bool(
                        d,
                        p1,
                        "motion_vectors_over_pic_boundaries_flag",
                    ) {
                        Err(e) => Err(e),
                        Ok((mv, p2)) => match spec_take_bool(d, p2, "restricted_ref_pic_lists_flag") {
                            Err(e) => Err(e),
                            Ok((rr, p3)) => match spec_take_ue(d, p3, "min_spatial_segmentation_idc") {
                                Err(e) => Err(e),
                                Ok((ms, p4)) => match spec_take_ue(d, p4, "max_bytes_per_pic_denom") {
                                    Err(e) => Err(e),
                                    Ok((mb, p5)) => match spec_take_ue(
                                        d,
                                        p5,
                                        "max_bits_per_mb_denom",
                                    ) {
                                        Err(e) => Err(e),
                                        Ok((mm, p6)) => match spec_take_ue(
                                            d,
                                            p6,
                                            "log2_max_mv_length_horizontal",
                                        ) {
                                            Err(e) => Err(e),
                                            Ok((mh, p7)) => match spec_take_ue(
                                                d,
                                                p7,
                                                "log2_max_mv_length_vertical",
                                            ) {
                                                Err(e) => Err(e),
                                                Ok((mvv, p8)) => Ok(
                                                    (
                                                        Some(
                                                            BitstreamRestrictions {
                                                                tiles_fixed_structure_flag: tf,
                                                                motion_vectors_over_pic_boundaries_flag:
                                                                    mv,
                                                                restricted_ref_pic_lists_flag: rr,
                                                                min_spatial_segmentation_idc: ms,
                                                                max_bytes_per_pic_denom: mb,
                                                                max_bits_per_mb_denom: mm,
                                                                log2_max_mv_length_horizontal: mh,
                                                                log2_max_mv_length_vertical: mvv,
                                                            },
                                                        ),
                                                        p8,
                                                    ),
                                                ),
                                            },
                                        },
                                    },
                                },
                            },
                        },
                    },
                }
            }
        },
    }
}

impl BitstreamRestrictions {
    /// Parses the optional bitstream restrictions.
    pub fn read(r: &mut BitReader<'_>) -> (res: Result<Option<BitstreamRestrictions>, SpsError>)
        requires
            old(r).wf(),
        ensures
            final(r).wf(),
            final(r).data() == old(r).data(),
            match res {
                Ok(v) => spec_read_bitstream_restrictions(old(r).data(), old(r).pos()) == Ok::<
                    (Option<BitstreamRestrictions>, nat),
                    SpsError,
                >((v, final(r).pos())),
                Err(e) => spec_read_bitstream_restrictions(old(r).data(), old(r).pos()) == Err::<
                    (Option<BitstreamRestrictions>, nat),
                    SpsError,
                >(e),
            },
    {
        proof {
            reveal(spec_read_bitstream_restrictions);
        }
        if take_bool(r, "bitstream_restriction_flag")? {
            Ok(
                Some(
                    BitstreamRestrictions {
                        tiles_fixed_structure_flag: take_bool(r, "tiles_fixed_structure_flag")?,
                        motion_vectors_over_pic_boundaries_flag: take_bool(
                            r,
                            "motion_vectors_over_pic_boundaries_flag",
                        )?,
                        restricted_ref_pic_lists_flag: take_bool(
                            r,
                            "restricted_ref_pic_lists_flag",
                        )?,
                        min_spatial_segmentation_idc: take_ue(r, "min_spatial_segmentation_idc")?,
                        max_bytes_per_pic_denom: take_ue(r, "max_bytes_per_pic_denom")?,
                        max_bits_per_mb_denom: take_ue(r, "max_bits_per_mb_denom")?,
                        log2_max_mv_length_horizontal: take_ue(r, "log2_max_mv_length_horizontal")?,
                        log2_max_mv_length_vertical: take_ue(r, "log2_max_mv_length_vertical")?,
                    },
                ),
            )
        } else {
            Ok(None)
        }
    }
}

/// Sub-picture HRD parameters (decoding-unit level timing).
#[derive(Clone, Copy, Debug, PartialEq, Eq)]
pub struct SubPicHrdParams {
    pub tick_divisor_minus2: u8,
    pub du_cpb_removal_delay_increment_length_minus1: u8,
    pub sub_pic_cpb_params_in_pic_timing_sei_flag: bool,
    pub dpb_output_delay_du_length_minus1: u8,
    /// Read later in the common-info syntax than the other fields; zero
    /// until then.
    pub cpb_size_du_scale: u8,
}

/// The leading sub-picture HRD fields (everything but `cpb_size_du_scale`,
/// which the common-info syntax carries further on).
#[verifier::opaque]
pub open spec fn spec_read_sub_pic_hrd_partial(d: Seq<u8>, pos: nat) -> Result<
    (SubPicHrdParams, nat),
    SpsError,
> {
    match spec_take_u8(d, pos, 8, "tick_divisor_minus2") {
        Err(e) => Err(e),
        Ok((td, p1)) => match spec_take_u8(d, p1, 5, "du_cpb_removal_delay_increment_length_minus1") {
            Err(e) => Err(e),
            Ok((du, p2)) => match spec_take_bool(d, p2, "sub_pic_cpb_params_in_pic_timing_sei_flag") {
                Err(e) => Err(e),
                Ok((sf, p3)) => match spec_take_u8(d, p3, 5, "dpb_output_delay_du_length_minus1") {
                    Err(e) => Err(e),
                    Ok((dp, p4)) => Ok(
                        (
                            SubPicHrdParams {
                                tick_divisor_minus2: td,
                                du_cpb_removal_delay_increment_length_minus1: du,
                                sub_pic_cpb_params_in_pic_timing_sei_flag: sf,
                                dpb_output_delay_du_length_minus1: dp,
                                cpb_size_du_scale: 0,
                            },
                            p4,
                        ),
                    ),
                },
            },
        },
    }
}

impl SubPicHrdParams {
    /// Parses the leading sub-picture HRD fields; `cpb_size_du_scale` is
    /// filled in by the caller once its bit arrives.
    pub fn read_partial(r: &mut BitReader<'_>) -> (res: Result<SubPicHrdParams, SpsError>)
        requires
            old(r).wf(),
        ensures
            final(r).wf(),
            final(r).data() == old(r).data(),
            match res {
                Ok(v) => spec_read_sub_pic_hrd_partial(old(r).data(), old(r).pos()) == Ok::<
                    (SubPicHrdParams, nat),
                    SpsError,
                >((v, final(r).pos())),
                Err(e) => spec_read_sub_pic_hrd_partial(old(r).data(), old(r).pos()) == Err::<
                    (SubPicHrdParams, nat),
                    SpsError,
                >(e),
            },
    {
        proof {
            reveal(spec_read_sub_pic_hrd_partial);
        }
        Ok(
            SubPicHrdParams {
                tick_divisor_minus2: take_u8(r, 8, "tick_divisor_minus2")?,
                du_cpb_removal_delay_increment_length_minus1: take_u8(
                    r,
                    5,
                    "du_cpb_removal_delay_increment_length_minus1",
                )?,
                sub_pic_cpb_params_in_pic_timing_sei_flag: take_bool(
                    r,
                    "sub_pic_cpb_params_in_pic_timing_sei_flag",
                )?,
                dpb_output_delay_du_length_minus1: take_u8(
                    r,
                    5,
                    "dpb_output_delay_du_length_minus1",
                )?,
                cpb_size_du_scale: 0,
            },
        )
    }
}

/// Scales and field lengths shared by all HRD sub-layers.
#[derive(Clone, Copy, Debug, PartialEq, Eq)]
pub struct HrdParametersCommonInfParameters {
    pub sub_pic_hrd_params: Option<SubPicHrdParams>,
    pub bit_rate_scale: u8,
    pub cpb_size_scale: u8,
    pub initial_cpb_removal_delay_length_minus1: u8,
    pub au_cpb_removal_delay_length_minus1: u8,
    pub dpb_output_delay_length_minus1: u8,
}

/// The trailing three length fields of the HRD common info, shared by the
/// branches with and without sub-picture parameters.
#[verifier::opaque]
pub open spec fn spec_read_hrd_common_params_tail(
    d: Seq<u8>,
    pos: nat,
    sub_pic_hrd_params: Option<SubPicHrdParams>,
    bit_rate_scale: u8,
    cpb_size_scale: u8,
) -> Result<(HrdParametersCommonInfParameters, nat), SpsError> {
    match spec_take_u8(d, pos, 5, "initial_cpb_removal_delay_length_minus1") {
        Err(e) => Err(e),
        Ok((init, p1)) => match spec_take_u8(d, p1, 5, "au_cpb_removal_delay_length_minus1") {
            Err(e) => Err(e),
            Ok((au, p2)) => match spec_take_u8(d, p2, 5, "dpb_output_delay_length_minus1") {
                Err(e) => Err(e),
                Ok((dpb, p3)) => Ok(
                    (
                        HrdParametersCommonInfParameters {
                            sub_pic_hrd_params,
                            bit_rate_scale,
                            cpb_size_scale,
                            initial_cpb_removal_delay_length_minus1: init,
                            au_cpb_removal_delay_length_minus1: au,
                            dpb_output_delay_length_minus1: dpb,
                        },
                        p3,
                    ),
                ),
            },
        },
    }
}

/// The HRD common info parameters syntax: optional sub-picture parameters,
/// two 4-bit scales (plus `cpb_size_du_scale` when sub-picture parameters
/// are present), then three 5-bit lengths.
#[verifier::opaque]
pub open spec fn spec_read_hrd_common_params(d: Seq<u8>, pos: nat) -> Result<
    (HrdParametersCommonInfParameters, nat),
    SpsError,
> {
    match spec_take_bool(d, pos, "sub_pic_hrd_params_present_flag") {
        Err(e) => Err(e),
        Ok((sp, p0)) => {
            if sp {
                match spec_read_sub_pic_hrd_partial(d, p0) {
                    Err(e) => Err(e),
                    Ok((part, p1)) => match spec_take_u8(d, p1, 4, "bit_rate_scale") {
                        Err(e) => Err(e),
                        Ok((brs, p2)) => match spec_take_u8(d, p2, 4, "cpb_size_scale") {
                            Err(e) => Err(e),
                            Ok((css, p3)) => match spec_take_u8(d, p3, 4, "cpb_size_du_scale") {
                                Err(e) => Err(e),
                                Ok((du, p4)) => spec_read_hrd_common_params_tail(
                                    d,
                                    p4,
                                    Some(
                                        SubPicHrdParams {
                                            tick_divisor_minus2: part.tick_divisor_minus2,
                                            du_cpb_removal_delay_increment_length_minus1:
                                                part.du_cpb_removal_delay_increment_length_minus1,
                                            sub_pic_cpb_params_in_pic_timing_sei_flag:
                                                part.sub_pic_cpb_params_in_pic_timing_sei_flag,
                                            dpb_output_delay_du_length_minus1:
                                                part.dpb_output_delay_du_length_minus1,
                                            cpb_size_du_scale: du,
                                        },
                                    ),
                                    brs,
                                    css,
                                ),
                            },
                        },
                    },
                }
            } else {
                match spec_take_u8(d, p0, 4, "bit_rate_scale") {
                    Err(e) => Err(e),
                    Ok((brs, p1)) => match spec_take_u8(d, p1, 4, "cpb_size_scale") {
                        Err(e) => Err(e),
                        Ok((css, p2)) => spec_read_hrd_common_params_tail(d, p2, None, brs, css),
                    },
                }
            }
        },
    }
}

impl HrdParametersCommonInfParameters {
    /// Parses the HRD common info parameters.
    pub fn read(r: &mut BitReader<'_>) -> (res: Result<HrdParametersCommonInfParameters, SpsError>)
        requires
            old(r).wf(),
        ensures
            final(r).wf(),
            final(r).data() == old(r).data(),
            match res {
                Ok(v) => spec_read_hrd_common_params(old(r).data(), old(r).pos()) == Ok::<
                    (HrdParametersCommonInfParameters, nat),
                    SpsError,
                >((v, final(r).pos())),
                Err(e) => spec_read_hrd_common_params(old(r).data(), old(r).pos()) == Err::<
                    (HrdParametersCommonInfParameters, nat),
                    SpsError,
                >(e),
            },
    {
        proof {
            reveal(spec_read_hrd_common_params);
            reveal(spec_read_hrd_common_params_tail);
        }
        let sub_pic_present = take_bool(r, "sub_pic_hrd_params_present_flag")?;
        let sub_pic_hrd_params: Option<SubPicHrdParams>;
        let bit_rate_scale: u8;
        let cpb_size_scale: u8;
        if sub_pic_present {
            let part = SubPicHrdParams::read_partial(r)?;
            bit_rate_scale = take_u8(r, 4, "bit_rate_scale")?;
            cpb_size_scale = take_u8(r, 4, "cpb_size_scale")?;
            let du = take_u8(r, 4, "cpb_size_du_scale")?;
            sub_pic_hrd_params = Some(
                SubPicHrdParams {
                    tick_divisor_minus2: part.tick_divisor_minus2,
                    du_cpb_removal_delay_increment_length_minus1:
                        part.du_cpb_removal_delay_increment_length_minus1,
                    sub_pic_cpb_params_in_pic_timing_sei_flag:
                        part.sub_pic_cpb_params_in_pic_timing_sei_flag,
                    dpb_output_delay_du_length_minus1: part.dpb_output_delay_du_length_minus1,
                    cpb_size_du_scale: du,
                },
            );
        } else {
            bit_rate_scale = take_u8(r, 4, "bit_rate_scale")?;
            cpb_size_scale = take_u8(r, 4, "cpb_size_scale")?;
            sub_pic_hrd_params = None;
        }
        Ok(
            HrdParametersCommonInfParameters {
                sub_pic_hrd_params,
                bit_rate_scale,
                cpb_size_scale,
                initial_cpb_removal_delay_length_minus1: take_u8(
                    r,
                    5,
                    "initial_cpb_removal_delay_length_minus1",
                )?,
                au_cpb_removal_delay_length_minus1: take_u8(
                    r,
                    5,
                    "au_cpb_removal_delay_length_minus1",
                )?,
                dpb_output_delay_length_minus1: take_u8(r, 5, "dpb_output_delay_length_minus1")?,
            },
        )
    }
}

/// Which HRD parameter kinds are present, plus the shared common info.
#[derive(Clone, Copy, Debug, PartialEq, Eq)]
pub struct HrdParametersCommonInf {
    pub nal_hrd_parameters_present_flag: bool,
    pub vcl_hrd_parameters_present_flag: bool,
    pub parameters: Option<HrdParametersCommonInfParameters>,
}

/// The HRD common info syntax: two presence flags, then the shared
/// parameters when either kind is present.
#[verifier::opaque]
pub open spec fn spec_read_hrd_common_inf(d: Seq<u8>, pos: nat) -> Result<
    (HrdParametersCommonInf, nat),
    SpsError,
> {
    match spec_take_bool(d, pos, "nal_hrd_parameters_present") {
        Err(e) => Err(e),
        Ok((nal, p0)) => match spec_take_bool(d, p0, "vcl_hrd_parameters_present") {
            Err(e) => Err(e),
            Ok((vcl, p1)) => {
                if nal || vcl {
                    match spec_read_hrd_common_params(d, p1) {
                        Err(e) => Err(e),
                        Ok((params, p2)) => Ok(
                            (
                                HrdParametersCommonInf {
                                    nal_hrd_parameters_present_flag: nal,
                                    vcl_hrd_parameters_present_flag: vcl,
                                    parameters: Some(params),
                                },
                                p2,
                            ),
                        ),
                    }
                } else {
                    Ok(
                        (
                            HrdParametersCommonInf {
                                nal_hrd_parameters_present_flag: nal,
                                vcl_hrd_parameters_present_flag: vcl,
                                parameters: None,
                            },
                            p1,
                        ),
                    )
                }
            },
        },
    }
}

impl HrdParametersCommonInf {
    /// Parses the HRD common info.
    pub fn read(r: &mut BitReader<'_>) -> (res: Result<HrdParametersCommonInf, SpsError>)
        requires
            old(r).wf(),
        ensures
            final(r).wf(),
            final(r).data() == old(r).data(),
            match res {
                Ok(v) => spec_read_hrd_common_inf(old(r).data(), old(r).pos()) == Ok::<
                    (HrdParametersCommonInf, nat),
                    SpsError,
                >((v, final(r).pos())),
                Err(e) => spec_read_hrd_common_inf(old(r).data(), old(r).pos()) == Err::<
                    (HrdParametersCommonInf, nat),
                    SpsError,
                >(e),
            },
    {
        proof {
            reveal(spec_read_hrd_common_inf);
        }
        let nal_hrd_parameters_present_flag = take_bool(r, "nal_hrd_parameters_present")?;
        let vcl_hrd_parameters_present_flag = take_bool(r, "vcl_hrd_parameters_present")?;
        let parameters = if nal_hrd_parameters_present_flag || vcl_hrd_parameters_present_flag {
            Some(HrdParametersCommonInfParameters::read(r)?)
        } else {
            None
        };
        Ok(
            HrdParametersCommonInf {
                nal_hrd_parameters_present_flag,
                vcl_hrd_parameters_present_flag,
                parameters,
            },
        )
    }
}

/// Decoding-unit level CPB and bit-rate values of one sub-layer entry.
#[derive(Clone, Copy, Debug, PartialEq, Eq)]
pub struct SubLayerSubPicHrdParams {
    pub cpb_size_du_value_minus1: u32,
    pub bit_rate_du_value_minus1: u32,
}

/// One CPB entry of a sub-layer: bit rate, CPB size, optional
/// decoding-unit values, and the constant-bit-rate flag.
#[derive(Clone, Copy, Debug, PartialEq, Eq)]
pub struct SubLayerHrdParameters {
    pub bit_rate_value_minus1: u32,
    pub cpb_size_value_minus1: u32,
    pub sub_pic_hrd_params: Option<SubLayerSubPicHrdParams>,
    pub cbr_flag: bool,
}

/// The syntax of one sub-layer CPB entry.
#[verifier::opaque]
pub open spec fn spec_read_sub_layer_hrd(d: Seq<u8>, pos: nat, sub_pic: bool) -> Result<
    (SubLayerHrdParameters, nat),
    SpsError,
> {
    match spec_take_ue(d, pos, "bit_rate_value_minus1") {
        Err(e) => Err(e),
        Ok((br, p1)) => match spec_take_ue(d, p1, "cpb_size_value_minus1") {
            Err(e) => Err(e),
            Ok((cs, p2)) => {
                if sub_pic {
                    match spec_take_ue(d, p2, "cpb_size_du_value_minus1") {
                        Err(e) => Err(e),
                        Ok((cdu, p3)) => match spec_take_ue(d, p3, "bit_rate_du_value_minus1") {
                            Err(e) => Err(e),
                            Ok((bdu, p4)) => match spec_take_bool(d, p4, "cbr_flag") {
                                Err(e) => Err(e),
                                Ok((cbr, p5)) => Ok(
                                    (
                                        SubLayerHrdParameters {
                                            bit_rate_value_minus1: br,
                                            cpb_size_value_minus1: cs,
                                            sub_pic_hrd_params: Some(
                                                SubLayerSubPicHrdParams {
                                                    cpb_size_du_value_minus1: cdu,
                                                    bit_rate_du_value_minus1: bdu,
                                                },
                                            ),
                                            cbr_flag: cbr,
                                        },
                                        p5,
                                    ),
                                ),
                            },
                        },
                    }
                } else {
                    match spec_take_bool(d, p2, "cbr_flag") {
                        Err(e) => Err(e),
                        Ok((cbr, p3)) => Ok(
                            (
                                SubLayerHrdParameters {
                                    bit_rate_value_minus1: br,
                                    cpb_size_value_minus1: cs,
                                    sub_pic_hrd_params: None,
                                    cbr_flag: cbr,
                                },
                                p3,
                            ),
                        ),
                    }
                }
            },
        },
    }
}

/// The parser of one sub-layer CPB entry, as a value.
pub open spec fn spec_sub_layer_hrd_one(sub_pic: bool) -> spec_fn(Seq<u8>, nat) -> Result<
    (SubLayerHrdParameters, nat),
    SpsError,
> {
    (|d: Seq<u8>, pos: nat| spec_read_sub_layer_hrd(d, pos, sub_pic))
}

/// `count` consecutive sub-layer CPB entries.
pub open spec fn spec_read_sub_layer_hrd_list(d: Seq<u8>, pos: nat, count: nat, sub_pic: bool) -> Result<
    (Seq<SubLayerHrdParameters>, nat),
    SpsError,
> {
    spec_read_list(d, pos, count, spec_sub_layer_hrd_one(sub_pic))
}

impl SubLayerHrdParameters {
    /// Parses one sub-layer CPB entry.
    pub fn read(r: &mut BitReader<'_>, sub_pic_hrd_params_present: bool) -> (res: Result<
        SubLayerHrdParameters,
        SpsError,
    >)
        requires
            old(r).wf(),
        ensures
            final(r).wf(),
            final(r).data() == old(r).data(),
            match res {
                Ok(v) => spec_read_sub_layer_hrd(
                    old(r).data(),
                    old(r).pos(),
                    sub_pic_hrd_params_present,
                ) == Ok::<(SubLayerHrdParameters, nat), SpsError>((v, final(r).pos())),
                Err(e) => spec_read_sub_layer_hrd(
                    old(r).data(),
                    old(r).pos(),
                    sub_pic_hrd_params_present,
                ) == Err::<(SubLayerHrdParameters, nat), SpsError>(e),
            },
    {
        proof {
            reveal(spec_read_sub_layer_hrd);
        }
        Ok(
            SubLayerHrdParameters {
                bit_rate_value_minus1: take_ue(r, "bit_rate_value_minus1")?,
                cpb_size_value_minus1: take_ue(r, "cpb_size_value_minus1")?,
                sub_pic_hrd_params: if sub_pic_hrd_params_present {
                    Some(
                        SubLayerSubPicHrdParams {
                            cpb_size_du_value_minus1: take_ue(r, "cpb_size_du_value_minus1")?,
                            bit_rate_du_value_minus1: take_ue(r, "bit_rate_du_value_minus1")?,
                        },
                    )
                } else {
                    None
                },
                cbr_flag: take_bool(r, "cbr_flag")?,
            },
        )
    }

    /// Parses `count` consecutive sub-layer CPB entries.
    pub fn read_list(r: &mut BitReader<'_>, count: u64, sub_pic_hrd_params_present: bool) -> (res:
        Result<Vec<SubLayerHrdParameters>, SpsError>)
        requires
            old(r).wf(),
        ensures
            final(r).wf(),
            final(r).data() == old(r).data(),
            match res {
                Ok(v) => spec_read_sub_layer_hrd_list(
                    old(r).data(),
                    old(r).pos(),
                    count as nat,
                    sub_pic_hrd_params_present,
                ) == Ok::<(Seq<SubLayerHrdParameters>, nat), SpsError>((v@, final(r).pos())),
                Err(e) => spec_read_sub_layer_hrd_list(
                    old(r).data(),
                    old(r).pos(),
                    count as nat,
                    sub_pic_hrd_params_present,
                ) == Err::<(Seq<SubLayerHrdParameters>, nat), SpsError>(e),
            },
    {
        let ghost d = old(r).data();
        let ghost pos0 = old(r).pos();
        let ghost one = spec_sub_layer_hrd_one(sub_pic_hrd_params_present);
        let sub_pic = sub_pic_hrd_params_present;
        let mut v: Vec<SubLayerHrdParameters> = Vec::new();
        let mut i: u64 = 0;
        while i < count
            invariant
                r.wf(),
                r.data() == d,
                d == old(r).data(),
                pos0 == old(r).pos(),
                one == spec_sub_layer_hrd_one(sub_pic),
                sub_pic == sub_pic_hrd_params_present,
                i <= count,
                spec_read_list(d, pos0, i as nat, one) == Ok::<
                    (Seq<SubLayerHrdParameters>, nat),
                    SpsError,
                >((v@, r.pos())),
            decreases count - i,
        {
            let ghost vg = v@;
            let ghost p = r.pos();
            let x = match Self::read(r, sub_pic) {
                Ok(x) => x,
                Err(e) => {
                    proof {
                        lemma_read_list_error(d, pos0, i as nat, count as nat, one, vg, p, e);
                    }
                    return Err(e);
                },
            };
            proof {
                lemma_read_list_extend(d, pos0, i as nat, one, vg, p, x, r.pos());
            }
            v.push(x);
            i = i + 1;
        }
        Ok(v)
    }
}

/// Per-sub-layer HRD syntax: picture-rate flags, CPB count, and the NAL and
/// VCL CPB entry lists.
#[derive(Clone, Debug, PartialEq, Eq)]
pub struct SubLayerHrdParametersContainer {
    pub fixed_pic_rate_general_flag: bool,
    /// Meaningful only when `fixed_pic_rate_general_flag` is not set; a set
    /// general flag implies it.
    pub fixed_pic_rate_within_cvs_flag: bool,
    /// Meaningful only when `fixed_pic_rate_within_cvs_flag` is set.
    pub elemental_duration_in_tc_minus1: u32,
    /// Meaningful only when `fixed_pic_rate_within_cvs_flag` is not set.
    pub low_delay_hrd_flag: bool,
    /// Meaningful only when `low_delay_hrd_flag` is not set.
    pub cpb_cnt_minus1: u32,
    pub nal_hrd_parameters: Option<Vec<SubLayerHrdParameters>>,
    pub vcl_hrd_parameters: Option<Vec<SubLayerHrdParameters>>,
}

/// Mathematical model of a parsed sub-layer HRD container.
#[verifier::ext_equal]
pub struct SubLayerHrdParametersContainerView {
    pub fixed_pic_rate_general_flag: bool,
    pub fixed_pic_rate_within_cvs_flag: bool,
    pub elemental_duration_in_tc_minus1: u32,
    pub low_delay_hrd_flag: bool,
    pub cpb_cnt_minus1: u32,
    pub nal_hrd_parameters: Option<Seq<SubLayerHrdParameters>>,
    pub vcl_hrd_parameters: Option<Seq<SubLayerHrdParameters>>,
}

impl View for SubLayerHrdParametersContainer {
    type V = SubLayerHrdParametersContainerView;

    open spec fn view(&self) -> SubLayerHrdParametersContainerView {
        SubLayerHrdParametersContainerView {
            fixed_pic_rate_general_flag: self.fixed_pic_rate_general_flag,
            fixed_pic_rate_within_cvs_flag: self.fixed_pic_rate_within_cvs_flag,
            elemental_duration_in_tc_minus1: self.elemental_duration_in_tc_minus1,
            low_delay_hrd_flag: self.low_delay_hrd_flag,
            cpb_cnt_minus1: self.cpb_cnt_minus1,
            nal_hrd_parameters: match self.nal_hrd_parameters {
                Some(v) => Some(v@),
                None => None,
            },
            vcl_hrd_parameters: match self.vcl_hrd_parameters {
                Some(v) => Some(v@),
                None => None,
            },
        }
    }
}

/// The sub-layer HRD container syntax: the fixed-picture-rate flag pair (a
/// set general flag implies the within-CVS flag without a bit), an elemental
/// duration or a low-delay flag, a CPB count unless low delay, then a CPB
/// entry list for each HRD kind that the common info declared present.
#[verifier::opaque]
pub open spec fn spec_read_sub_layer_hrd_container(
    d: Seq<u8>,
    pos: nat,
    nal_present: bool,
    vcl_present: bool,
    sub_pic: bool,
) -> Result<(SubLayerHrdParametersContainerView, nat), SpsError> {
    match spec_take_bool(d, pos, "fixed_pic_rate_general_flag") {
        Err(e) => Err(e),
        Ok((fprg, p0)) => {
            let step_cvs = if !fprg {
                spec_take_bool(d, p0, "fixed_pic_rate_within_cvs_flag")
            } else {
                Ok((true, p0))
            };
            match step_cvs {
                Err(e) => Err(e),
                Ok((fprc, p1)) => {
                    let step_dur = if fprc {
                        match spec_take_ue(d, p1, "elemental_duration_in_tc_minus1") {
                            Err(e) => Err(e),
                            Ok((ed, p2)) => Ok(((ed, false), p2)),
                        }
                    } else {
                        match spec_take_bool(d, p1, "low_delay_hrd_flag") {
                            Err(e) => Err(e),
                            Ok((ld, p2)) => Ok(((0u32, ld), p2)),
                        }
                    };
                    match step_dur {
                        Err(e) => Err(e),
                        Ok(((ed, ld), p2)) => {
                            let step_cpb = if !ld {
                                spec_take_ue(d, p2, "cpb_cnt_minus1")
                            } else {
                                Ok((0u32, p2))
                            };
                            match step_cpb {
                                Err(e) => Err(e),
                                Ok((cpb, p3)) => {
                                    let step_nal = if nal_present {
                                        match spec_read_sub_layer_hrd_list(
                                            d,
                                            p3,
                                            (cpb + 1) as nat,
                                            sub_pic,
                                        ) {
                                            Err(e) => Err(e),
                                            Ok((sn, p4)) => Ok((Some(sn), p4)),
                                        }
                                    } else {
                                        Ok((None, p3))
                                    };
                                    match step_nal {
                                        Err(e) => Err(e),
                                        Ok((nal_list, p4)) => {
                                            let step_vcl = if vcl_present {
                                                match spec_read_sub_layer_hrd_list(
                                                    d,
                                                    p4,
                                                    (cpb + 1) as nat,
                                                    sub_pic,
                                                ) {
                                                    Err(e) => Err(e),
                                                    Ok((sv, p5)) => Ok((Some(sv), p5)),
                                                }
                                            } else {
                                                Ok((None, p4))
                                            };
                                            match step_vcl {
                                                Err(e) => Err(e),
                                                Ok((vcl_list, p5)) => Ok(
                                                    (
                                                        SubLayerHrdParametersContainerView {
                                                            fixed_pic_rate_general_flag: fprg,
                                                            fixed_pic_rate_within_cvs_flag: fprc,
                                                            elemental_duration_in_tc_minus1: ed,
                                                            low_delay_hrd_flag: ld,
                                                            cpb_cnt_minus1: cpb,
                                                            nal_hrd_parameters: nal_list,
                                                            vcl_hrd_parameters: vcl_list,
                                                        },
                                                        p5,
                                                    ),
                                                ),
                                            }
                                        },
                                    }
                                },
                            }
                        },
                    }
                },
            }
        },
    }
}

impl SubLayerHrdParametersContainer {
    /// Parses one sub-layer HRD container.
    pub fn read(
        r: &mut BitReader<'_>,
        nal_hrd_parameters_present: bool,
        vcl_hrd_parameters_present: bool,
        sub_pic_hrd_parameters_present: bool,
    ) -> (res: Result<SubLayerHrdParametersContainer, SpsError>)
        requires
            old(r).wf(),
        ensures
            final(r).wf(),
            final(r).data() == old(r).data(),
            match res {
                Ok(v) => spec_read_sub_layer_hrd_container(
                    old(r).data(),
                    old(r).pos(),
                    nal_hrd_parameters_present,
                    vcl_hrd_parameters_present,
                    sub_pic_hrd_parameters_present,
                ) == Ok::<(SubLayerHrdParametersContainerView, nat), SpsError>(
                    (v@, final(r).pos()),
                ),
                Err(e) => spec_read_sub_layer_hrd_container(
                    old(r).data(),
                    old(r).pos(),
                    nal_hrd_parameters_present,
                    vcl_hrd_parameters_present,
                    sub_pic_hrd_parameters_present,
                ) == Err::<(SubLayerHrdParametersContainerView, nat), SpsError>(e),
            },
    {
        proof {
            reveal(spec_read_sub_layer_hrd_container);
        }
        let fixed_pic_rate_general_flag = take_bool(r, "fixed_pic_rate_general_flag")?;
        let fixed_pic_rate_within_cvs_flag = if !fixed_pic_rate_general_flag {
            take_bool(r, "fixed_pic_rate_within_cvs_flag")?
        } else {
            true
        };
        let elemental_duration_in_tc_minus1: u32;
        let low_delay_hrd_flag: bool;
        if fixed_pic_rate_within_cvs_flag {
            elemental_duration_in_tc_minus1 = take_ue(r, "elemental_duration_in_tc_minus1")?;
            low_delay_hrd_flag = false;
        } else {
            elemental_duration_in_tc_minus1 = 0;
            low_delay_hrd_flag = take_bool(r, "low_delay_hrd_flag")?;
        }
        let cpb_cnt_minus1 = if !low_delay_hrd_flag {
            take_ue(r, "cpb_cnt_minus1")?
        } else {
            0
        };
        let count: u64 = cpb_cnt_minus1 as u64 + 1;
        let nal_hrd_parameters = if nal_hrd_parameters_present {
            Some(
                SubLayerHrdParameters::read_list(r, count, sub_pic_hrd_parameters_present)?,
            )
        } else {
            None
        };
        let vcl_hrd_parameters = if vcl_hrd_parameters_present {
            Some(
                SubLayerHrdParameters::read_list(r, count, sub_pic_hrd_parameters_present)?,
            )
        } else {
            None
        };
        Ok(
            SubLayerHrdParametersContainer {
                fixed_pic_rate_general_flag,
                fixed_pic_rate_within_cvs_flag,
                elemental_duration_in_tc_minus1,
                low_delay_hrd_flag,
                cpb_cnt_minus1,
                nal_hrd_parameters,
                vcl_hrd_parameters,
            },
        )
    }
}

/// Hypothetical reference decoder parameters: the optional common info plus
/// one container per sub-layer.
#[derive(Clone, Debug, PartialEq, Eq)]
pub struct HrdParameters {
    pub common: Option<HrdParametersCommonInf>,
    pub sub_layers: Vec<SubLayerHrdParametersContainer>,
}

/// Mathematical model of parsed HRD parameters.
#[verifier::ext_equal]
pub struct HrdParametersView {
    pub common: Option<HrdParametersCommonInf>,
    pub sub_layers: Seq<SubLayerHrdParametersContainerView>,
}

impl View for HrdParameters {
    type V = HrdParametersView;

    open spec fn view(&self) -> HrdParametersView {
        HrdParametersView {
            common: self.common,
            sub_layers: views_of_containers(self.sub_layers@),
        }
    }
}

/// The views of a sequence of sub-layer HRD containers.
pub open spec fn views_of_containers(v: Seq<SubLayerHrdParametersContainer>) -> Seq<
    SubLayerHrdParametersContainerView,
> {
    v.map_values(|c: SubLayerHrdParametersContainer| c@)
}

/// The view of an optional HRD parameters value.
pub open spec fn view_of_hrd(h: Option<HrdParameters>) -> Option<HrdParametersView> {
    match h {
        Some(v) => Some(v@),
        None => None,
    }
}

/// The parser of one sub-layer HRD container, as a value.
pub open spec fn spec_hrd_container_one(nal: bool, vcl: bool, sub_pic: bool) -> spec_fn(
    Seq<u8>,
    nat,
) -> Result<(SubLayerHrdParametersContainerView, nat), SpsError> {
    (|d: Seq<u8>, pos: nat| spec_read_sub_layer_hrd_container(d, pos, nal, vcl, sub_pic))
}

/// Whether the common info declares NAL HRD parameters present.
pub open spec fn spec_hrd_nal_present(common: Option<HrdParametersCommonInf>) -> bool {
    match common {
        Some(c) => c.nal_hrd_parameters_present_flag,
        None => false,
    }
}

/// Whether the common info declares VCL HRD parameters present.
pub open spec fn spec_hrd_vcl_present(common: Option<HrdParametersCommonInf>) -> bool {
    match common {
        Some(c) => c.vcl_hrd_parameters_present_flag,
        None => false,
    }
}

/// Whether the common info carries sub-picture HRD parameters.
pub open spec fn spec_hrd_sub_pic_present(common: Option<HrdParametersCommonInf>) -> bool {
    match common {
        Some(c) => match c.parameters {
            Some(p) => p.sub_pic_hrd_params is Some,
            None => false,
        },
        None => false,
    }
}

/// The HRD parameters syntax: a presence flag; when present, the common
/// info (only when the caller asked for it), then one container per
/// sub-layer, their inner lists gated by what the common info declared.
#[verifier::opaque]
pub open spec fn spec_read_hrd_parameters(
    d: Seq<u8>,
    pos: nat,
    common_inf_present: bool,
    max_sub_layers_minus1: u8,
) -> Result<(Option<HrdParametersView>, nat), SpsError> {
    match spec_take_bool(d, pos, "hrd_parameters_present_flag") {
        Err(e) => Err(e),
        Ok((present, p0)) => {
            if !present {
                Ok((None, p0))
            } else {
                let step_common = if common_inf_present {
                    match spec_read_hrd_common_inf(d, p0) {
                        Err(e) => Err(e),
                        Ok((c, p1)) => Ok((Some(c), p1)),
                    }
                } else {
                    Ok((None, p0))
                };
                match step_common {
                    Err(e) => Err(e),
                    Ok((common, p1)) => {
                        match spec_read_list(
                            d,
                            p1,
                            (max_sub_layers_minus1 + 1) as nat,
                            spec_hrd_container_one(
                                spec_hrd_nal_present(common),
                                spec_hrd_vcl_present(common),
                                spec_hrd_sub_pic_present(common),
                            ),
                        ) {
                            Err(e) => Err(e),
                            Ok((subs, p2)) => Ok(
                                (Some(HrdParametersView { common, sub_layers: subs }), p2),
                            ),
                        }
                    },
                }
            }
        },
    }
}

/// Parses `count` consecutive sub-layer HRD containers.
#[verifier::spinoff_prover]
fn read_container_list(
    r: &mut BitReader<'_>,
    count: u64,
    nal_present: bool,
    vcl_present: bool,
    sub_pic: bool,
) -> (res: Result<Vec<SubLayerHrdParametersContainer>, SpsError>)
    requires
        old(r).wf(),
    ensures
        final(r).wf(),
        final(r).data() == old(r).data(),
        match res {
            Ok(v) => spec_read_list(
                old(r).data(),
                old(r).pos(),
                count as nat,
                spec_hrd_container_one(nal_present, vcl_present, sub_pic),
            ) == Ok::<(Seq<SubLayerHrdParametersContainerView>, nat), SpsError>(
                (views_of_containers(v@), final(r).pos()),
            ),
            Err(e) => spec_read_list(
                old(r).data(),
                old(r).pos(),
                count as nat,
                spec_hrd_container_one(nal_present, vcl_present, sub_pic),
            ) == Err::<(Seq<SubLayerHrdParametersContainerView>, nat), SpsError>(e),
        },
{
    let ghost d = old(r).data();
    let ghost pos0 = old(r).pos();
    let ghost one = spec_hrd_container_one(nal_present, vcl_present, sub_pic);
    let mut v: Vec<SubLayerHrdParametersContainer> = Vec::new();
    let mut i: u64 = 0;
    proof {
        assert(views_of_containers(v@) =~= Seq::<SubLayerHrdParametersContainerView>::empty());
    }
    while i < count
        invariant
            r.wf(),
            r.data() == d,
            d == old(r).data(),
            pos0 == old(r).pos(),
            one == spec_hrd_container_one(nal_present, vcl_present, sub_pic),
            i <= count,
            spec_read_list(d, pos0, i as nat, one) == Ok::<
                (Seq<SubLayerHrdParametersContainerView>, nat),
                SpsError,
            >((views_of_containers(v@), r.pos())),
        decreases count - i,
    {
        let ghost vg = views_of_containers(v@);
        let ghost p = r.pos();
        let c = match SubLayerHrdParametersContainer::read(r, nal_present, vcl_present, sub_pic) {
            Ok(c) => c,
            Err(e) => {
                proof {
                    lemma_read_list_error(d, pos0, i as nat, count as nat, one, vg, p, e);
                }
                return Err(e);
            },
        };
        proof {
            lemma_read_list_extend(d, pos0, i as nat, one, vg, p, c@, r.pos());
        }
        v.push(c);
        i = i + 1;
        proof {
            assert(views_of_containers(v@) =~= vg.push(c@));
        }
    }
    Ok(v)
}

impl HrdParameters {
    /// Parses the optional HRD parameters.
    pub fn read(
        r: &mut BitReader<'_>,
        common_inf_present_flag: bool,
        max_num_sub_layers_minus1: u8,
    ) -> (res: Result<Option<HrdParameters>, SpsError>)
        requires
            old(r).wf(),
        ensures
            final(r).wf(),
            final(r).data() == old(r).data(),
            match res {
                Ok(v) => spec_read_hrd_parameters(
                    old(r).data(),
                    old(r).pos(),
                    common_inf_present_flag,
                    max_num_sub_layers_minus1,
                ) == Ok::<(Option<HrdParametersView>, nat), SpsError>(
                    (view_of_hrd(v), final(r).pos()),
                ),
                Err(e) => spec_read_hrd_parameters(
                    old(r).data(),
                    old(r).pos(),
                    common_inf_present_flag,
                    max_num_sub_layers_minus1,
                ) == Err::<(Option<HrdParametersView>, nat), SpsError>(e),
            },
    {
        proof {
            reveal(spec_read_hrd_parameters);
        }
        let present = take_bool(r, "hrd_parameters_present_flag")?;
        if !present {
            return Ok(None);
        }
        let common = if common_inf_present_flag {
            Some(HrdParametersCommonInf::read(r)?)
        } else {
            None
        };
        let nal_hrd_params = match &common {
            Some(c) => c.nal_hrd_parameters_present_flag,
            None => false,
        };
        let vcl_hrd_params = match &common {
            Some(c) => c.vcl_hrd_parameters_present_flag,
            None => false,
        };
        let sub_pic_hrd_params = match &common {
            Some(c) => match &c.parameters {
                Some(p) => p.sub_pic_hrd_params.is_some(),
                None => false,
            },
            None => false,
        };
        proof {
            assert(nal_hrd_params == spec_hrd_nal_present(common));
            assert(vcl_hrd_params == spec_hrd_vcl_present(common));
            assert(sub_pic_hrd_params == spec_hrd_sub_pic_present(common));
        }
        let count: u64 = max_num_sub_layers_minus1 as u64 + 1;
        let sub_layers = read_container_list(
            r,
            count,
            nal_hrd_params,
            vcl_hrd_params,
            sub_pic_hrd_params,
        )?;
        Ok(Some(HrdParameters { common, sub_layers }))
    }
}

/// Frame timing: tick rate, optional proportional-to-POC tick count, and
/// nested HRD parameters.
#[derive(Clone, Debug, PartialEq, Eq)]
pub struct TimingInfo {
    pub num_units_in_tick: u32,
    pub time_scale: u32,
    pub num_ticks_poc_diff_one_minus1: Option<u32>,
    pub hrd_parameters: Option<HrdParameters>,
}

/// Mathematical model of parsed timing info.
#[verifier::ext_equal]
pub struct TimingInfoView {
    pub num_units_in_tick: u32,
    pub time_scale: u32,
    pub num_ticks_poc_diff_one_minus1: Option<u32>,
    pub hrd_parameters: Option<HrdParametersView>,
}

impl View for TimingInfo {
    type V = TimingInfoView;

    open spec fn view(&self) -> TimingInfoView {
        TimingInfoView {
            num_units_in_tick: self.num_units_in_tick,
            time_scale: self.time_scale,
            num_ticks_poc_diff_one_minus1: self.num_ticks_poc_diff_one_minus1,
            hrd_parameters: view_of_hrd(self.hrd_parameters),
        }
    }
}

/// The view of an optional timing info value.
pub open spec fn view_of_timing(t: Option<TimingInfo>) -> Option<TimingInfoView> {
    match t {
        Some(v) => Some(v@),
        None => None,
    }
}

/// The proportional-timing syntax: a flag, then a tick count when set.
#[verifier::opaque]
pub open spec fn spec_read_num_ticks(d: Seq<u8>, pos: nat) -> Result<(Option<u32>, nat), SpsError> {
    match spec_take_bool(d, pos, "vui_poc_proportional_timing_flag") {
        Err(e) => Err(e),
        Ok((flag, p0)) => {
            if flag {
                match spec_take_ue(d, p0, "vui_num_ticks_poc_diff_one_minus1") {
                    Err(e) => Err(e),
                    Ok((n, p1)) => Ok((Some(n), p1)),
                }
            } else {
                Ok((None, p0))
            }
        },
    }
}

/// The timing info syntax: a presence flag; when present, two 32-bit tick
/// fields, the proportional-timing option, and nested HRD parameters.
#[verifier::opaque]
pub open spec fn spec_read_timing_info(
    d: Seq<u8>,
    pos: nat,
    hrd_common_inf_present: bool,
    max_sub_layers_minus1: u8,
) -> Result<(Option<TimingInfoView>, nat), SpsError> {
    match spec_take_bool(d, pos, "timing_info_present_flag") {
        Err(e) => Err(e),
        Ok((present, p0)) => {
            if !present {
                Ok((None, p0))
            } else {
                match spec_take_u32(d, p0, 32, "num_units_in_tick") {
                    Err(e) => Err(e),
                    Ok((nu, p1)) => match spec_take_u32(d, p1, 32, "time_scale") {
                        Err(e) => Err(e),
                        Ok((ts, p2)) => match spec_read_num_ticks(d, p2) {
                            Err(e) => Err(e),
                            Ok((ticks, p3)) => match spec_read_hrd_parameters(
                                d,
                                p3,
                                hrd_common_inf_present,
                                max_sub_layers_minus1,
                            ) {
                                Err(e) => Err(e),
                                Ok((hrd, p4)) => Ok(
                                    (
                                        Some(
                                            TimingInfoView {
                                                num_units_in_tick: nu,
                                                time_scale: ts,
                                                num_ticks_poc_diff_one_minus1: ticks,
                                                hrd_parameters: hrd,
                                            },
                                        ),
                                        p4,
                                    ),
                                ),
                            },
                        },
                    },
                }
            }
        },
    }
}

impl TimingInfo {
    /// Parses the proportional-timing option.
    pub fn read_num_ticks(r: &mut BitReader<'_>) -> (res: Result<Option<u32>, SpsError>)
        requires
            old(r).wf(),
        ensures
            final(r).wf(),
            final(r).data() == old(r).data(),
            match res {
                Ok(v) => spec_read_num_ticks(old(r).data(), old(r).pos()) == Ok::<
                    (Option<u32>, nat),
                    SpsError,
                >((v, final(r).pos())),
                Err(e) => spec_read_num_ticks(old(r).data(), old(r).pos()) == Err::<
                    (Option<u32>, nat),
                    SpsError,
                >(e),
            },
    {
        proof {
            reveal(spec_read_num_ticks);
        }
        if take_bool(r, "vui_poc_proportional_timing_flag")? {
            Ok(Some(take_ue(r, "vui_num_ticks_poc_diff_one_minus1")?))
        } else {
            Ok(None)
        }
    }

    /// Parses the optional timing info.
    pub fn read(
        r: &mut BitReader<'_>,
        hrd_common_inf_present: bool,
        max_sub_layers_minus1: u8,
    ) -> (res: Result<Option<TimingInfo>, SpsError>)
        requires
            old(r).wf(),
        ensures
            final(r).wf(),
            final(r).data() == old(r).data(),
            match res {
                Ok(v) => spec_read_timing_info(
                    old(r).data(),
                    old(r).pos(),
                    hrd_common_inf_present,
                    max_sub_layers_minus1,
                ) == Ok::<(Option<TimingInfoView>, nat), SpsError>(
                    (view_of_timing(v), final(r).pos()),
                ),
                Err(e) => spec_read_timing_info(
                    old(r).data(),
                    old(r).pos(),
                    hrd_common_inf_present,
                    max_sub_layers_minus1,
                ) == Err::<(Option<TimingInfoView>, nat), SpsError>(e),
            },
    {
        proof {
            reveal(spec_read_timing_info);
        }
        if take_bool(r, "timing_info_present_flag")? {
            Ok(
                Some(
                    TimingInfo {
                        num_units_in_tick: take_u32(r, 32, "num_units_in_tick")?,
                        time_scale: take_u32(r, 32, "time_scale")?,
                        num_ticks_poc_diff_one_minus1: Self::read_num_ticks(r)?,
                        hrd_parameters: HrdParameters::read(
                            r,
                            hrd_common_inf_present,
                            max_sub_layers_minus1,
                        )?,
                    },
                ),
            )
        } else {
            Ok(None)
        }
    }
}

/// Video usability information: display and timing metadata embedded in an
/// SPS.
#[derive(Clone, Debug, PartialEq, Eq)]
pub struct VuiParameters {
    pub aspect_ratio_info: Option<AspectRatioInfo>,
    pub overscan_appropriate: OverscanAppropriate,
    pub video_signal_type: Option<VideoSignalType>,
    pub chroma_loc_info: Option<ChromaLocInfo>,
    pub neutral_chroma_indication_flag: bool,
    pub field_seq_flag: bool,
    pub frame_field_info_present_flag: bool,
    pub default_display_window: Option<Window>,
    pub timing_info: Option<TimingInfo>,
    pub bitstream_restrictions: Option<BitstreamRestrictions>,
}

/// Mathematical model of parsed VUI parameters.
#[verifier::ext_equal]
pub struct VuiParametersView {
    pub aspect_ratio_info: Option<AspectRatioInfo>,
    pub overscan_appropriate: OverscanAppropriate,
    pub video_signal_type: Option<VideoSignalType>,
    pub chroma_loc_info: Option<ChromaLocInfo>,
    pub neutral_chroma_indication_flag: bool,
    pub field_seq_flag: bool,
    pub frame_field_info_present_flag: bool,
    pub default_display_window: Option<Window>,
    pub timing_info: Option<TimingInfoView>,
    pub bitstream_restrictions: Option<BitstreamRestrictions>,
}

impl View for VuiParameters {
    type V = VuiParametersView;

    open spec fn view(&self) -> VuiParametersView {
        VuiParametersView {
            aspect_ratio_info: self.aspect_ratio_info,
            overscan_appropriate: self.overscan_appropriate,
            video_signal_type: self.video_signal_type,
            chroma_loc_info: self.chroma_loc_info,
            neutral_chroma_indication_flag: self.neutral_chroma_indication_flag,
            field_seq_flag: self.field_seq_flag,
            frame_field_info_present_flag: self.frame_field_info_present_flag,
            default_display_window: self.default_display_window,
            timing_info: view_of_timing(self.timing_info),
            bitstream_restrictions: self.bitstream_restrictions,
        }
    }
}

/// The view of an optional VUI parameters value.
pub open spec fn view_of_vui(v: Option<VuiParameters>) -> Option<VuiParametersView> {
    match v {
        Some(x) => Some(x@),
        None => None,
    }
}

/// The VUI body: aspect ratio, overscan, video signal type, chroma
/// locations, three flags, the default display window, timing info, and
/// bitstream restrictions, in bitstream order.
#[verifier::opaque]
pub open spec fn spec_read_vui_one(
    d: Seq<u8>,
    pos: nat,
    hrd_common_inf_present: bool,
    max_sub_layers_minus1: u8,
) -> Result<(VuiParametersView, nat), SpsError> {
    match spec_read_aspect_ratio_info(d, pos) {
        Err(e) => Err(e),
        Ok((ar, p1)) => match spec_read_overscan(d, p1) {
            Err(e) => Err(e),
            Ok((ov, p2)) => match spec_read_video_signal_type(d, p2) {
                Err(e) => Err(e),
                Ok((vst, p3)) => match spec_read_chroma_loc_info(d, p3) {
                    Err(e) => Err(e),
                    Ok((cl, p4)) => match spec_take_bool(d, p4, "neutral_chroma_indication_flag") {
                        Err(e) => Err(e),
                        Ok((nc, p5)) => match spec_take_bool(d, p5, "field_seq_flag") {
                            Err(e) => Err(e),
                            Ok((fs, p6)) => match spec_take_bool(
                                d,
                                p6,
                                "frame_field_info_present_flag",
                            ) {
                                Err(e) => Err(e),
                                Ok((ff, p7)) => match spec_read_window(d, p7) {
                                    Err(e) => Err(e),
                                    Ok((w, p8)) => match spec_read_timing_info(
                                        d,
                                        p8,
                                        hrd_common_inf_present,
                                        max_sub_layers_minus1,
                                    ) {
                                        Err(e) => Err(e),
                                        Ok((ti, p9)) => match spec_read_bitstream_restrictions(
                                            d,
                                            p9,
                                        ) {
                                            Err(e) => Err(e),
                                            Ok((br, p10)) => Ok(
                                                (
                                                    VuiParametersView {
                                                        aspect_ratio_info: ar,
                                                        overscan_appropriate: ov,
                                                        video_signal_type: vst,
                                                        chroma_loc_info: cl,
                                                        neutral_chroma_indication_flag: nc,
                                                        field_seq_flag: fs,
                                                        frame_field_info_present_flag: ff,
                                                        default_display_window: w,
                                                        timing_info: ti,
                                                        bitstream_restrictions: br,
                                                    },
                                                    p10,
                                                ),
                                            ),
                                        },
                                    },
                                },
                            },
                        },
                    },
                },
            },
        },
    }
}

/// The VUI syntax: a presence flag, then the body when present.
#[verifier::opaque]
pub open spec fn spec_read_vui(
    d: Seq<u8>,
    pos: nat,
    hrd_common_inf_present: bool,
    max_sub_layers_minus1: u8,
) -> Result<(Option<VuiParametersView>, nat), SpsError> {
    match spec_take_bool(d, pos, "vui_parameters_present") {
        Err(e) => Err(e),
        Ok((present, p0)) => {
            if !present {
                Ok((None, p0))
            } else {
                match spec_read_vui_one(d, p0, hrd_common_inf_present, max_sub_layers_minus1) {
                    Err(e) => Err(e),
                    Ok((v, p1)) => Ok((Some(v), p1)),
                }
            }
        },
    }
}

impl VuiParameters {
    /// Parses the VUI body.
    pub fn read_one(
        r: &mut BitReader<'_>,
        hrd_common_inf_present: bool,
        max_sub_layers_minus1: u8,
    ) -> (res: Result<VuiParameters, SpsError>)
        requires
            old(r).wf(),
        ensures
            final(r).wf(),
            final(r).data() == old(r).data(),
            match res {
                Ok(v) => spec_read_vui_one(
                    old(r).data(),
                    old(r).pos(),
                    hrd_common_inf_present,
                    max_sub_layers_minus1,
                ) == Ok::<(VuiParametersView, nat), SpsError>((v@, final(r).pos())),
                Err(e) => spec_read_vui_one(
                    old(r).data(),
                    old(r).pos(),
                    hrd_common_inf_present,
                    max_sub_layers_minus1,
                ) == Err::<(VuiParametersView, nat), SpsError>(e),
            },
    {
        proof {
            reveal(spec_read_vui_one);
        }
        Ok(
            VuiParameters {
                aspect_ratio_info: AspectRatioInfo::read(r)?,
                overscan_appropriate: OverscanAppropriate::read(r)?,
                video_signal_type: VideoSignalType::read(r)?,
                chroma_loc_info: ChromaLocInfo::read(r)?,
                neutral_chroma_indication_flag: take_bool(r, "neutral_chroma_indication_flag")?,
                field_seq_flag: take_bool(r, "field_seq_flag")?,
                frame_field_info_present_flag: take_bool(r, "frame_field_info_present_flag")?,
                default_display_window: Window::read(r)?,
                timing_info: TimingInfo::read(r, hrd_common_inf_present, max_sub_layers_minus1)?,
                bitstream_restrictions: BitstreamRestrictions::read(r)?,
            },
        )
    }

    /// Parses the optional VUI parameters.
    pub fn read(
        r: &mut BitReader<'_>,
        hrd_common_inf_present: bool,
        max_sub_layers_minus1: u8,
    ) -> (res: Result<Option<VuiParameters>, SpsError>)
        requires
            old(r).wf(),
        ensures
            final(r).wf(),
            final(r).data() == old(r).data(),
            match res {
                Ok(v) => spec_read_vui(
                    old(r).data(),
                    old(r).pos(),
                    hrd_common_inf_present,
                    max_sub_layers_minus1,
                ) == Ok::<(Option<VuiParametersView>, nat), SpsError>(
                    (view_of_vui(v), final(r).pos()),
                ),
                Err(e) => spec_read_vui(
                    old(r).data(),
                    old(r).pos(),
                    hrd_common_inf_present,
                    max_sub_layers_minus1,
                ) == Err::<(Option<VuiParametersView>, nat), SpsError>(e),
            },
    {
        proof {
            reveal(spec_read_vui);
        }
        if take_bool(r, "vui_parameters_present")? {
            Ok(Some(Self::read_one(r, hrd_common_inf_present, max_sub_layers_minus1)?))
        } else {
            Ok(None)
        }
    }
}

} // verus!
