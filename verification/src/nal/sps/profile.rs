//! Profile, tier and level syntax: the general layer profile with its
//! constraint-flag blocks, per-sub-layer profiles and levels, and the
//! classification of a raw flag vector into a named profile.

use vstd::prelude::*;

verus! {

use crate::nal::sps::SpsError;
use crate::nal::sps::spec_take_bool;
use crate::nal::sps::spec_take_u8;
use crate::nal::sps::spec_take_u32;
use crate::nal::sps::spec_read_list;
use crate::nal::sps::spec_validate_max_sub_layers;
use crate::nal::sps::lemma_read_list_extend;
use crate::nal::sps::lemma_read_list_error;
use crate::nal::sps::take_bool;
use crate::nal::sps::take_u8;
use crate::nal::sps::take_u32;
use crate::nal::sps::validate_max_sub_layers;
use crate::rbsp::BitReader;

/// The general tier: the two-valued quality/complexity axis of a level.
#[derive(Clone, Copy, Debug, PartialEq, Eq)]
pub enum Tier {
    Main,
    High,
}

/// The tier a tier flag denotes.
pub open spec fn spec_tier(flag: bool) -> Tier {
    if flag {
        Tier::High
    } else {
        Tier::Main
    }
}

impl Tier {
    /// Decodes the tier flag: set means `High`.
    pub fn from_tier_flag(flag: bool) -> (res: Tier)
        ensures
            res == spec_tier(flag),
    {
        match flag {
            false => Tier::Main,
            true => Tier::High,
        }
    }
}

/// A named profile, classified from the raw profile-idc and constraint-flag
/// vector; combinations outside the documented tables are `Unknown`.
#[derive(Clone, Copy, Debug, PartialEq, Eq)]
pub enum Profile {
    Unknown(u8),
    Main,
    Main10,
    Main10StillPicture,
    MainStillPicture,
    Monochrome,
    Monochrome10,
    Monochrome12,
    Monochrome16,
    Main12,
    Main422_10,
    Main422_12,
    Main444,
    Main444_10,
    Main444_12,
    MainIntra,
    Main10Intra,
    Main12Intra,
    Main422_10Intra,
    Main422_12Intra,
    Main444Intra,
    Main444_10Intra,
    Main444_12Intra,
    Main444_16Intra,
    Main444StillPicture,
    Main444_16StillPicture,
    HighThroughput444,
    HighThroughput444_10,
    HighThroughput444_14,
    HighThroughput444_16Intra,
    ScreenExtendedMain,
    ScreenExtendedMain10,
    ScreenExtendedMain444,
    ScreenExtendedMain444_10,
    ScreenExtendedHighThroughput444,
    ScreenExtendedHighThroughput444_10,
    ScreenExtendedHighThroughput444_14,
    ScalableMain,
    ScalableMain10,
    ScalableMonochrome,
    ScalableMonochrome12,
    ScalableMonochrome16,
    ScalableMain444,
    MultiviewMain,
    ThreeDeeMain,
}

/// A coded level, from the 8-bit level idc (which carries 30 times the
/// level number).
#[derive(Clone, Copy, Debug, PartialEq, Eq)]
pub enum Level {
    L1,
    L2,
    L2_1,
    L3,
    L3_1,
    L4,
    L4_1,
    L5,
    L5_1,
    L5_2,
    L6,
    L6_1,
    L6_2,
    L8_5,
    /// A level idc outside the documented table; carries the raw idc.
    Reserved(u8),
}

/// The level an 8-bit level idc denotes.
pub open spec fn spec_level_from_idc(idc: u8) -> Level {
    if idc == 30 {
        Level::L1
    } else if idc == 60 {
        Level::L2
    } else if idc == 63 {
        Level::L2_1
    } else if idc == 90 {
        Level::L3
    } else if idc == 93 {
        Level::L3_1
    } else if idc == 120 {
        Level::L4
    } else if idc == 123 {
        Level::L4_1
    } else if idc == 150 {
        Level::L5
    } else if idc == 153 {
        Level::L5_1
    } else if idc == 156 {
        Level::L5_2
    } else if idc == 180 {
        Level::L6
    } else if idc == 183 {
        Level::L6_1
    } else if idc == 186 {
        Level::L6_2
    } else if idc == 255 {
        Level::L8_5
    } else {
        Level::Reserved(idc)
    }
}

impl Level {
    /// Decodes a level idc; undocumented values map to `Reserved`.
    pub fn from_level_idc(level_idc: u8) -> (res: Level)
        ensures
            res == spec_level_from_idc(level_idc),
    {
        match level_idc {
            30 => Level::L1,
            60 => Level::L2,
            63 => Level::L2_1,
            90 => Level::L3,
            93 => Level::L3_1,
            120 => Level::L4,
            123 => Level::L4_1,
            150 => Level::L5,
            153 => Level::L5_1,
            156 => Level::L5_2,
            180 => Level::L6,
            183 => Level::L6_1,
            186 => Level::L6_2,
            255 => Level::L8_5,
            n => Level::Reserved(n),
        }
    }
}

/// One layer's profile: space, tier, idc, the 32 compatibility flags, the
/// source-format flags, and the idc-conditional constraint flags.
#[derive(Clone, Debug, PartialEq, Eq)]
pub struct LayerProfile {
    pub profile_space: u8,
    pub tier_flag: bool,
    pub profile_idc: u8,
    pub profile_compatibility_flag: Vec<bool>,
    pub progressive_source_flag: bool,
    pub interlaced_source_flag: bool,
    pub non_packed_constraint_flag: bool,
    pub frame_only_constraint_flag: bool,
    pub max_14bit_constraint_flag: bool,
    pub max_12bit_constraint_flag: bool,
    pub max_10bit_constraint_flag: bool,
    pub max_8bit_constraint_flag: bool,
    pub max_422chroma_constraint_flag: bool,
    pub max_420chroma_constraint_flag: bool,
    pub max_monochrome_constraint_flag: bool,
    pub intra_constraint_flag: bool,
    pub one_picture_only_constraint_flag: bool,
    pub lower_bit_rate_constraint_flag: bool,
    pub inbld_flag: bool,
}

/// Mathematical model of a parsed layer profile.
#[verifier::ext_equal]
pub struct LayerProfileView {
    pub profile_space: u8,
    pub tier_flag: bool,
    pub profile_idc: u8,
    pub profile_compatibility_flag: Seq<bool>,
    pub progressive_source_flag: bool,
    pub interlaced_source_flag: bool,
    pub non_packed_constraint_flag: bool,
    pub frame_only_constraint_flag: bool,
    pub max_14bit_constraint_flag: bool,
    pub max_12bit_constraint_flag: bool,
    pub max_10bit_constraint_flag: bool,
    pub max_8bit_constraint_flag: bool,
    pub max_422chroma_constraint_flag: bool,
    pub max_420chroma_constraint_flag: bool,
    pub max_monochrome_constraint_flag: bool,
    pub intra_constraint_flag: bool,
    pub one_picture_only_constraint_flag: bool,
    pub lower_bit_rate_constraint_flag: bool,
    pub inbld_flag: bool,
}

impl View for LayerProfile {
    type V = LayerProfileView;

    open spec fn view(&self) -> LayerProfileView {
        LayerProfileView {
            profile_space: self.profile_space,
            tier_flag: self.tier_flag,
            profile_idc: self.profile_idc,
            profile_compatibility_flag: self.profile_compatibility_flag@,
            progressive_source_flag: self.progressive_source_flag,
            interlaced_source_flag: self.interlaced_source_flag,
            non_packed_constraint_flag: self.non_packed_constraint_flag,
            frame_only_constraint_flag: self.frame_only_constraint_flag,
            max_14bit_constraint_flag: self.max_14bit_constraint_flag,
            max_12bit_constraint_flag: self.max_12bit_constraint_flag,
            max_10bit_constraint_flag: self.max_10bit_constraint_flag,
            max_8bit_constraint_flag: self.max_8bit_constraint_flag,
            max_422chroma_constraint_flag: self.max_422chroma_constraint_flag,
            max_420chroma_constraint_flag: self.max_420chroma_constraint_flag,
            max_monochrome_constraint_flag: self.max_monochrome_constraint_flag,
            intra_constraint_flag: self.intra_constraint_flag,
            one_picture_only_constraint_flag: self.one_picture_only_constraint_flag,
            lower_bit_rate_constraint_flag: self.lower_bit_rate_constraint_flag,
            inbld_flag: self.inbld_flag,
        }
    }
}

impl LayerProfile {
    /// The compatibility-flag vector carries one flag per profile-idc value.
    pub open spec fn wf(self) -> bool {
        self.profile_compatibility_flag@.len() == 32
    }
}

/// The parser of one compatibility flag, as a value.
pub open spec fn spec_compat_one() -> spec_fn(Seq<u8>, nat) -> Result<(bool, nat), SpsError> {
    (|d: Seq<u8>, pos: nat| spec_take_bool(d, pos, "profile_compatibility_flag[j]"))
}

/// Whether the idc/compatibility combination selects the format-range
/// constraint-flag block (profile-idc 4 to 11).
pub open spec fn spec_rext_block(idc: u8, compat: Seq<bool>) -> bool
    recommends
        compat.len() == 32,
{
    idc == 4 || compat[4] || idc == 5 || compat[5] || idc == 6 || compat[6] || idc == 7 || compat[7]
        || idc == 8 || compat[8] || idc == 9 || compat[9] || idc == 10 || compat[10] || idc == 11
        || compat[11]
}

/// Whether the combination additionally carries the `max_14bit` flag
/// (profile-idc 5, 9, 10 or 11).
pub open spec fn spec_ht_block(idc: u8, compat: Seq<bool>) -> bool
    recommends
        compat.len() == 32,
{
    idc == 5 || compat[5] || idc == 9 || compat[9] || idc == 10 || compat[10] || idc == 11
        || compat[11]
}

/// Whether the combination carries the `inbld` flag (profile-idc 1 to 5, 9
/// or 11).
pub open spec fn spec_inbld_block(idc: u8, compat: Seq<bool>) -> bool
    recommends
        compat.len() == 32,
{
    idc == 1 || compat[1] || idc == 2 || compat[2] || idc == 3 || compat[3] || idc == 4 || compat[4]
        || idc == 5 || compat[5] || idc == 9 || compat[9] || idc == 11 || compat[11]
}

/// The closing bit of a layer profile: the `inbld` flag when the
/// combination carries one, else a reserved bit (read and discarded, with
/// `inbld` defaulting to unset).
pub open spec fn spec_read_lp_inbld(d: Seq<u8>, pos: nat, idc: u8, compat: Seq<bool>) -> Result<
    (bool, nat),
    SpsError,
> {
    if spec_inbld_block(idc, compat) {
        spec_take_bool(d, pos, "inbld_flag")
    } else {
        match spec_take_bool(d, pos, "reserved_zero_bit") {
            Err(e) => Err(e),
            Ok((_, p)) => Ok((false, p)),
        }
    }
}

/// The nine constraint flags of the format-range block, in bitstream
/// order.
#[verifier::opaque]
pub open spec fn spec_read_constraint9(d: Seq<u8>, pos: nat) -> Result<
    ((bool, bool, bool, bool, bool, bool, bool, bool, bool), nat),
    SpsError,
> {
    match spec_take_bool(d, pos, "max_12bit_constraint_flag") {
        Err(e) => Err(e),
        Ok((m12, p1)) => match spec_take_bool(d, p1, "max_10bit_constraint_flag") {
            Err(e) => Err(e),
            Ok((m10, p2)) => match spec_take_bool(d, p2, "max_8bit_constraint_flag") {
                Err(e) => Err(e),
                Ok((m8, p3)) => match spec_take_bool(d, p3, "max_422chroma_constraint_flag") {
                    Err(e) => Err(e),
                    Ok((c422, p4)) => match spec_take_bool(d, p4, "max_420chroma_constraint_flag") {
                        Err(e) => Err(e),
                        Ok((c420, p5)) => match spec_take_bool(
                            d,
                            p5,
                            "max_monochrome_constraint_flag",
                        ) {
                            Err(e) => Err(e),
                            Ok((mono, p6)) => match spec_take_bool(d, p6, "intra_constraint_flag") {
                                Err(e) => Err(e),
                                Ok((intra, p7)) => match spec_take_bool(
                                    d,
                                    p7,
                                    "one_picture_only_constraint_flag",
                                ) {
                                    Err(e) => Err(e),
                                    Ok((opo, p8)) => match spec_take_bool(
                                        d,
                                        p8,
                                        "lower_bit_rate_constraint_flag",
                                    ) {
                                        Err(e) => Err(e),
                                        Ok((lbr, p9)) => Ok(
                                            ((m12, m10, m8, c422, c420, mono, intra, opo, lbr), p9),
                                        ),
                                    },
                                },
                            },
                        },
                    },
                },
            },
        },
    }
}

/// The high-throughput step of the format-range block: the `max_14bit`
/// flag plus 33 reserved bits when the combination carries it, else 34
/// reserved bits and an unset flag.
pub open spec fn spec_read_lp_ht(d: Seq<u8>, pos: nat, idc: u8, compat: Seq<bool>) -> Result<
    (bool, nat),
    SpsError,
> {
    if spec_ht_block(idc, compat) {
        match spec_take_bool(d, pos, "max_14bit_constraint_flag") {
            Err(e) => Err(e),
            Ok((m14, pa)) => match spec_take_u32(d, pa, 32, "reserved_zero_33bits") {
                Err(e) => Err(e),
                Ok((_, pb)) => match spec_take_u32(d, pb, 1, "reserved_zero_33bits") {
                    Err(e) => Err(e),
                    Ok((_, pc)) => Ok((m14, pc)),
                },
            },
        }
    } else {
        match spec_take_u32(d, pos, 32, "reserved_zero_34bits") {
            Err(e) => Err(e),
            Ok((_, pb)) => match spec_take_u32(d, pb, 2, "reserved_zero_34bits") {
                Err(e) => Err(e),
                Ok((_, pc)) => Ok((false, pc)),
            },
        }
    }
}

/// The format-range constraint block (profile-idc 4 to 11): nine constraint
/// flags, the high-throughput step, then the closing bit.
#[verifier::opaque]
pub open spec fn spec_read_lp_rext(
    d: Seq<u8>,
    pos: nat,
    space: u8,
    tier: bool,
    idc: u8,
    compat: Seq<bool>,
    progressive: bool,
    interlaced: bool,
    non_packed: bool,
    frame_only: bool,
) -> Result<(LayerProfileView, nat), SpsError> {
    match spec_read_constraint9(d, pos) {
        Err(e) => Err(e),
        Ok(((m12, m10, m8, c422, c420, mono, intra, opo, lbr), p9)) => match spec_read_lp_ht(
            d,
            p9,
            idc,
            compat,
        ) {
            Err(e) => Err(e),
            Ok((m14, pd)) => match spec_read_lp_inbld(d, pd, idc, compat) {
                Err(e) => Err(e),
                Ok((inbld, pe)) => Ok(
                    (
                        LayerProfileView {
                            profile_space: space,
                            tier_flag: tier,
                            profile_idc: idc,
                            profile_compatibility_flag: compat,
                            progressive_source_flag: progressive,
                            interlaced_source_flag: interlaced,
                            non_packed_constraint_flag: non_packed,
                            frame_only_constraint_flag: frame_only,
                            max_14bit_constraint_flag: m14,
                            max_12bit_constraint_flag: m12,
                            max_10bit_constraint_flag: m10,
                            max_8bit_constraint_flag: m8,
                            max_422chroma_constraint_flag: c422,
                            max_420chroma_constraint_flag: c420,
                            max_monochrome_constraint_flag: mono,
                            intra_constraint_flag: intra,
                            one_picture_only_constraint_flag: opo,
                            lower_bit_rate_constraint_flag: lbr,
                            inbld_flag: inbld,
                        },
                        pe,
                    ),
                ),
            },
        },
    }
}

/// The constraint block of profile-idc 2: reserved bits around the
/// one-picture-only flag, then the closing bit.
#[verifier::opaque]
pub open spec fn spec_read_lp_main2(
    d: Seq<u8>,
    pos: nat,
    space: u8,
    tier: bool,
    idc: u8,
    compat: Seq<bool>,
    progressive: bool,
    interlaced: bool,
    non_packed: bool,
    frame_only: bool,
) -> Result<(LayerProfileView, nat), SpsError> {
    match spec_take_u8(d, pos, 7, "reserved_zero_7bits") {
        Err(e) => Err(e),
        Ok((_, p1)) => match spec_take_bool(d, p1, "one_picture_only_constraint_flag") {
            Err(e) => Err(e),
            Ok((opo, p2)) => match spec_take_u32(d, p2, 32, "reserved_zero_35bits") {
                Err(e) => Err(e),
                Ok((_, p3)) => match spec_take_u32(d, p3, 3, "reserved_zero_35bits") {
                    Err(e) => Err(e),
                    Ok((_, p4)) => match spec_read_lp_inbld(d, p4, idc, compat) {
                        Err(e) => Err(e),
                        Ok((inbld, p5)) => Ok(
                            (
                                LayerProfileView {
                                    profile_space: space,
                                    tier_flag: tier,
                                    profile_idc: idc,
                                    profile_compatibility_flag: compat,
                                    progressive_source_flag: progressive,
                                    interlaced_source_flag: interlaced,
                                    non_packed_constraint_flag: non_packed,
                                    frame_only_constraint_flag: frame_only,
                                    max_14bit_constraint_flag: false,
                                    max_12bit_constraint_flag: false,
                                    max_10bit_constraint_flag: false,
                                    max_8bit_constraint_flag: false,
                                    max_422chroma_constraint_flag: false,
                                    max_420chroma_constraint_flag: false,
                                    max_monochrome_constraint_flag: false,
                                    intra_constraint_flag: false,
                                    one_picture_only_constraint_flag: opo,
                                    lower_bit_rate_constraint_flag: false,
                                    inbld_flag: inbld,
                                },
                                p5,
                            ),
                        ),
                    },
                },
            },
        },
    }
}

/// The constraint block of every other profile-idc: reserved bits only,
/// then the closing bit.
#[verifier::opaque]
pub open spec fn spec_read_lp_other(
    d: Seq<u8>,
    pos: nat,
    space: u8,
    tier: bool,
    idc: u8,
    compat: Seq<bool>,
    progressive: bool,
    interlaced: bool,
    non_packed: bool,
    frame_only: bool,
) -> Result<(LayerProfileView, nat), SpsError> {
    match spec_take_u32(d, pos, 32, "reserved_zero_43bits") {
        Err(e) => Err(e),
        Ok((_, p1)) => match spec_take_u32(d, p1, 11, "reserved_zero_43bits") {
            Err(e) => Err(e),
            Ok((_, p2)) => match spec_read_lp_inbld(d, p2, idc, compat) {
                Err(e) => Err(e),
                Ok((inbld, p3)) => Ok(
                    (
                        LayerProfileView {
                            profile_space: space,
                            tier_flag: tier,
                            profile_idc: idc,
                            profile_compatibility_flag: compat,
                            progressive_source_flag: progressive,
                            interlaced_source_flag: interlaced,
                            non_packed_constraint_flag: non_packed,
                            frame_only_constraint_flag: frame_only,
                            max_14bit_constraint_flag: false,
                            max_12bit_constraint_flag: false,
                            max_10bit_constraint_flag: false,
                            max_8bit_constraint_flag: false,
                            max_422chroma_constraint_flag: false,
                            max_420chroma_constraint_flag: false,
                            max_monochrome_constraint_flag: false,
                            intra_constraint_flag: false,
                            one_picture_only_constraint_flag: false,
                            lower_bit_rate_constraint_flag: false,
                            inbld_flag: inbld,
                        },
                        p3,
                    ),
                ),
            },
        },
    }
}

/// The constraint-flag portion of a layer profile: one of three blocks
/// selected by the idc/compatibility combination.
#[verifier::opaque]
pub open spec fn spec_read_lp_tail(
    d: Seq<u8>,
    pos: nat,
    space: u8,
    tier: bool,
    idc: u8,
    compat: Seq<bool>,
    progressive: bool,
    interlaced: bool,
    non_packed: bool,
    frame_only: bool,
) -> Result<(LayerProfileView, nat), SpsError> {
    if spec_rext_block(idc, compat) {
        spec_read_lp_rext(d, pos, space, tier, idc, compat, progressive, interlaced, non_packed, frame_only)
    } else if idc == 2 || compat[2] {
        spec_read_lp_main2(d, pos, space, tier, idc, compat, progressive, interlaced, non_packed, frame_only)
    } else {
        spec_read_lp_other(d, pos, space, tier, idc, compat, progressive, interlaced, non_packed, frame_only)
    }
}

/// The layer profile syntax: 2-bit space, tier flag, 5-bit idc, 32
/// compatibility flags, four source-format flags, then the
/// idc-conditional constraint blocks.
#[verifier::opaque]
pub open spec fn spec_read_layer_profile(d: Seq<u8>, pos: nat) -> Result<
    (LayerProfileView, nat),
    SpsError,
> {
    match spec_take_u8(d, pos, 2, "profile_space") {
        Err(e) => Err(e),
        Ok((space, p1)) => match spec_take_bool(d, p1, "tier_flag") {
            Err(e) => Err(e),
            Ok((tier, p2)) => match spec_take_u8(d, p2, 5, "profile_idc") {
                Err(e) => Err(e),
                Ok((idc, p3)) => match spec_read_list(d, p3, 32, spec_compat_one()) {
                    Err(e) => Err(e),
                    Ok((compat, p4)) => match spec_take_bool(d, p4, "progressive_source_flag") {
                        Err(e) => Err(e),
                        Ok((prog, p5)) => match spec_take_bool(d, p5, "interlaced_source_flag") {
                            Err(e) => Err(e),
                            Ok((inter, p6)) => match spec_take_bool(
                                d,
                                p6,
                                "non_packed_constraint_flag",
                            ) {
                                Err(e) => Err(e),
                                Ok((np, p7)) => match spec_take_bool(
                                    d,
                                    p7,
                                    "frame_only_constraint_flag",
                                ) {
                                    Err(e) => Err(e),
                                    Ok((fo, p8)) => spec_read_lp_tail(
                                        d,
                                        p8,
                                        space,
                                        tier,
                                        idc,
                                        compat,
                                        prog,
                                        inter,
                                        np,
                                        fo,
                                    ),
                                },
                            },
                        },
                    },
                },
            },
        },
    }
}

/// Parses the 32 profile compatibility flags.
fn read_compat_flags(r: &mut BitReader<'_>) -> (res: Result<Vec<bool>, SpsError>)
    requires
        old(r).wf(),
    ensures
        final(r).wf(),
        final(r).data() == old(r).data(),
        match res {
            Ok(v) => spec_read_list(old(r).data(), old(r).pos(), 32, spec_compat_one()) == Ok::<
                (Seq<bool>, nat),
                SpsError,
            >((v@, final(r).pos())) && v@.len() == 32,
            Err(e) => spec_read_list(old(r).data(), old(r).pos(), 32, spec_compat_one()) == Err::<
                (Seq<bool>, nat),
                SpsError,
            >(e),
        },
{
    let ghost d = old(r).data();
    let ghost pos0 = old(r).pos();
    let ghost one = spec_compat_one();
    let mut v: Vec<bool> = Vec::new();
    let mut i: u64 = 0;
    while i < 32
        invariant
            r.wf(),
            r.data() == d,
            d == old(r).data(),
            pos0 == old(r).pos(),
            one == spec_compat_one(),
            i <= 32,
            v@.len() == i as nat,
            spec_read_list(d, pos0, i as nat, one) == Ok::<(Seq<bool>, nat), SpsError>(
                (v@, r.pos()),
            ),
        decreases 32 - i,
    {
        let ghost vg = v@;
        let ghost p = r.pos();
        let b = match take_bool(r, "profile_compatibility_flag[j]") {
            Ok(b) => b,
            Err(e) => {
                proof {
                    lemma_read_list_error(d, pos0, i as nat, 32, one, vg, p, e);
                }
                return Err(e);
            },
        };
        proof {
            lemma_read_list_extend(d, pos0, i as nat, one, vg, p, b, r.pos());
        }
        v.push(b);
        i = i + 1;
    }
    Ok(v)
}

impl LayerProfile {
    /// Parses a layer profile.
    pub fn read(r: &mut BitReader<'_>) -> (res: Result<LayerProfile, SpsError>)
        requires
            old(r).wf(),
        ensures
            final(r).wf(),
            final(r).data() == old(r).data(),
            match res {
                Ok(v) => spec_read_layer_profile(old(r).data(), old(r).pos()) == Ok::<
                    (LayerProfileView, nat),
                    SpsError,
                >((v@, final(r).pos())) && v.wf(),
                Err(e) => spec_read_layer_profile(old(r).data(), old(r).pos()) == Err::<
                    (LayerProfileView, nat),
                    SpsError,
                >(e),
            },
    {
        proof {
            reveal(spec_read_layer_profile);
        }
        let profile_space = take_u8(r, 2, "profile_space")?;
        let tier_flag = take_bool(r, "tier_flag")?;
        let profile_idc = take_u8(r, 5, "profile_idc")?;
        let flags = read_compat_flags(r)?;
        let profile = LayerProfile {
            profile_space,
            tier_flag,
            profile_idc,
            profile_compatibility_flag: flags,
            progressive_source_flag: take_bool(r, "progressive_source_flag")?,
            interlaced_source_flag: take_bool(r, "interlaced_source_flag")?,
            non_packed_constraint_flag: take_bool(r, "non_packed_constraint_flag")?,
            frame_only_constraint_flag: take_bool(r, "frame_only_constraint_flag")?,
            max_14bit_constraint_flag: false,
            max_12bit_constraint_flag: false,
            max_10bit_constraint_flag: false,
            max_8bit_constraint_flag: false,
            max_422chroma_constraint_flag: false,
            max_420chroma_constraint_flag: false,
            max_monochrome_constraint_flag: false,
            intra_constraint_flag: false,
            one_picture_only_constraint_flag: false,
            lower_bit_rate_constraint_flag: false,
            inbld_flag: false,
        };
        read_constraint_blocks(r, profile)
    }

    /// The general tier this profile declares.    /// The general tier this profile declares.
    pub fn tier(&self) -> (res: Tier)
        ensures
            res == spec_tier(self.tier_flag),
    {
        Tier::from_tier_flag(self.tier_flag)
    }

    /// Classifies the raw idc and constraint-flag vector into the "lowest"
    /// compatible named profile; combinations outside the documented tables
    /// yield `Unknown`, never an error.
    pub fn profile(&self) -> (res: Profile)
        requires
            self.wf(),
        ensures
            res == spec_profile(self@),
    {
        let compat = &self.profile_compatibility_flag;
        if self.profile_idc == 1 || compat[1] {
            Profile::Main
        } else if self.profile_idc == 2 || compat[2] {
            if self.one_picture_only_constraint_flag {
                Profile::Main10StillPicture
            } else {
                Profile::Main10
            }
        } else if self.profile_idc == 3 || compat[3] {
            Profile::MainStillPicture
        } else if self.profile_idc == 4 || compat[4] {
            match (
                self.max_12bit_constraint_flag,
                self.max_10bit_constraint_flag,
                self.max_8bit_constraint_flag,
                self.max_422chroma_constraint_flag,
                self.max_420chroma_constraint_flag,
                self.max_monochrome_constraint_flag,
                self.intra_constraint_flag,
                self.one_picture_only_constraint_flag,
                self.lower_bit_rate_constraint_flag,
            ) {
                (true, true, true, true, true, true, false, false, true) => Profile::Monochrome,
                (true, true, false, true, true, true, false, false, true) => Profile::Monochrome10,
                (true, false, false, true, true, true, false, false, true) => Profile::Monochrome12,
                (false, false, false, true, true, true, false, false, true) => Profile::Monochrome16,
                (true, false, false, true, true, false, false, false, true) => Profile::Main12,
                (true, true, false, true, false, false, false, false, true) => Profile::Main422_10,
                (true, false, false, true, false, false, false, false, true) => Profile::Main422_12,
                (true, true, true, false, false, false, false, false, true) => Profile::Main444,
                (true, true, false, false, false, false, false, false, true) => Profile::Main444_10,
                (true, false, false, false, false, false, false, false, true) => Profile::Main444_12,
                (true, true, true, true, true, false, true, false, _) => Profile::MainIntra,
                (true, true, false, true, true, false, true, false, _) => Profile::Main10Intra,
                (true, false, false, true, true, false, true, false, _) => Profile::Main12Intra,
                (true, true, false, true, false, false, true, false, _) => Profile::Main422_10Intra,
                (true, false, false, true, false, false, true, false, _) => Profile::Main422_12Intra,
                (true, true, true, false, false, false, true, false, _) => Profile::Main444Intra,
                (true, true, false, false, false, false, true, false, _) => Profile::Main444_10Intra,
                (true, false, false, false, false, false, true, false, _) => Profile::Main444_12Intra,
                (false, false, false, false, false, false, true, false, _) => Profile::Main444_16Intra,
                (true, true, true, false, false, false, true, true, _) => Profile::Main444StillPicture,
                (false, false, false, false, false, false, true, true, _) => Profile::Main444_16StillPicture,
                _ => Profile::Unknown(self.profile_idc),
            }
        } else if self.profile_idc == 5 || compat[5] {
            match (
                self.max_14bit_constraint_flag,
                self.max_12bit_constraint_flag,
                self.max_10bit_constraint_flag,
                self.max_8bit_constraint_flag,
                self.max_422chroma_constraint_flag,
                self.max_420chroma_constraint_flag,
                self.max_monochrome_constraint_flag,
                self.intra_constraint_flag,
                self.one_picture_only_constraint_flag,
                self.lower_bit_rate_constraint_flag,
            ) {
                (true, true, true, true, false, false, false, false, false, true) => Profile::HighThroughput444,
                (true, true, true, false, false, false, false, false, false, true) => Profile::HighThroughput444_10,
                (true, false, false, false, false, false, false, false, false, true) => Profile::HighThroughput444_14,
                (false, false, false, false, false, false, false, true, false, _) => Profile::HighThroughput444_16Intra,
                _ => Profile::Unknown(self.profile_idc),
            }
        } else if self.profile_idc == 6 || compat[6] {
            match (
                self.max_12bit_constraint_flag,
                self.max_10bit_constraint_flag,
                self.max_8bit_constraint_flag,
                self.max_422chroma_constraint_flag,
                self.max_420chroma_constraint_flag,
                self.max_monochrome_constraint_flag,
                self.intra_constraint_flag,
                self.one_picture_only_constraint_flag,
                self.lower_bit_rate_constraint_flag,
            ) {
                (true, true, true, true, true, false, false, false, true) => Profile::MultiviewMain,
                _ => Profile::Unknown(self.profile_idc),
            }
        } else if self.profile_idc == 7 || compat[7] {
            match (
                self.max_12bit_constraint_flag,
                self.max_10bit_constraint_flag,
                self.max_8bit_constraint_flag,
                self.max_422chroma_constraint_flag,
                self.max_420chroma_constraint_flag,
                self.max_monochrome_constraint_flag,
                self.intra_constraint_flag,
                self.one_picture_only_constraint_flag,
                self.lower_bit_rate_constraint_flag,
            ) {
                (true, true, true, true, true, false, false, false, true) => Profile::ScalableMain,
                (true, true, false, true, true, false, false, false, true) => Profile::ScalableMain10,
                _ => Profile::Unknown(self.profile_idc),
            }
        } else if self.profile_idc == 8 || compat[8] {
            match (
                self.max_12bit_constraint_flag,
                self.max_10bit_constraint_flag,
                self.max_8bit_constraint_flag,
                self.max_422chroma_constraint_flag,
                self.max_420chroma_constraint_flag,
                self.max_monochrome_constraint_flag,
                self.intra_constraint_flag,
                self.one_picture_only_constraint_flag,
                self.lower_bit_rate_constraint_flag,
            ) {
                (true, true, true, true, true, false, false, false, true) => Profile::ThreeDeeMain,
                _ => Profile::Unknown(self.profile_idc),
            }
        } else if self.profile_idc == 9 || compat[9] {
            match (
                self.max_14bit_constraint_flag,
                self.max_12bit_constraint_flag,
                self.max_10bit_constraint_flag,
                self.max_8bit_constraint_flag,
                self.max_422chroma_constraint_flag,
                self.max_420chroma_constraint_flag,
                self.max_monochrome_constraint_flag,
                self.intra_constraint_flag,
                self.one_picture_only_constraint_flag,
                self.lower_bit_rate_constraint_flag,
            ) {
                (true, true, true, true, true, true, false, false, false, true) => Profile::ScreenExtendedMain,
                (true, true, true, false, true, true, false, false, false, true) => Profile::ScreenExtendedMain10,
                (true, true, true, true, false, false, false, false, false, true) => Profile::ScreenExtendedMain444,
                (true, true, true, false, false, false, false, false, false, true) => Profile::ScreenExtendedMain444_10,
                _ => Profile::Unknown(self.profile_idc),
            }
        } else if self.profile_idc == 10 || compat[10] {
            match (
                self.max_14bit_constraint_flag,
                self.max_12bit_constraint_flag,
                self.max_10bit_constraint_flag,
                self.max_8bit_constraint_flag,
                self.max_422chroma_constraint_flag,
                self.max_420chroma_constraint_flag,
                self.max_monochrome_constraint_flag,
                self.intra_constraint_flag,
                self.one_picture_only_constraint_flag,
                self.lower_bit_rate_constraint_flag,
            ) {
                (true, true, true, true, true, true, true, false, false, true) => Profile::ScalableMonochrome,
                (true, true, false, false, true, true, true, false, false, true) => Profile::ScalableMonochrome12,
                (false, false, false, false, true, true, true, false, false, true) => Profile::ScalableMonochrome16,
                (true, true, true, true, false, false, false, false, false, true) => Profile::ScalableMain444,
                _ => Profile::Unknown(self.profile_idc),
            }
        } else if self.profile_idc == 11 || compat[11] {
            match (
                self.max_14bit_constraint_flag,
                self.max_12bit_constraint_flag,
                self.max_10bit_constraint_flag,
                self.max_8bit_constraint_flag,
                self.max_422chroma_constraint_flag,
                self.max_420chroma_constraint_flag,
                self.max_monochrome_constraint_flag,
                self.intra_constraint_flag,
                self.one_picture_only_constraint_flag,
                self.lower_bit_rate_constraint_flag,
            ) {
                (true, true, true, true, false, false, false, false, false, true) => Profile::ScreenExtendedHighThroughput444,
                (true, true, true, false, false, false, false, false, false, true) => Profile::ScreenExtendedHighThroughput444_10,
                (true, false, false, false, false, false, false, false, false, true) => Profile::ScreenExtendedHighThroughput444_14,
                _ => Profile::Unknown(self.profile_idc),
            }
        } else {
            Profile::Unknown(self.profile_idc)
        }
    }
}

/// Parses the closing bit of a layer profile.
fn read_inbld(r: &mut BitReader<'_>, idc: u8, compat: &Vec<bool>) -> (res: Result<bool, SpsError>)
    requires
        old(r).wf(),
        compat@.len() == 32,
    ensures
        final(r).wf(),
        final(r).data() == old(r).data(),
        match res {
            Ok(b) => spec_read_lp_inbld(old(r).data(), old(r).pos(), idc, compat@) == Ok::<
                (bool, nat),
                SpsError,
            >((b, final(r).pos())),
            Err(e) => spec_read_lp_inbld(old(r).data(), old(r).pos(), idc, compat@) == Err::<
                (bool, nat),
                SpsError,
            >(e),
        },
{
    if idc == 1 || compat[1] || idc == 2 || compat[2] || idc == 3 || compat[3] || idc == 4
        || compat[4] || idc == 5 || compat[5] || idc == 9 || compat[9] || idc == 11 || compat[11] {
        take_bool(r, "inbld_flag")
    } else {
        let _ = take_bool(r, "reserved_zero_bit")?;
        Ok(false)
    }
}

/// Parses the nine constraint flags of the format-range block.
fn read_constraint9(r: &mut BitReader<'_>) -> (res: Result<
    (bool, bool, bool, bool, bool, bool, bool, bool, bool),
    SpsError,
>)
    requires
        old(r).wf(),
    ensures
        final(r).wf(),
        final(r).data() == old(r).data(),
        match res {
            Ok(v) => spec_read_constraint9(old(r).data(), old(r).pos()) == Ok::<
                ((bool, bool, bool, bool, bool, bool, bool, bool, bool), nat),
                SpsError,
            >((v, final(r).pos())),
            Err(e) => spec_read_constraint9(old(r).data(), old(r).pos()) == Err::<
                ((bool, bool, bool, bool, bool, bool, bool, bool, bool), nat),
                SpsError,
            >(e),
        },
{
    proof {
        reveal(spec_read_constraint9);
    }
    let m12 = take_bool(r, "max_12bit_constraint_flag")?;
    let m10 = take_bool(r, "max_10bit_constraint_flag")?;
    let m8 = take_bool(r, "max_8bit_constraint_flag")?;
    let c422 = take_bool(r, "max_422chroma_constraint_flag")?;
    let c420 = take_bool(r, "max_420chroma_constraint_flag")?;
    let mono = take_bool(r, "max_monochrome_constraint_flag")?;
    let intra = take_bool(r, "intra_constraint_flag")?;
    let opo = take_bool(r, "one_picture_only_constraint_flag")?;
    let lbr = take_bool(r, "lower_bit_rate_constraint_flag")?;
    Ok((m12, m10, m8, c422, c420, mono, intra, opo, lbr))
}

/// Parses the high-throughput step of the format-range block.
fn read_lp_ht(r: &mut BitReader<'_>, idc: u8, compat: &Vec<bool>) -> (res: Result<bool, SpsError>)
    requires
        old(r).wf(),
        compat@.len() == 32,
    ensures
        final(r).wf(),
        final(r).data() == old(r).data(),
        match res {
            Ok(b) => spec_read_lp_ht(old(r).data(), old(r).pos(), idc, compat@) == Ok::<
                (bool, nat),
                SpsError,
            >((b, final(r).pos())),
            Err(e) => spec_read_lp_ht(old(r).data(), old(r).pos(), idc, compat@) == Err::<
                (bool, nat),
                SpsError,
            >(e),
        },
{
    if idc == 5 || compat[5] || idc == 9 || compat[9] || idc == 10 || compat[10] || idc == 11
        || compat[11] {
        let m14 = take_bool(r, "max_14bit_constraint_flag")?;
        let _ = take_u32(r, 32, "reserved_zero_33bits")?;
        let _ = take_u32(r, 1, "reserved_zero_33bits")?;
        Ok(m14)
    } else {
        let _ = take_u32(r, 32, "reserved_zero_34bits")?;
        let _ = take_u32(r, 2, "reserved_zero_34bits")?;
        Ok(false)
    }
}

/// Parses the format-range constraint block into a layer profile whose
/// leading fields are already set.
#[verifier::spinoff_prover]
#[verifier::rlimit(100)]
fn read_rext_block(r: &mut BitReader<'_>, profile: LayerProfile) -> (res: Result<
    LayerProfile,
    SpsError,
>)
    requires
        old(r).wf(),
        profile.wf(),
        spec_rext_block(profile.profile_idc, profile.profile_compatibility_flag@),
    ensures
        final(r).wf(),
        final(r).data() == old(r).data(),
        match res {
            Ok(v) => spec_read_lp_rext(
                old(r).data(),
                old(r).pos(),
                profile.profile_space,
                profile.tier_flag,
                profile.profile_idc,
                profile.profile_compatibility_flag@,
                profile.progressive_source_flag,
                profile.interlaced_source_flag,
                profile.non_packed_constraint_flag,
                profile.frame_only_constraint_flag,
            ) == Ok::<(LayerProfileView, nat), SpsError>((v@, final(r).pos())) && v.wf(),
            Err(e) => spec_read_lp_rext(
                old(r).data(),
                old(r).pos(),
                profile.profile_space,
                profile.tier_flag,
                profile.profile_idc,
                profile.profile_compatibility_flag@,
                profile.progressive_source_flag,
                profile.interlaced_source_flag,
                profile.non_packed_constraint_flag,
                profile.frame_only_constraint_flag,
            ) == Err::<(LayerProfileView, nat), SpsError>(e),
        },
{
    proof {
        reveal(spec_read_lp_rext);
    }
    let (m12, m10, m8, c422, c420, mono, intra, opo, lbr) = read_constraint9(r)?;
    let m14 = read_lp_ht(r, profile.profile_idc, &profile.profile_compatibility_flag)?;
    let inbld = read_inbld(r, profile.profile_idc, &profile.profile_compatibility_flag)?;
    Ok(
        LayerProfile {
            max_14bit_constraint_flag: m14,
            max_12bit_constraint_flag: m12,
            max_10bit_constraint_flag: m10,
            max_8bit_constraint_flag: m8,
            max_422chroma_constraint_flag: c422,
            max_420chroma_constraint_flag: c420,
            max_monochrome_constraint_flag: mono,
            intra_constraint_flag: intra,
            one_picture_only_constraint_flag: opo,
            lower_bit_rate_constraint_flag: lbr,
            inbld_flag: inbld,
            ..profile
        },
    )
}

/// Parses the profile-idc 2 constraint block into a layer profile whose
/// leading fields are already set.
#[verifier::spinoff_prover]
fn read_main2_block(r: &mut BitReader<'_>, profile: LayerProfile) -> (res: Result<
    LayerProfile,
    SpsError,
>)
    requires
        old(r).wf(),
        profile.wf(),
        !profile.max_14bit_constraint_flag,
        !profile.max_12bit_constraint_flag,
        !profile.max_10bit_constraint_flag,
        !profile.max_8bit_constraint_flag,
        !profile.max_422chroma_constraint_flag,
        !profile.max_420chroma_constraint_flag,
        !profile.max_monochrome_constraint_flag,
        !profile.intra_constraint_flag,
        !profile.lower_bit_rate_constraint_flag,
    ensures
        final(r).wf(),
        final(r).data() == old(r).data(),
        match res {
            Ok(v) => spec_read_lp_main2(
                old(r).data(),
                old(r).pos(),
                profile.profile_space,
                profile.tier_flag,
                profile.profile_idc,
                profile.profile_compatibility_flag@,
                profile.progressive_source_flag,
                profile.interlaced_source_flag,
                profile.non_packed_constraint_flag,
                profile.frame_only_constraint_flag,
            ) == Ok::<(LayerProfileView, nat), SpsError>((v@, final(r).pos())) && v.wf(),
            Err(e) => spec_read_lp_main2(
                old(r).data(),
                old(r).pos(),
                profile.profile_space,
                profile.tier_flag,
                profile.profile_idc,
                profile.profile_compatibility_flag@,
                profile.progressive_source_flag,
                profile.interlaced_source_flag,
                profile.non_packed_constraint_flag,
                profile.frame_only_constraint_flag,
            ) == Err::<(LayerProfileView, nat), SpsError>(e),
        },
{
    proof {
        reveal(spec_read_lp_main2);
    }
    let _ = take_u8(r, 7, "reserved_zero_7bits")?;
    let opo = take_bool(r, "one_picture_only_constraint_flag")?;
    let _ = take_u32(r, 32, "reserved_zero_35bits")?;
    let _ = take_u32(r, 3, "reserved_zero_35bits")?;
    let inbld = read_inbld(r, profile.profile_idc, &profile.profile_compatibility_flag)?;
    Ok(LayerProfile { one_picture_only_constraint_flag: opo, inbld_flag: inbld, ..profile })
}

/// Parses the reserved-only constraint block into a layer profile whose
/// leading fields are already set.
#[verifier::spinoff_prover]
fn read_other_block(r: &mut BitReader<'_>, profile: LayerProfile) -> (res: Result<
    LayerProfile,
    SpsError,
>)
    requires
        old(r).wf(),
        profile.wf(),
        !profile.max_14bit_constraint_flag,
        !profile.max_12bit_constraint_flag,
        !profile.max_10bit_constraint_flag,
        !profile.max_8bit_constraint_flag,
        !profile.max_422chroma_constraint_flag,
        !profile.max_420chroma_constraint_flag,
        !profile.max_monochrome_constraint_flag,
        !profile.intra_constraint_flag,
        !profile.one_picture_only_constraint_flag,
        !profile.lower_bit_rate_constraint_flag,
    ensures
        final(r).wf(),
        final(r).data() == old(r).data(),
        match res {
            Ok(v) => spec_read_lp_other(
                old(r).data(),
                old(r).pos(),
                profile.profile_space,
                profile.tier_flag,
                profile.profile_idc,
                profile.profile_compatibility_flag@,
                profile.progressive_source_flag,
                profile.interlaced_source_flag,
                profile.non_packed_constraint_flag,
                profile.frame_only_constraint_flag,
            ) == Ok::<(LayerProfileView, nat), SpsError>((v@, final(r).pos())) && v.wf(),
            Err(e) => spec_read_lp_other(
                old(r).data(),
                old(r).pos(),
                profile.profile_space,
                profile.tier_flag,
                profile.profile_idc,
                profile.profile_compatibility_flag@,
                profile.progressive_source_flag,
                profile.interlaced_source_flag,
                profile.non_packed_constraint_flag,
                profile.frame_only_constraint_flag,
            ) == Err::<(LayerProfileView, nat), SpsError>(e),
        },
{
    proof {
        reveal(spec_read_lp_other);
    }
    let _ = take_u32(r, 32, "reserved_zero_43bits")?;
    let _ = take_u32(r, 11, "reserved_zero_43bits")?;
    let inbld = read_inbld(r, profile.profile_idc, &profile.profile_compatibility_flag)?;
    Ok(LayerProfile { inbld_flag: inbld, ..profile })
}

/// Parses the idc-conditional constraint-flag blocks and the closing bit
/// into a layer profile whose leading fields are already set.
fn read_constraint_blocks(r: &mut BitReader<'_>, profile: LayerProfile) -> (res: Result<
    LayerProfile,
    SpsError,
>)
    requires
        old(r).wf(),
        profile.wf(),
        !profile.max_14bit_constraint_flag,
        !profile.max_12bit_constraint_flag,
        !profile.max_10bit_constraint_flag,
        !profile.max_8bit_constraint_flag,
        !profile.max_422chroma_constraint_flag,
        !profile.max_420chroma_constraint_flag,
        !profile.max_monochrome_constraint_flag,
        !profile.intra_constraint_flag,
        !profile.one_picture_only_constraint_flag,
        !profile.lower_bit_rate_constraint_flag,
        !profile.inbld_flag,
    ensures
        final(r).wf(),
        final(r).data() == old(r).data(),
        match res {
            Ok(v) => spec_read_lp_tail(
                old(r).data(),
                old(r).pos(),
                profile.profile_space,
                profile.tier_flag,
                profile.profile_idc,
                profile.profile_compatibility_flag@,
                profile.progressive_source_flag,
                profile.interlaced_source_flag,
                profile.non_packed_constraint_flag,
                profile.frame_only_constraint_flag,
            ) == Ok::<(LayerProfileView, nat), SpsError>((v@, final(r).pos())) && v.wf(),
            Err(e) => spec_read_lp_tail(
                old(r).data(),
                old(r).pos(),
                profile.profile_space,
                profile.tier_flag,
                profile.profile_idc,
                profile.profile_compatibility_flag@,
                profile.progressive_source_flag,
                profile.interlaced_source_flag,
                profile.non_packed_constraint_flag,
                profile.frame_only_constraint_flag,
            ) == Err::<(LayerProfileView, nat), SpsError>(e),
        },
{
    proof {
        reveal(spec_read_lp_tail);
    }
    let idc = profile.profile_idc;
    let compat = &profile.profile_compatibility_flag;
    if idc == 4 || compat[4] || idc == 5 || compat[5] || idc == 6 || compat[6] || idc == 7
        || compat[7] || idc == 8 || compat[8] || idc == 9 || compat[9] || idc == 10 || compat[10]
        || idc == 11 || compat[11] {
        read_rext_block(r, profile)
    } else if idc == 2 || compat[2] {
        read_main2_block(r, profile)
    } else {
        read_other_block(r, profile)
    }
}

/// The named profile a layer profile's idc and constraint-flag vector/// The named profile a layer profile's idc and constraint-flag vector
/// denote: the "lowest" profile-idc branch the idc or a compatibility flag
/// selects, then an exact flag-tuple match within the branch, with
/// `Unknown` for every combination outside the documented tables.
pub open spec fn spec_profile(lp: LayerProfileView) -> Profile
    recommends
        lp.profile_compatibility_flag.len() == 32,
{
    let compat = lp.profile_compatibility_flag;
    if lp.profile_idc == 1 || compat[1] {
        Profile::Main
    } else if lp.profile_idc == 2 || compat[2] {
        if lp.one_picture_only_constraint_flag {
            Profile::Main10StillPicture
        } else {
            Profile::Main10
        }
    } else if lp.profile_idc == 3 || compat[3] {
        Profile::MainStillPicture
    } else if lp.profile_idc == 4 || compat[4] {
        match (
            lp.max_12bit_constraint_flag,
            lp.max_10bit_constraint_flag,
            lp.max_8bit_constraint_flag,
            lp.max_422chroma_constraint_flag,
            lp.max_420chroma_constraint_flag,
            lp.max_monochrome_constraint_flag,
            lp.intra_constraint_flag,
            lp.one_picture_only_constraint_flag,
            lp.lower_bit_rate_constraint_flag,
        ) {
            (true, true, true, true, true, true, false, false, true) => Profile::Monochrome,
            (true, true, false, true, true, true, false, false, true) => Profile::Monochrome10,
            (true, false, false, true, true, true, false, false, true) => Profile::Monochrome12,
            (false, false, false, true, true, true, false, false, true) => Profile::Monochrome16,
            (true, false, false, true, true, false, false, false, true) => Profile::Main12,
            (true, true, false, true, false, false, false, false, true) => Profile::Main422_10,
            (true, false, false, true, false, false, false, false, true) => Profile::Main422_12,
            (true, true, true, false, false, false, false, false, true) => Profile::Main444,
            (true, true, false, false, false, false, false, false, true) => Profile::Main444_10,
            (true, false, false, false, false, false, false, false, true) => Profile::Main444_12,
            (true, true, true, true, true, false, true, false, _) => Profile::MainIntra,
            (true, true, false, true, true, false, true, false, _) => Profile::Main10Intra,
            (true, false, false, true, true, false, true, false, _) => Profile::Main12Intra,
            (true, true, false, true, false, false, true, false, _) => Profile::Main422_10Intra,
            (true, false, false, true, false, false, true, false, _) => Profile::Main422_12Intra,
            (true, true, true, false, false, false, true, false, _) => Profile::Main444Intra,
            (true, true, false, false, false, false, true, false, _) => Profile::Main444_10Intra,
            (true, false, false, false, false, false, true, false, _) => Profile::Main444_12Intra,
            (false, false, false, false, false, false, true, false, _) => Profile::Main444_16Intra,
            (true, true, true, false, false, false, true, true, _) => Profile::Main444StillPicture,
            (false, false, false, false, false, false, true, true, _) => Profile::Main444_16StillPicture,
            _ => Profile::Unknown(lp.profile_idc),
        }
    } else if lp.profile_idc == 5 || compat[5] {
        match (
            lp.max_14bit_constraint_flag,
            lp.max_12bit_constraint_flag,
            lp.max_10bit_constraint_flag,
            lp.max_8bit_constraint_flag,
            lp.max_422chroma_constraint_flag,
            lp.max_420chroma_constraint_flag,
            lp.max_monochrome_constraint_flag,
            lp.intra_constraint_flag,
            lp.one_picture_only_constraint_flag,
            lp.lower_bit_rate_constraint_flag,
        ) {
            (true, true, true, true, false, false, false, false, false, true) => Profile::HighThroughput444,
            (true, true, true, false, false, false, false, false, false, true) => Profile::HighThroughput444_10,
            (true, false, false, false, false, false, false, false, false, true) => Profile::HighThroughput444_14,
            (false, false, false, false, false, false, false, true, false, _) => Profile::HighThroughput444_16Intra,
            _ => Profile::Unknown(lp.profile_idc),
        }
    } else if lp.profile_idc == 6 || compat[6] {
        match (
            lp.max_12bit_constraint_flag,
            lp.max_10bit_constraint_flag,
            lp.max_8bit_constraint_flag,
            lp.max_422chroma_constraint_flag,
            lp.max_420chroma_constraint_flag,
            lp.max_monochrome_constraint_flag,
            lp.intra_constraint_flag,
            lp.one_picture_only_constraint_flag,
            lp.lower_bit_rate_constraint_flag,
        ) {
            (true, true, true, true, true, false, false, false, true) => Profile::MultiviewMain,
            _ => Profile::Unknown(lp.profile_idc),
        }
    } else if lp.profile_idc == 7 || compat[7] {
        match (
            lp.max_12bit_constraint_flag,
            lp.max_10bit_constraint_flag,
            lp.max_8bit_constraint_flag,
            lp.max_422chroma_constraint_flag,
            lp.max_420chroma_constraint_flag,
            lp.max_monochrome_constraint_flag,
            lp.intra_constraint_flag,
            lp.one_picture_only_constraint_flag,
            lp.lower_bit_rate_constraint_flag,
        ) {
            (true, true, true, true, true, false, false, false, true) => Profile::ScalableMain,
            (true, true, false, true, true, false, false, false, true) => Profile::ScalableMain10,
            _ => Profile::Unknown(lp.profile_idc),
        }
    } else if lp.profile_idc == 8 || compat[8] {
        match (
            lp.max_12bit_constraint_flag,
            lp.max_10bit_constraint_flag,
            lp.max_8bit_constraint_flag,
            lp.max_422chroma_constraint_flag,
            lp.max_420chroma_constraint_flag,
            lp.max_monochrome_constraint_flag,
            lp.intra_constraint_flag,
            lp.one_picture_only_constraint_flag,
            lp.lower_bit_rate_constraint_flag,
        ) {
            (true, true, true, true, true, false, false, false, true) => Profile::ThreeDeeMain,
            _ => Profile::Unknown(lp.profile_idc),
        }
    } else if lp.profile_idc == 9 || compat[9] {
        match (
            lp.max_14bit_constraint_flag,
            lp.max_12bit_constraint_flag,
            lp.max_10bit_constraint_flag,
            lp.max_8bit_constraint_flag,
            lp.max_422chroma_constraint_flag,
            lp.max_420chroma_constraint_flag,
            lp.max_monochrome_constraint_flag,
            lp.intra_constraint_flag,
            lp.one_picture_only_constraint_flag,
            lp.lower_bit_rate_constraint_flag,
        ) {
            (true, true, true, true, true, true, false, false, false, true) => Profile::ScreenExtendedMain,
            (true, true, true, false, true, true, false, false, false, true) => Profile::ScreenExtendedMain10,
            (true, true, true, true, false, false, false, false, false, true) => Profile::ScreenExtendedMain444,
            (true, true, true, false, false, false, false, false, false, true) => Profile::ScreenExtendedMain444_10,
            _ => Profile::Unknown(lp.profile_idc),
        }
    } else if lp.profile_idc == 10 || compat[10] {
        match (
            lp.max_14bit_constraint_flag,
            lp.max_12bit_constraint_flag,
            lp.max_10bit_constraint_flag,
            lp.max_8bit_constraint_flag,
            lp.max_422chroma_constraint_flag,
            lp.max_420chroma_constraint_flag,
            lp.max_monochrome_constraint_flag,
            lp.intra_constraint_flag,
            lp.one_picture_only_constraint_flag,
            lp.lower_bit_rate_constraint_flag,
        ) {
            (true, true, true, true, true, true, true, false, false, true) => Profile::ScalableMonochrome,
            (true, true, false, false, true, true, true, false, false, true) => Profile::ScalableMonochrome12,
            (false, false, false, false, true, true, true, false, false, true) => Profile::ScalableMonochrome16,
            (true, true, true, true, false, false, false, false, false, true) => Profile::ScalableMain444,
            _ => Profile::Unknown(lp.profile_idc),
        }
    } else if lp.profile_idc == 11 || compat[11] {
        match (
            lp.max_14bit_constraint_flag,
            lp.max_12bit_constraint_flag,
            lp.max_10bit_constraint_flag,
            lp.max_8bit_constraint_flag,
            lp.max_422chroma_constraint_flag,
            lp.max_420chroma_constraint_flag,
            lp.max_monochrome_constraint_flag,
            lp.intra_constraint_flag,
            lp.one_picture_only_constraint_flag,
            lp.lower_bit_rate_constraint_flag,
        ) {
            (true, true, true, true, false, false, false, false, false, true) => Profile::ScreenExtendedHighThroughput444,
            (true, true, true, false, false, false, false, false, false, true) => Profile::ScreenExtendedHighThroughput444_10,
            (true, false, false, false, false, false, false, false, false, true) => Profile::ScreenExtendedHighThroughput444_14,
            _ => Profile::Unknown(lp.profile_idc),
        }
    } else {
        Profile::Unknown(lp.profile_idc)
    }
}

/// Classification is total: whatever branch the idc and compatibility flags
/// select, every constraint-flag combination yields a named profile or the
/// explicit `Unknown` fallback carrying the raw idc, never a failure; and a
/// combination whose idc selects no documented branch is always `Unknown`.
pub proof fn lemma_profile_classification_total(lp: LayerProfileView)
    requires
        lp.profile_compatibility_flag.len() == 32,
    ensures
        (lp.profile_idc == 1 || lp.profile_compatibility_flag[1]) ==> spec_profile(lp)
            == Profile::Main,
        (spec_profile(lp) matches Profile::Unknown(idc) ==> idc == lp.profile_idc),
        ({
            let c = lp.profile_compatibility_flag;
            lp.profile_idc > 11 && !c[1] && !c[2] && !c[3] && !c[4] && !c[5] && !c[6] && !c[7]
                && !c[8] && !c[9] && !c[10] && !c[11]
        }) ==> spec_profile(lp) == Profile::Unknown(lp.profile_idc),
{
}

/// One sub-layer's optional profile and level.
#[derive(Clone, Debug, PartialEq, Eq)]
pub struct SubLayerProfileLevel {
    pub profile: Option<LayerProfile>,
    pub level_idc: Option<u8>,
}

/// Mathematical model of a parsed sub-layer profile/level entry.
#[verifier::ext_equal]
pub struct SubLayerProfileLevelView {
    pub profile: Option<LayerProfileView>,
    pub level_idc: Option<u8>,
}

impl View for SubLayerProfileLevel {
    type V = SubLayerProfileLevelView;

    open spec fn view(&self) -> SubLayerProfileLevelView {
        SubLayerProfileLevelView {
            profile: match self.profile {
                Some(p) => Some(p@),
                None => None,
            },
            level_idc: self.level_idc,
        }
    }
}

impl SubLayerProfileLevel {
    /// A held profile carries its full compatibility-flag vector.
    pub open spec fn wf(self) -> bool {
        match self.profile {
            Some(p) => p.wf(),
            None => true,
        }
    }
}

/// The sub-layer profile/level syntax: a profile and a level, each present
/// only when its presence flag was set earlier.
#[verifier::opaque]
pub open spec fn spec_read_slpl(
    d: Seq<u8>,
    pos: nat,
    profile_present: bool,
    level_present: bool,
) -> Result<(SubLayerProfileLevelView, nat), SpsError> {
    let step_p = if profile_present {
        match spec_read_layer_profile(d, pos) {
            Err(e) => Err(e),
            Ok((lp, p)) => Ok((Some(lp), p)),
        }
    } else {
        Ok((None, pos))
    };
    match step_p {
        Err(e) => Err(e),
        Ok((profile, p1)) => {
            let step_l = if level_present {
                match spec_take_u8(d, p1, 8, "sub_layer_level_idc[i]") {
                    Err(e) => Err(e),
                    Ok((l, p2)) => Ok((Some(l), p2)),
                }
            } else {
                Ok((None, p1))
            };
            match step_l {
                Err(e) => Err(e),
                Ok((level_idc, p2)) => Ok((SubLayerProfileLevelView { profile, level_idc }, p2)),
            }
        },
    }
}

impl SubLayerProfileLevel {
    /// Parses one sub-layer profile/level entry.
    pub fn read(r: &mut BitReader<'_>, profile_present: bool, level_present: bool) -> (res: Result<
        SubLayerProfileLevel,
        SpsError,
    >)
        requires
            old(r).wf(),
        ensures
            final(r).wf(),
            final(r).data() == old(r).data(),
            match res {
                Ok(v) => spec_read_slpl(old(r).data(), old(r).pos(), profile_present, level_present)
                    == Ok::<(SubLayerProfileLevelView, nat), SpsError>((v@, final(r).pos()))
                    && v.wf(),
                Err(e) => spec_read_slpl(
                    old(r).data(),
                    old(r).pos(),
                    profile_present,
                    level_present,
                ) == Err::<(SubLayerProfileLevelView, nat), SpsError>(e),
            },
    {
        proof {
            reveal(spec_read_slpl);
        }
        let profile = match profile_present {
            true => Some(LayerProfile::read(r)?),
            false => None,
        };
        let level_idc = match level_present {
            true => Some(take_u8(r, 8, "sub_layer_level_idc[i]")?),
            false => None,
        };
        Ok(SubLayerProfileLevel { profile, level_idc })
    }
}

/// The views of a sequence of sub-layer profile/level entries.
pub open spec fn views_of_sub_layers(s: Seq<SubLayerProfileLevel>) -> Seq<
    SubLayerProfileLevelView,
> {
    s.map_values(|x: SubLayerProfileLevel| x@)
}

/// The presence-flag pair of sub-layer `i`, with absent entries (beyond the
/// signalled sub-layer count) defaulting to both flags unset.
pub open spec fn spec_flag_at(flags: Seq<(bool, bool)>, i: int) -> (bool, bool) {
    if 0 <= i < flags.len() {
        flags[i]
    } else {
        (false, false)
    }
}

/// The parser of one presence-flag pair, as a value.
pub open spec fn spec_flag_pair_one() -> spec_fn(Seq<u8>, nat) -> Result<
    ((bool, bool), nat),
    SpsError,
> {
    (|d: Seq<u8>, pos: nat|
        match spec_take_bool(d, pos, "sub_layer_profile_present_flag[i]") {
            Err(e) => Err(e),
            Ok((pf, p1)) => match spec_take_bool(d, p1, "sub_layer_level_present_flag[i]") {
                Err(e) => Err(e),
                Ok((lf, p2)) => Ok(((pf, lf), p2)),
            },
        })
}

/// The parser of one reserved 2-bit alignment field, as a value.
pub open spec fn spec_reserved2_one() -> spec_fn(Seq<u8>, nat) -> Result<((), nat), SpsError> {
    (|d: Seq<u8>, pos: nat|
        match spec_take_u8(d, pos, 2, "reserved_zero_2bits[i]") {
            Err(e) => Err(e),
            Ok((_, p)) => Ok(((), p)),
        })
}

/// A sequence of `n` unit values, the model of skipped reserved fields.
pub open spec fn unit_seq(n: nat) -> Seq<()> {
    Seq::new(n, |i: int| ())
}

/// The seven fixed sub-layer slots: each parsed with its presence-flag
/// pair, slots beyond the signalled count staying empty.
#[verifier::opaque]
pub open spec fn spec_read_seven_sub_layers(d: Seq<u8>, pos: nat, flags: Seq<(bool, bool)>) -> Result<
    (Seq<SubLayerProfileLevelView>, nat),
    SpsError,
> {
    match spec_read_slpl(d, pos, spec_flag_at(flags, 0).0, spec_flag_at(flags, 0).1) {
        Err(e) => Err(e),
        Ok((e0, p0)) => match spec_read_slpl(d, p0, spec_flag_at(flags, 1).0, spec_flag_at(flags, 1).1) {
            Err(e) => Err(e),
            Ok((e1, p1)) => match spec_read_slpl(
                d,
                p1,
                spec_flag_at(flags, 2).0,
                spec_flag_at(flags, 2).1,
            ) {
                Err(e) => Err(e),
                Ok((e2, p2)) => match spec_read_slpl(
                    d,
                    p2,
                    spec_flag_at(flags, 3).0,
                    spec_flag_at(flags, 3).1,
                ) {
                    Err(e) => Err(e),
                    Ok((e3, p3)) => match spec_read_slpl(
                        d,
                        p3,
                        spec_flag_at(flags, 4).0,
                        spec_flag_at(flags, 4).1,
                    ) {
                        Err(e) => Err(e),
                        Ok((e4, p4)) => match spec_read_slpl(
                            d,
                            p4,
                            spec_flag_at(flags, 5).0,
                            spec_flag_at(flags, 5).1,
                        ) {
                            Err(e) => Err(e),
                            Ok((e5, p5)) => match spec_read_slpl(
                                d,
                                p5,
                                spec_flag_at(flags, 6).0,
                                spec_flag_at(flags, 6).1,
                            ) {
                                Err(e) => Err(e),
                                Ok((e6, p6)) => Ok((seq![e0, e1, e2, e3, e4, e5, e6], p6)),
                            },
                        },
                    },
                },
            },
        },
    }
}

/// Reads the per-sub-layer presence-flag pairs.
fn read_flag_pairs(r: &mut BitReader<'_>, count: u8) -> (res: Result<Vec<(bool, bool)>, SpsError>)
    requires
        old(r).wf(),
    ensures
        final(r).wf(),
        final(r).data() == old(r).data(),
        match res {
            Ok(v) => spec_read_list(old(r).data(), old(r).pos(), count as nat, spec_flag_pair_one())
                == Ok::<(Seq<(bool, bool)>, nat), SpsError>((v@, final(r).pos())) && v@.len()
                == count as nat,
            Err(e) => spec_read_list(
                old(r).data(),
                old(r).pos(),
                count as nat,
                spec_flag_pair_one(),
            ) == Err::<(Seq<(bool, bool)>, nat), SpsError>(e),
        },
{
    let ghost d = old(r).data();
    let ghost pos0 = old(r).pos();
    let ghost one = spec_flag_pair_one();
    let mut v: Vec<(bool, bool)> = Vec::new();
    let mut i: u8 = 0;
    while i < count
        invariant
            r.wf(),
            r.data() == d,
            d == old(r).data(),
            pos0 == old(r).pos(),
            one == spec_flag_pair_one(),
            i <= count,
            v@.len() == i as nat,
            spec_read_list(d, pos0, i as nat, one) == Ok::<(Seq<(bool, bool)>, nat), SpsError>(
                (v@, r.pos()),
            ),
        decreases count - i,
    {
        let ghost vg = v@;
        let ghost p = r.pos();
        let pf = match take_bool(r, "sub_layer_profile_present_flag[i]") {
            Ok(b) => b,
            Err(e) => {
                proof {
                    lemma_read_list_error(d, pos0, i as nat, count as nat, one, vg, p, e);
                }
                return Err(e);
            },
        };
        let lf = match take_bool(r, "sub_layer_level_present_flag[i]") {
            Ok(b) => b,
            Err(e) => {
                proof {
                    lemma_read_list_error(d, pos0, i as nat, count as nat, one, vg, p, e);
                }
                return Err(e);
            },
        };
        proof {
            lemma_read_list_extend(d, pos0, i as nat, one, vg, p, (pf, lf), r.pos());
        }
        v.push((pf, lf));
        i = i + 1;
    }
    Ok(v)
}

/// Skips the reserved 2-bit alignment fields.
fn skip_reserved2(r: &mut BitReader<'_>, count: u8) -> (res: Result<(), SpsError>)
    requires
        old(r).wf(),
    ensures
        final(r).wf(),
        final(r).data() == old(r).data(),
        match res {
            Ok(_) => spec_read_list(old(r).data(), old(r).pos(), count as nat, spec_reserved2_one())
                == Ok::<(Seq<()>, nat), SpsError>((unit_seq(count as nat), final(r).pos())),
            Err(e) => spec_read_list(
                old(r).data(),
                old(r).pos(),
                count as nat,
                spec_reserved2_one(),
            ) == Err::<(Seq<()>, nat), SpsError>(e),
        },
{
    let ghost d = old(r).data();
    let ghost pos0 = old(r).pos();
    let ghost one = spec_reserved2_one();
    let mut i: u8 = 0;
    proof {
        assert(unit_seq(0) =~= Seq::<()>::empty());
    }
    while i < count
        invariant
            r.wf(),
            r.data() == d,
            d == old(r).data(),
            pos0 == old(r).pos(),
            one == spec_reserved2_one(),
            i <= count,
            spec_read_list(d, pos0, i as nat, one) == Ok::<(Seq<()>, nat), SpsError>(
                (unit_seq(i as nat), r.pos()),
            ),
        decreases count - i,
    {
        let ghost p = r.pos();
        match take_u8(r, 2, "reserved_zero_2bits[i]") {
            Ok(_) => {},
            Err(e) => {
                proof {
                    lemma_read_list_error(
                        d,
                        pos0,
                        i as nat,
                        count as nat,
                        one,
                        unit_seq(i as nat),
                        p,
                        e,
                    );
                }
                return Err(e);
            },
        };
        proof {
            lemma_read_list_extend(d, pos0, i as nat, one, unit_seq(i as nat), p, (), r.pos());
            assert(unit_seq(i as nat).push(()) =~= unit_seq((i + 1) as nat));
        }
        i = i + 1;
    }
    Ok(())
}

/// Looks up a sub-layer's presence-flag pair, defaulting to both unset
/// beyond the signalled count.
fn flag_pair_at(flags: &Vec<(bool, bool)>, i: usize) -> (res: (bool, bool))
    ensures
        res == spec_flag_at(flags@, i as int),
{
    if i < flags.len() {
        flags[i]
    } else {
        (false, false)
    }
}

/// Parses the seven fixed sub-layer slots.
#[verifier::spinoff_prover]
#[verifier::rlimit(100)]
fn read_seven_sub_layers(r: &mut BitReader<'_>, flags: &Vec<(bool, bool)>) -> (res: Result<
    Vec<SubLayerProfileLevel>,
    SpsError,
>)
    requires
        old(r).wf(),
    ensures
        final(r).wf(),
        final(r).data() == old(r).data(),
        match res {
            Ok(v) => spec_read_seven_sub_layers(old(r).data(), old(r).pos(), flags@) == Ok::<
                (Seq<SubLayerProfileLevelView>, nat),
                SpsError,
            >((views_of_sub_layers(v@), final(r).pos())) && v@.len() == 7,
            Err(e) => spec_read_seven_sub_layers(old(r).data(), old(r).pos(), flags@) == Err::<
                (Seq<SubLayerProfileLevelView>, nat),
                SpsError,
            >(e),
        },
{
    proof {
        reveal(spec_read_seven_sub_layers);
    }
    let f0 = flag_pair_at(flags, 0);
    let e0 = SubLayerProfileLevel::read(r, f0.0, f0.1)?;
    let f1 = flag_pair_at(flags, 1);
    let e1 = SubLayerProfileLevel::read(r, f1.0, f1.1)?;
    let f2 = flag_pair_at(flags, 2);
    let e2 = SubLayerProfileLevel::read(r, f2.0, f2.1)?;
    let f3 = flag_pair_at(flags, 3);
    let e3 = SubLayerProfileLevel::read(r, f3.0, f3.1)?;
    let f4 = flag_pair_at(flags, 4);
    let e4 = SubLayerProfileLevel::read(r, f4.0, f4.1)?;
    let f5 = flag_pair_at(flags, 5);
    let e5 = SubLayerProfileLevel::read(r, f5.0, f5.1)?;
    let f6 = flag_pair_at(flags, 6);
    let e6 = SubLayerProfileLevel::read(r, f6.0, f6.1)?;
    let ghost views = seq![e0@, e1@, e2@, e3@, e4@, e5@, e6@];
    let mut v: Vec<SubLayerProfileLevel> = Vec::new();
    v.push(e0);
    v.push(e1);
    v.push(e2);
    v.push(e3);
    v.push(e4);
    v.push(e5);
    v.push(e6);
    proof {
        assert(views_of_sub_layers(v@) =~= views);
    }
    Ok(v)
}

/// Profile, tier and level: the general layer profile and level plus the
/// seven fixed per-sub-layer slots.
#[derive(Clone, Debug, PartialEq, Eq)]
pub struct ProfileTierLevel {
    pub general_profile: Option<LayerProfile>,
    pub general_level_idc: u8,
    pub sub_layers: Vec<SubLayerProfileLevel>,
}

/// Mathematical model of a parsed profile/tier/level structure.
#[verifier::ext_equal]
pub struct ProfileTierLevelView {
    pub general_profile: Option<LayerProfileView>,
    pub general_level_idc: u8,
    pub sub_layers: Seq<SubLayerProfileLevelView>,
}

impl View for ProfileTierLevel {
    type V = ProfileTierLevelView;

    open spec fn view(&self) -> ProfileTierLevelView {
        ProfileTierLevelView {
            general_profile: match self.general_profile {
                Some(p) => Some(p@),
                None => None,
            },
            general_level_idc: self.general_level_idc,
            sub_layers: views_of_sub_layers(self.sub_layers@),
        }
    }
}

impl ProfileTierLevel {
    /// Seven sub-layer slots, and a held general profile carries its full
    /// compatibility-flag vector.
    pub open spec fn wf(self) -> bool {
        &&& self.sub_layers@.len() == 7
        &&& match self.general_profile {
            Some(p) => p.wf(),
            None => true,
        }
    }
}

/// The profile/tier/level syntax: the general profile (when asked for), the
/// general level, the sub-layer count ceiling check, per-sub-layer presence
/// flag pairs, reserved alignment fields when any sub-layer exists, then
/// the seven fixed slots.
#[verifier::opaque]
pub open spec fn spec_read_ptl(
    d: Seq<u8>,
    pos: nat,
    profile_present: bool,
    max_sub_layers_minus1: u8,
) -> Result<(ProfileTierLevelView, nat), SpsError> {
    let step_gp = if profile_present {
        match spec_read_layer_profile(d, pos) {
            Err(e) => Err(e),
            Ok((lp, p)) => Ok((Some(lp), p)),
        }
    } else {
        Ok((None, pos))
    };
    match step_gp {
        Err(e) => Err(e),
        Ok((gp, p0)) => match spec_take_u8(d, p0, 8, "general_level_idc") {
            Err(e) => Err(e),
            Ok((lvl, p1)) => match spec_validate_max_sub_layers(max_sub_layers_minus1) {
                Err(e) => Err(e),
                Ok(_) => match spec_read_list(
                    d,
                    p1,
                    max_sub_layers_minus1 as nat,
                    spec_flag_pair_one(),
                ) {
                    Err(e) => Err(e),
                    Ok((flags, p2)) => {
                        let step_skip = if max_sub_layers_minus1 > 0 {
                            match spec_read_list(
                                d,
                                p2,
                                (8 - max_sub_layers_minus1) as nat,
                                spec_reserved2_one(),
                            ) {
                                Err(e) => Err(e),
                                Ok((_, p3)) => Ok(p3),
                            }
                        } else {
                            Ok(p2)
                        };
                        match step_skip {
                            Err(e) => Err(e),
                            Ok(p3) => match spec_read_seven_sub_layers(d, p3, flags) {
                                Err(e) => Err(e),
                                Ok((subs, p4)) => Ok(
                                    (
                                        ProfileTierLevelView {
                                            general_profile: gp,
                                            general_level_idc: lvl,
                                            sub_layers: subs,
                                        },
                                        p4,
                                    ),
                                ),
                            },
                        }
                    },
                },
            },
        },
    }
}

impl ProfileTierLevel {
    /// Parses a profile/tier/level structure.
    #[verifier::spinoff_prover]
    #[verifier::rlimit(100)]
    pub fn read(
        r: &mut BitReader<'_>,
        profile_present_flag: bool,
        max_num_sub_layers_minus1: u8,
    ) -> (res: Result<ProfileTierLevel, SpsError>)
        requires
            old(r).wf(),
        ensures
            final(r).wf(),
            final(r).data() == old(r).data(),
            match res {
                Ok(v) => spec_read_ptl(
                    old(r).data(),
                    old(r).pos(),
                    profile_present_flag,
                    max_num_sub_layers_minus1,
                ) == Ok::<(ProfileTierLevelView, nat), SpsError>((v@, final(r).pos())) && v.wf(),
                Err(e) => spec_read_ptl(
                    old(r).data(),
                    old(r).pos(),
                    profile_present_flag,
                    max_num_sub_layers_minus1,
                ) == Err::<(ProfileTierLevelView, nat), SpsError>(e),
            },
    {
        proof {
            reveal(spec_read_ptl);
        }
        let general_profile = match profile_present_flag {
            true => Some(LayerProfile::read(r)?),
            false => None,
        };
        let general_level_idc = take_u8(r, 8, "general_level_idc")?;
        validate_max_sub_layers(max_num_sub_layers_minus1)?;
        let flags = read_flag_pairs(r, max_num_sub_layers_minus1)?;
        if max_num_sub_layers_minus1 > 0 {
            skip_reserved2(r, 8 - max_num_sub_layers_minus1)?;
        }
        let sub_layers = read_seven_sub_layers(r, &flags)?;
        Ok(ProfileTierLevel { general_profile, general_level_idc, sub_layers })
    }
}

} // verus!
