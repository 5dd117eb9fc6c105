//! Sequence parameter set (SPS) decoding.
//!
//! Every syntax structure has a spec-level parser (`spec_read_*`) over the
//! byte sequence and a bit position; the executable parser is proved to
//! return exactly what the spec parser defines, including which error comes
//! out on which input. The top-level entry is [`SeqParameterSet::from_bits`].

use vstd::prelude::*;

pub mod profile;
pub mod rps;
pub mod vui;

verus! {

use crate::nal::pps::ParamSetId;
use crate::nal::pps::ParamSetIdError;
use crate::nal::sps::profile::ProfileTierLevel;
use crate::nal::sps::profile::ProfileTierLevelView;
use crate::nal::sps::profile::Profile;
use crate::nal::sps::profile::Tier;
use crate::nal::sps::profile::Level;
use crate::nal::sps::profile::LayerProfile;
use crate::nal::sps::profile::spec_read_ptl;
use crate::nal::sps::profile::spec_profile;
use crate::nal::sps::profile::spec_tier;
use crate::nal::sps::profile::spec_level_from_idc;
use crate::nal::sps::profile::unit_seq;
use crate::nal::sps::rps::ShortTermRefPicSet;
use crate::nal::sps::rps::ShortTermRefPicSetView;
use crate::nal::sps::rps::LongTermRefPicSps;
use crate::nal::sps::rps::views_of_rps;
use crate::nal::sps::rps::view_of_long_term;
use crate::nal::sps::rps::spec_read_st_rps_collection;
use crate::nal::sps::rps::spec_read_long_term;
use crate::nal::sps::vui::VuiParameters;
use crate::nal::sps::vui::VuiParametersView;
use crate::nal::sps::vui::view_of_vui;
use crate::nal::sps::vui::spec_read_vui;
use crate::rbsp::BitReader;
use crate::rbsp::spec_finish;
use crate::rbsp::spec_has_more;
use crate::rbsp::total_bits;
use crate::rbsp::BitReaderError;
use crate::rbsp::spec_read_bool;
use crate::rbsp::spec_read_bits;
use crate::rbsp::spec_read_ue;
use crate::rbsp::spec_read_se;

/// Failure of a sequence parameter set parse. Every failure is surfaced to
/// the caller; parsing aborts at the first failing syntax element.
#[derive(Clone, Copy, Debug, PartialEq, Eq)]
pub enum SpsError {
    /// The bit-level reader failed (truncated or trailing data, or an
    /// Exp-Golomb code too wide for its target).
    RbspReaderError(BitReaderError),
    /// The sequence parameter set id was out of range.
    BadSeqParamSetId(ParamSetIdError),
    /// The video parameter set id was out of range.
    BadVideoParamSetId(ParamSetIdError),
    /// A parsed numeric field was too large for a subsequent calculation to
    /// proceed safely.
    FieldValueTooLarge { name: &'static str, value: u32 },
    /// A short-term reference picture set prediction referenced a set that
    /// does not exist; carries the `delta_idx_minus1` value that produced
    /// the out-of-range reference.
    InvalidReferenceIndex(u32),
    /// A profile/tier/level structure carried no general profile.
    MissingGeneralProfile,
    /// A recognized but unsupported syntax extension was encountered.
    Unimplemented(&'static str),
}

/// `spec_read_bool` with the reader's error lifted into `SpsError`.
#[verifier::opaque]
pub open spec fn spec_take_bool(d: Seq<u8>, pos: nat, name: &'static str) -> Result<
    (bool, nat),
    SpsError,
> {
    match spec_read_bool(d, pos, name) {
        Ok(v) => Ok(v),
        Err(e) => Err(SpsError::RbspReaderError(e)),
    }
}

/// `spec_read_bits` for a `u8` target, with the reader's error lifted into
/// `SpsError`.
#[verifier::opaque]
pub open spec fn spec_take_u8(d: Seq<u8>, pos: nat, n: nat, name: &'static str) -> Result<
    (u8, nat),
    SpsError,
> {
    match spec_read_bits(d, pos, n, name) {
        Ok((v, p)) => Ok((v as u8, p)),
        Err(e) => Err(SpsError::RbspReaderError(e)),
    }
}

/// `spec_read_bits` for a `u16` target, with the reader's error lifted into
/// `SpsError`.
#[verifier::opaque]
pub open spec fn spec_take_u16(d: Seq<u8>, pos: nat, n: nat, name: &'static str) -> Result<
    (u16, nat),
    SpsError,
> {
    match spec_read_bits(d, pos, n, name) {
        Ok((v, p)) => Ok((v as u16, p)),
        Err(e) => Err(SpsError::RbspReaderError(e)),
    }
}

/// `spec_read_bits` for a `u32` target, with the reader's error lifted into
/// `SpsError`.
#[verifier::opaque]
pub open spec fn spec_take_u32(d: Seq<u8>, pos: nat, n: nat, name: &'static str) -> Result<
    (u32, nat),
    SpsError,
> {
    match spec_read_bits(d, pos, n, name) {
        Ok((v, p)) => Ok((v as u32, p)),
        Err(e) => Err(SpsError::RbspReaderError(e)),
    }
}

/// `spec_read_ue` with the reader's error lifted into `SpsError`.
#[verifier::opaque]
pub open spec fn spec_take_ue(d: Seq<u8>, pos: nat, name: &'static str) -> Result<
    (u32, nat),
    SpsError,
> {
    match spec_read_ue(d, pos, name) {
        Ok(v) => Ok(v),
        Err(e) => Err(SpsError::RbspReaderError(e)),
    }
}

/// `spec_read_se` with the reader's error lifted into `SpsError`.
#[verifier::opaque]
pub open spec fn spec_take_se(d: Seq<u8>, pos: nat, name: &'static str) -> Result<
    (i32, nat),
    SpsError,
> {
    match spec_read_se(d, pos, name) {
        Ok(v) => Ok(v),
        Err(e) => Err(SpsError::RbspReaderError(e)),
    }
}

/// Reads one flag bit, lifting the reader's error into `SpsError`.
pub(crate) fn take_bool(r: &mut BitReader<'_>, name: &'static str) -> (res: Result<bool, SpsError>)
    requires
        old(r).wf(),
    ensures
        final(r).wf(),
        final(r).data() == old(r).data(),
        match res {
            Ok(b) => spec_take_bool(old(r).data(), old(r).pos(), name) == Ok::<
                (bool, nat),
                SpsError,
            >((b, final(r).pos())),
            Err(e) => spec_take_bool(old(r).data(), old(r).pos(), name) == Err::<
                (bool, nat),
                SpsError,
            >(e),
        },
{
    proof {
        reveal(spec_take_bool);
    }
    match r.read_bool(name) {
        Ok(b) => Ok(b),
        Err(e) => Err(SpsError::RbspReaderError(e)),
    }
}

/// Reads `n` bits into a `u8`, lifting the reader's error into `SpsError`.
pub(crate) fn take_u8(r: &mut BitReader<'_>, n: usize, name: &'static str) -> (res: Result<
    u8,
    SpsError,
>)
    requires
        old(r).wf(),
        1 <= n <= 8,
    ensures
        final(r).wf(),
        final(r).data() == old(r).data(),
        match res {
            Ok(v) => spec_take_u8(old(r).data(), old(r).pos(), n as nat, name) == Ok::<
                (u8, nat),
                SpsError,
            >((v, final(r).pos())),
            Err(e) => spec_take_u8(old(r).data(), old(r).pos(), n as nat, name) == Err::<
                (u8, nat),
                SpsError,
            >(e),
        },
{
    proof {
        reveal(spec_take_u8);
    }
    match r.read_u8(n, name) {
        Ok(v) => Ok(v),
        Err(e) => Err(SpsError::RbspReaderError(e)),
    }
}

/// Reads `n` bits into a `u16`, lifting the reader's error into `SpsError`.
pub(crate) fn take_u16(r: &mut BitReader<'_>, n: usize, name: &'static str) -> (res: Result<
    u16,
    SpsError,
>)
    requires
        old(r).wf(),
        1 <= n <= 16,
    ensures
        final(r).wf(),
        final(r).data() == old(r).data(),
        match res {
            Ok(v) => spec_take_u16(old(r).data(), old(r).pos(), n as nat, name) == Ok::<
                (u16, nat),
                SpsError,
            >((v, final(r).pos())),
            Err(e) => spec_take_u16(old(r).data(), old(r).pos(), n as nat, name) == Err::<
                (u16, nat),
                SpsError,
            >(e),
        },
{
    proof {
        reveal(spec_take_u16);
    }
    match r.read_u16(n, name) {
        Ok(v) => Ok(v),
        Err(e) => Err(SpsError::RbspReaderError(e)),
    }
}

/// Reads `n` bits into a `u32`, lifting the reader's error into `SpsError`.
pub(crate) fn take_u32(r: &mut BitReader<'_>, n: usize, name: &'static str) -> (res: Result<
    u32,
    SpsError,
>)
    requires
        old(r).wf(),
        1 <= n <= 32,
    ensures
        final(r).wf(),
        final(r).data() == old(r).data(),
        match res {
            Ok(v) => spec_take_u32(old(r).data(), old(r).pos(), n as nat, name) == Ok::<
                (u32, nat),
                SpsError,
            >((v, final(r).pos())),
            Err(e) => spec_take_u32(old(r).data(), old(r).pos(), n as nat, name) == Err::<
                (u32, nat),
                SpsError,
            >(e),
        },
{
    proof {
        reveal(spec_take_u32);
    }
    match r.read_u32(n, name) {
        Ok(v) => Ok(v),
        Err(e) => Err(SpsError::RbspReaderError(e)),
    }
}

/// Reads an unsigned Exp-Golomb code, lifting the reader's error into
/// `SpsError`.
pub(crate) fn take_ue(r: &mut BitReader<'_>, name: &'static str) -> (res: Result<u32, SpsError>)
    requires
        old(r).wf(),
    ensures
        final(r).wf(),
        final(r).data() == old(r).data(),
        match res {
            Ok(v) => spec_take_ue(old(r).data(), old(r).pos(), name) == Ok::<(u32, nat), SpsError>(
                (v, final(r).pos()),
            ),
            Err(e) => spec_take_ue(old(r).data(), old(r).pos(), name) == Err::<
                (u32, nat),
                SpsError,
            >(e),
        },
{
    proof {
        reveal(spec_take_ue);
    }
    match r.read_ue(name) {
        Ok(v) => Ok(v),
        Err(e) => Err(SpsError::RbspReaderError(e)),
    }
}

/// Reads a signed Exp-Golomb code, lifting the reader's error into
/// `SpsError`.
pub(crate) fn take_se(r: &mut BitReader<'_>, name: &'static str) -> (res: Result<i32, SpsError>)
    requires
        old(r).wf(),
    ensures
        final(r).wf(),
        final(r).data() == old(r).data(),
        match res {
            Ok(v) => spec_take_se(old(r).data(), old(r).pos(), name) == Ok::<(i32, nat), SpsError>(
                (v, final(r).pos()),
            ),
            Err(e) => spec_take_se(old(r).data(), old(r).pos(), name) == Err::<
                (i32, nat),
                SpsError,
            >(e),
        },
{
    proof {
        reveal(spec_take_se);
    }
    match r.read_se(name) {
        Ok(v) => Ok(v),
        Err(e) => Err(SpsError::RbspReaderError(e)),
    }
}

/// Concatenating onto the empty sequence changes nothing.
pub proof fn lemma_seq_empty_concat<T>(s: Seq<T>)
    ensures
        Seq::<T>::empty() + s == s,
{
    assert(Seq::<T>::empty() + s =~= s);
}

/// Concatenating the empty sequence changes nothing.
pub proof fn lemma_seq_concat_empty<T>(s: Seq<T>)
    ensures
        s + Seq::<T>::empty() == s,
{
    assert(s + Seq::<T>::empty() =~= s);
}

/// Prepending a head element to a tail then concatenating equals pushing the
/// element first: the shape a parse loop produces.
pub proof fn lemma_seq_push_concat<T>(v: Seq<T>, x: T, s: Seq<T>)
    ensures
        v + (seq![x] + s) == v.push(x) + s,
{
    assert(v + (seq![x] + s) =~= v.push(x) + s);
}


/// `count` consecutive items read by `one`, each starting where the previous
/// ended; fails with the first item's error.
pub open spec fn spec_read_list<T>(
    d: Seq<u8>,
    pos: nat,
    count: nat,
    one: spec_fn(Seq<u8>, nat) -> Result<(T, nat), SpsError>,
) -> Result<(Seq<T>, nat), SpsError>
    decreases count,
{
    if count == 0 {
        Ok((Seq::empty(), pos))
    } else {
        match one(d, pos) {
            Err(e) => Err(e),
            Ok((x, p)) => match spec_read_list(d, p, (count - 1) as nat, one) {
                Err(e) => Err(e),
                Ok((s, p2)) => Ok((seq![x] + s, p2)),
            },
        }
    }
}

/// A successfully parsed prefix of `i` items extends by one more
/// successfully parsed item to a prefix of `i + 1` items.
pub proof fn lemma_read_list_extend<T>(
    d: Seq<u8>,
    pos: nat,
    i: nat,
    one: spec_fn(Seq<u8>, nat) -> Result<(T, nat), SpsError>,
    v: Seq<T>,
    p: nat,
    x: T,
    p2: nat,
)
    requires
        spec_read_list(d, pos, i, one) == Ok::<(Seq<T>, nat), SpsError>((v, p)),
        one(d, p) == Ok::<(T, nat), SpsError>((x, p2)),
    ensures
        spec_read_list(d, pos, i + 1, one) == Ok::<(Seq<T>, nat), SpsError>((v.push(x), p2)),
    decreases i,
{
    if i == 0 {
        assert(spec_read_list(d, p2, 0, one) == Ok::<(Seq<T>, nat), SpsError>((Seq::empty(), p2)));
        assert(spec_read_list(d, pos, 1, one) == Ok::<(Seq<T>, nat), SpsError>(
            ((seq![x] + Seq::<T>::empty(), p2)),
        ));
        assert(v =~= Seq::<T>::empty());
        assert(seq![x] + Seq::<T>::empty() =~= v.push(x));
    } else {
        match one(d, pos) {
            Ok((x0, q)) => {
                match spec_read_list(d, q, (i - 1) as nat, one) {
                    Ok((s, pp)) => {
                        lemma_read_list_extend(d, q, (i - 1) as nat, one, s, pp, x, p2);
                        assert(seq![x0] + s.push(x) =~= (seq![x0] + s).push(x));
                    },
                    Err(_) => {
                        assert(false);
                    },
                }
            },
            Err(_) => {
                assert(false);
            },
        }
    }
}

/// When the item after a successfully parsed prefix fails, the whole list
/// parse fails with that item's error.
pub proof fn lemma_read_list_error<T>(
    d: Seq<u8>,
    pos: nat,
    i: nat,
    count: nat,
    one: spec_fn(Seq<u8>, nat) -> Result<(T, nat), SpsError>,
    v: Seq<T>,
    p: nat,
    e: SpsError,
)
    requires
        i < count,
        spec_read_list(d, pos, i, one) == Ok::<(Seq<T>, nat), SpsError>((v, p)),
        one(d, p) == Err::<(T, nat), SpsError>(e),
    ensures
        spec_read_list(d, pos, count, one) == Err::<(Seq<T>, nat), SpsError>(e),
    decreases i,
{
    if i == 0 {
    } else {
        match one(d, pos) {
            Ok((x0, q)) => {
                match spec_read_list(d, q, (i - 1) as nat, one) {
                    Ok((s, pp)) => {
                        lemma_read_list_error(d, q, (i - 1) as nat, (count - 1) as nat, one, s, pp, e);
                    },
                    Err(_) => {
                        assert(false);
                    },
                }
            },
            Err(_) => {
                assert(false);
            },
        }
    }
}


/// A successfully parsed list holds exactly `count` items.
pub proof fn lemma_read_list_len<T>(
    d: Seq<u8>,
    pos: nat,
    count: nat,
    one: spec_fn(Seq<u8>, nat) -> Result<(T, nat), SpsError>,
)
    ensures
        spec_read_list(d, pos, count, one) matches Ok((s, _)) ==> s.len() == count,
    decreases count,
{
    if count > 0 {
        match one(d, pos) {
            Ok((x, p)) => {
                lemma_read_list_len(d, p, (count - 1) as nat, one);
            },
            Err(_) => {},
        }
    }
}

/// The ceiling on `max_num_sub_layers_minus1` shared by the
/// profile/tier/level and layer-info syntax: at most 7 sub-layers beyond the
/// base layer.
pub open spec fn spec_validate_max_sub_layers(max: u8) -> Result<(), SpsError> {
    if max > 7 {
        Err(SpsError::FieldValueTooLarge { name: "max_num_sub_layers_minus1", value: max as u32 })
    } else {
        Ok(())
    }
}

/// Checks the sub-layer count ceiling.
pub(crate) fn validate_max_sub_layers(max: u8) -> (res: Result<(), SpsError>)
    ensures
        res == spec_validate_max_sub_layers(max),
{
    if max > 7 {
        Err(SpsError::FieldValueTooLarge { name: "max_num_sub_layers_minus1", value: max as u32 })
    } else {
        Ok(())
    }
}

/// Chroma subsampling format, decoded from `chroma_format_idc`.
#[derive(Clone, Copy, Debug, PartialEq, Eq)]
pub enum ChromaFormat {
    Monochrome,
    YUV420,
    YUV422,
    YUV444,
    /// A reserved `chroma_format_idc` value, carried through explicitly.
    Invalid(u32),
}

/// The chroma format a `chroma_format_idc` value denotes.
pub open spec fn spec_chroma_format(idc: u32) -> ChromaFormat {
    if idc == 0 {
        ChromaFormat::Monochrome
    } else if idc == 1 {
        ChromaFormat::YUV420
    } else if idc == 2 {
        ChromaFormat::YUV422
    } else if idc == 3 {
        ChromaFormat::YUV444
    } else {
        ChromaFormat::Invalid(idc)
    }
}

impl ChromaFormat {
    /// Decodes `chroma_format_idc`; reserved values map to `Invalid`.
    pub fn from_chroma_format_idc(chroma_format_idc: u32) -> (res: ChromaFormat)
        ensures
            res == spec_chroma_format(chroma_format_idc),
    {
        match chroma_format_idc {
            0 => ChromaFormat::Monochrome,
            1 => ChromaFormat::YUV420,
            2 => ChromaFormat::YUV422,
            3 => ChromaFormat::YUV444,
            _ => ChromaFormat::Invalid(chroma_format_idc),
        }
    }
}

/// Chroma format plus the separate-colour-plane flag (present only for
/// 4:4:4).
#[derive(Clone, Copy, Debug, PartialEq, Eq)]
pub struct ChromaInfo {
    pub chroma_format: ChromaFormat,
    pub separate_colour_plane_flag: bool,
}

/// The chroma info syntax: `chroma_format_idc` as Exp-Golomb, then a flag
/// only when the format is 4:4:4.
#[verifier::opaque]
pub open spec fn spec_read_chroma_info(d: Seq<u8>, pos: nat) -> Result<(ChromaInfo, nat), SpsError> {
    match spec_take_ue(d, pos, "chroma_format_idc") {
        Err(e) => Err(e),
        Ok((idc, p1)) => {
            if idc == 3 {
                match spec_take_bool(d, p1, "separate_colour_plane_flag") {
                    Err(e) => Err(e),
                    Ok((b, p2)) => Ok(
                        (
                            ChromaInfo {
                                chroma_format: spec_chroma_format(idc),
                                separate_colour_plane_flag: b,
                            },
                            p2,
                        ),
                    ),
                }
            } else {
                Ok(
                    (
                        ChromaInfo {
                            chroma_format: spec_chroma_format(idc),
                            separate_colour_plane_flag: false,
                        },
                        p1,
                    ),
                )
            }
        },
    }
}

impl ChromaInfo {
    /// Parses the chroma info structure.
    pub fn read(r: &mut BitReader<'_>) -> (res: Result<ChromaInfo, SpsError>)
        requires
            old(r).wf(),
        ensures
            final(r).wf(),
            final(r).data() == old(r).data(),
            match res {
                Ok(v) => spec_read_chroma_info(old(r).data(), old(r).pos()) == Ok::<
                    (ChromaInfo, nat),
                    SpsError,
                >((v, final(r).pos())),
                Err(e) => spec_read_chroma_info(old(r).data(), old(r).pos()) == Err::<
                    (ChromaInfo, nat),
                    SpsError,
                >(e),
            },
    {
        proof {
            reveal(spec_read_chroma_info);
        }
        let chroma_format_idc = take_ue(r, "chroma_format_idc")?;
        let separate_colour_plane_flag = if chroma_format_idc == 3 {
            take_bool(r, "separate_colour_plane_flag")?
        } else {
            false
        };
        Ok(
            ChromaInfo {
                chroma_format: ChromaFormat::from_chroma_format_idc(chroma_format_idc),
                separate_colour_plane_flag,
            },
        )
    }
}

/// Window offsets, used for the conformance window and the VUI default
/// display window.
#[derive(Clone, Copy, Debug, PartialEq, Eq)]
pub struct Window {
    pub win_left_offset: u32,
    pub win_right_offset: u32,
    pub win_top_offset: u32,
    pub win_bottom_offset: u32,
}

/// The window syntax: a presence flag, then four Exp-Golomb offsets when
/// present.
#[verifier::opaque]
pub open spec fn spec_read_window(d: Seq<u8>, pos: nat) -> Result<(Option<Window>, nat), SpsError> {
    match spec_take_bool(d, pos, "window_flag") {
        Err(e) => Err(e),
        Ok((flag, p0)) => {
            if !flag {
                Ok((None, p0))
            } else {
                match spec_take_ue(d, p0, "win_left_offset") {
                    Err(e) => Err(e),
                    Ok((l, p1)) => match spec_take_ue(d, p1, "win_right_offset") {
                        Err(e) => Err(e),
                        Ok((rr, p2)) => match spec_take_ue(d, p2, "win_top_offset") {
                            Err(e) => Err(e),
                            Ok((t, p3)) => match spec_take_ue(d, p3, "win_bottom_offset") {
                                Err(e) => Err(e),
                                Ok((b, p4)) => Ok(
                                    (
                                        Some(
                                            Window {
                                                win_left_offset: l,
                                                win_right_offset: rr,
                                                win_top_offset: t,
                                                win_bottom_offset: b,
                                            },
                                        ),
                                        p4,
                                    ),
                                ),
                            },
                        },
                    },
                }
            }
        },
    }
}

impl Window {
    /// Parses an optional window structure.
    pub fn read(r: &mut BitReader<'_>) -> (res: Result<Option<Window>, SpsError>)
        requires
            old(r).wf(),
        ensures
            final(r).wf(),
            final(r).data() == old(r).data(),
            match res {
                Ok(v) => spec_read_window(old(r).data(), old(r).pos()) == Ok::<
                    (Option<Window>, nat),
                    SpsError,
                >((v, final(r).pos())),
                Err(e) => spec_read_window(old(r).data(), old(r).pos()) == Err::<
                    (Option<Window>, nat),
                    SpsError,
                >(e),
            },
    {
        proof {
            reveal(spec_read_window);
        }
        if take_bool(r, "window_flag")? {
            Ok(
                Some(
                    Window {
                        win_left_offset: take_ue(r, "win_left_offset")?,
                        win_right_offset: take_ue(r, "win_right_offset")?,
                        win_top_offset: take_ue(r, "win_top_offset")?,
                        win_bottom_offset: take_ue(r, "win_bottom_offset")?,
                    },
                ),
            )
        } else {
            Ok(None)
        }
    }
}

/// A video parameter set identifier (at most 15).
pub type VideoParamSetId = ParamSetId<15>;

/// A sequence parameter set identifier (at most 15).
pub type SeqParamSetId = ParamSetId<15>;

/// Per-sub-layer decoded picture buffer ordering limits.
#[derive(Clone, Copy, Debug, PartialEq, Eq)]
pub struct LayerInfo {
    pub sps_max_dec_pic_buffering_minus1: u32,
    pub sps_max_num_reorder_pics: u32,
    pub sps_max_latency_increase_plus1: u32,
}

/// The parser of one sub-layer ordering-info triple, as a value.
pub open spec fn spec_layer_info_one() -> spec_fn(Seq<u8>, nat) -> Result<
    (LayerInfo, nat),
    SpsError,
> {
    (|d: Seq<u8>, pos: nat|
        match spec_take_ue(d, pos, "sps_max_dec_pic_buffering_minus1") {
            Err(e) => Err(e),
            Ok((buf, p1)) => match spec_take_ue(d, p1, "sps_max_num_reorder_pics") {
                Err(e) => Err(e),
                Ok((reorder, p2)) => match spec_take_ue(d, p2, "sps_max_latency_increase_plus1") {
                    Err(e) => Err(e),
                    Ok((lat, p3)) => Ok(
                        (
                            LayerInfo {
                                sps_max_dec_pic_buffering_minus1: buf,
                                sps_max_num_reorder_pics: reorder,
                                sps_max_latency_increase_plus1: lat,
                            },
                            p3,
                        ),
                    ),
                },
            },
        })
}

/// The sub-layer ordering-info syntax: the count ceiling check, a presence
/// flag, then one triple per sub-layer when present and a single shared
/// triple otherwise.
#[verifier::opaque]
pub open spec fn spec_read_layer_infos(d: Seq<u8>, pos: nat, max_sub: u8) -> Result<
    (Seq<LayerInfo>, nat),
    SpsError,
> {
    match spec_validate_max_sub_layers(max_sub) {
        Err(e) => Err(e),
        Ok(_) => match spec_take_bool(d, pos, "sps_sub_layer_ordering_info_present_flag") {
            Err(e) => Err(e),
            Ok((present, p0)) => {
                if present {
                    spec_read_list(d, p0, (max_sub + 1) as nat, spec_layer_info_one())
                } else {
                    match spec_layer_info_one()(d, p0) {
                        Err(e) => Err(e),
                        Ok((li, p1)) => Ok((seq![li], p1)),
                    }
                }
            },
        },
    }
}

impl LayerInfo {
    /// Parses one ordering-info triple.
    fn read_layer(r: &mut BitReader<'_>) -> (res: Result<LayerInfo, SpsError>)
        requires
            old(r).wf(),
        ensures
            final(r).wf(),
            final(r).data() == old(r).data(),
            match res {
                Ok(v) => spec_layer_info_one()(old(r).data(), old(r).pos()) == Ok::<
                    (LayerInfo, nat),
                    SpsError,
                >((v, final(r).pos())),
                Err(e) => spec_layer_info_one()(old(r).data(), old(r).pos()) == Err::<
                    (LayerInfo, nat),
                    SpsError,
                >(e),
            },
    {
        Ok(
            LayerInfo {
                sps_max_dec_pic_buffering_minus1: take_ue(r, "sps_max_dec_pic_buffering_minus1")?,
                sps_max_num_reorder_pics: take_ue(r, "sps_max_num_reorder_pics")?,
                sps_max_latency_increase_plus1: take_ue(r, "sps_max_latency_increase_plus1")?,
            },
        )
    }

    /// Parses the sub-layer ordering info.
    #[verifier::spinoff_prover]
    #[verifier::rlimit(100)]
    pub fn read(r: &mut BitReader<'_>, sps_max_sub_layers_minus1: u8) -> (res: Result<
        Vec<LayerInfo>,
        SpsError,
    >)
        requires
            old(r).wf(),
        ensures
            final(r).wf(),
            final(r).data() == old(r).data(),
            match res {
                Ok(v) => spec_read_layer_infos(old(r).data(), old(r).pos(), sps_max_sub_layers_minus1)
                    == Ok::<(Seq<LayerInfo>, nat), SpsError>((v@, final(r).pos())),
                Err(e) => spec_read_layer_infos(
                    old(r).data(),
                    old(r).pos(),
                    sps_max_sub_layers_minus1,
                ) == Err::<(Seq<LayerInfo>, nat), SpsError>(e),
            },
    {
        proof {
            reveal(spec_read_layer_infos);
        }
        validate_max_sub_layers(sps_max_sub_layers_minus1)?;
        let present = take_bool(r, "sps_sub_layer_ordering_info_present_flag")?;
        if !present {
            let li = Self::read_layer(r)?;
            let mut v: Vec<LayerInfo> = Vec::new();
            v.push(li);
            proof {
                assert(v@ =~= seq![li]);
            }
            return Ok(v);
        }
        let ghost d = old(r).data();
        let ghost pos0 = r.pos();
        let ghost one = spec_layer_info_one();
        let count: u8 = sps_max_sub_layers_minus1 + 1;
        let mut v: Vec<LayerInfo> = Vec::new();
        let mut i: u8 = 0;
        while i < count
            invariant
                r.wf(),
                r.data() == d,
                d == old(r).data(),
                one == spec_layer_info_one(),
                i <= count,
                count == sps_max_sub_layers_minus1 + 1,
                v@.len() == i as nat,
                spec_read_list(d, pos0, i as nat, one) == Ok::<(Seq<LayerInfo>, nat), SpsError>(
                    (v@, r.pos()),
                ),
                match spec_read_list(d, pos0, count as nat, one) {
                    Ok((s, p)) => spec_read_layer_infos(d, old(r).pos(), sps_max_sub_layers_minus1)
                        == Ok::<(Seq<LayerInfo>, nat), SpsError>((s, p)),
                    Err(e) => spec_read_layer_infos(d, old(r).pos(), sps_max_sub_layers_minus1)
                        == Err::<(Seq<LayerInfo>, nat), SpsError>(e),
                },
            decreases count - i,
        {
            let ghost vg = v@;
            let ghost p = r.pos();
            let x = match Self::read_layer(r) {
                Ok(x) => x,
                Err(e) => {
                    proof {
                        lemma_read_list_error(d, pos0, i as nat, count as nat, one, vg, p, e);
                    }
                    return Err(e);
                },
            };
            proof {
                lemma_read_list_extend(d, pos0, i as nat, one, vg, p, x, r.pos());
            }
            v.push(x);
            i = i + 1;
        }
        Ok(v)
    }
}

/// A scaling-list presence marker: the list data is consumed to keep the
/// cursor aligned, but its contents are not retained.
#[derive(Clone, Copy, Debug, PartialEq, Eq)]
pub struct ScalingList;

/// The parser of one discarded `scaling_list_delta_coef` field, as a value.
pub open spec fn spec_delta_coef_one() -> spec_fn(Seq<u8>, nat) -> Result<((), nat), SpsError> {
    (|d: Seq<u8>, pos: nat|
        match spec_take_se(d, pos, "scaling_list_delta_coef") {
            Err(e) => Err(e),
            Ok((_, p)) => Ok((((), p))),
        })
}

/// One scaling matrix: either a predicted-mode reference delta, or an
/// explicit list (with a DC coefficient for the larger size classes and 16
/// or 64 delta coefficients), all consumed and discarded.
#[verifier::opaque]
pub open spec fn spec_read_scaling_matrix(d: Seq<u8>, pos: nat, size_id: u8) -> Result<
    ((), nat),
    SpsError,
> {
    match spec_take_bool(d, pos, "scaling_list_pred_mode_flag") {
        Err(e) => Err(e),
        Ok((pred_mode, p0)) => {
            if !pred_mode {
                match spec_take_ue(d, p0, "scaling_list_pred_matrix_id_delta") {
                    Err(e) => Err(e),
                    Ok((_, p1)) => Ok((((), p1))),
                }
            } else {
                let step_dc = if size_id > 1 {
                    match spec_take_se(d, p0, "scaling_list_dc_coef_minus8") {
                        Err(e) => Err(e),
                        Ok((_, p1)) => Ok(p1),
                    }
                } else {
                    Ok(p0)
                };
                match step_dc {
                    Err(e) => Err(e),
                    Ok(p1) => {
                        let coef_num: nat = if size_id == 0 {
                            16
                        } else {
                            64
                        };
                        match spec_read_list(d, p1, coef_num, spec_delta_coef_one()) {
                            Err(e) => Err(e),
                            Ok((_, p2)) => Ok((((), p2))),
                        }
                    },
                }
            }
        },
    }
}

/// The parser of one scaling matrix of a size class, as a value.
pub open spec fn spec_scaling_matrix_one(size_id: u8) -> spec_fn(Seq<u8>, nat) -> Result<
    ((), nat),
    SpsError,
> {
    (|d: Seq<u8>, pos: nat| spec_read_scaling_matrix(d, pos, size_id))
}

/// The full scaling-list data scan: six matrices for each of the three
/// smaller size classes and two for the largest, consumed and discarded so
/// that every later field stays aligned.
#[verifier::opaque]
pub open spec fn spec_read_scaling_list_data(d: Seq<u8>, pos: nat) -> Result<((), nat), SpsError> {
    match spec_read_list(d, pos, 6, spec_scaling_matrix_one(0)) {
        Err(e) => Err(e),
        Ok((_, p0)) => match spec_read_list(d, p0, 6, spec_scaling_matrix_one(1)) {
            Err(e) => Err(e),
            Ok((_, p1)) => match spec_read_list(d, p1, 6, spec_scaling_matrix_one(2)) {
                Err(e) => Err(e),
                Ok((_, p2)) => match spec_read_list(d, p2, 2, spec_scaling_matrix_one(3)) {
                    Err(e) => Err(e),
                    Ok((_, p3)) => Ok((((), p3))),
                },
            },
        },
    }
}

/// The scaling-list syntax: an enabled flag, then a data-present flag, then
/// the full data scan when explicit data follows.
#[verifier::opaque]
pub open spec fn spec_read_scaling_list(d: Seq<u8>, pos: nat) -> Result<
    (Option<ScalingList>, nat),
    SpsError,
> {
    match spec_take_bool(d, pos, "scaling_list_enabled_flag") {
        Err(e) => Err(e),
        Ok((enabled, p0)) => {
            if !enabled {
                Ok((None, p0))
            } else {
                match spec_take_bool(d, p0, "sps_scaling_list_data_present_flag") {
                    Err(e) => Err(e),
                    Ok((data_present, p1)) => {
                        if data_present {
                            match spec_read_scaling_list_data(d, p1) {
                                Err(e) => Err(e),
                                Ok((_, p2)) => Ok((Some(ScalingList), p2)),
                            }
                        } else {
                            Ok((Some(ScalingList), p1))
                        }
                    },
                }
            }
        },
    }
}

/// Skips `count` discarded delta coefficients.
fn skip_delta_coefs(r: &mut BitReader<'_>, count: u8) -> (res: Result<(), SpsError>)
    requires
        old(r).wf(),
    ensures
        final(r).wf(),
        final(r).data() == old(r).data(),
        match res {
            Ok(_) => spec_read_list(old(r).data(), old(r).pos(), count as nat, spec_delta_coef_one())
                == Ok::<(Seq<()>, nat), SpsError>((unit_seq(count as nat), final(r).pos())),
            Err(e) => spec_read_list(
                old(r).data(),
                old(r).pos(),
                count as nat,
                spec_delta_coef_one(),
            ) == Err::<(Seq<()>, nat), SpsError>(e),
        },
{
    let ghost d = old(r).data();
    let ghost pos0 = old(r).pos();
    let ghost one = spec_delta_coef_one();
    let mut i: u8 = 0;
    proof {
        assert(unit_seq(0) =~= Seq::<()>::empty());
    }
    while i < count
        invariant
            r.wf(),
            r.data() == d,
            d == old(r).data(),
            pos0 == old(r).pos(),
            one == spec_delta_coef_one(),
            i <= count,
            spec_read_list(d, pos0, i as nat, one) == Ok::<(Seq<()>, nat), SpsError>(
                (unit_seq(i as nat), r.pos()),
            ),
        decreases count - i,
    {
        let ghost p = r.pos();
        match take_se(r, "scaling_list_delta_coef") {
            Ok(_) => {},
            Err(e) => {
                proof {
                    lemma_read_list_error(
                        d,
                        pos0,
                        i as nat,
                        count as nat,
                        one,
                        unit_seq(i as nat),
                        p,
                        e,
                    );
                }
                return Err(e);
            },
        };
        proof {
            lemma_read_list_extend(d, pos0, i as nat, one, unit_seq(i as nat), p, (), r.pos());
            assert(unit_seq(i as nat).push(()) =~= unit_seq((i + 1) as nat));
        }
        i = i + 1;
    }
    Ok(())
}

/// Consumes one scaling matrix of the given size class.
fn read_scaling_matrix(r: &mut BitReader<'_>, size_id: u8) -> (res: Result<(), SpsError>)
    requires
        old(r).wf(),
    ensures
        final(r).wf(),
        final(r).data() == old(r).data(),
        match res {
            Ok(_) => spec_read_scaling_matrix(old(r).data(), old(r).pos(), size_id) == Ok::<
                ((), nat),
                SpsError,
            >(((), final(r).pos())),
            Err(e) => spec_read_scaling_matrix(old(r).data(), old(r).pos(), size_id) == Err::<
                ((), nat),
                SpsError,
            >(e),
        },
{
    proof {
        reveal(spec_read_scaling_matrix);
    }
    let pred_mode = take_bool(r, "scaling_list_pred_mode_flag")?;
    if !pred_mode {
        let _ = take_ue(r, "scaling_list_pred_matrix_id_delta")?;
        return Ok(());
    }
    if size_id > 1 {
        let _ = take_se(r, "scaling_list_dc_coef_minus8")?;
    }
    let coef_num: u8 = if size_id == 0 {
        16
    } else {
        64
    };
    skip_delta_coefs(r, coef_num)?;
    Ok(())
}

/// Consumes `count` scaling matrices of the given size class.
fn read_scaling_matrices(r: &mut BitReader<'_>, size_id: u8, count: u8) -> (res: Result<
    (),
    SpsError,
>)
    requires
        old(r).wf(),
    ensures
        final(r).wf(),
        final(r).data() == old(r).data(),
        match res {
            Ok(_) => spec_read_list(
                old(r).data(),
                old(r).pos(),
                count as nat,
                spec_scaling_matrix_one(size_id),
            ) == Ok::<(Seq<()>, nat), SpsError>((unit_seq(count as nat), final(r).pos())),
            Err(e) => spec_read_list(
                old(r).data(),
                old(r).pos(),
                count as nat,
                spec_scaling_matrix_one(size_id),
            ) == Err::<(Seq<()>, nat), SpsError>(e),
        },
{
    let ghost d = old(r).data();
    let ghost pos0 = old(r).pos();
    let ghost one = spec_scaling_matrix_one(size_id);
    let mut i: u8 = 0;
    proof {
        assert(unit_seq(0) =~= Seq::<()>::empty());
    }
    while i < count
        invariant
            r.wf(),
            r.data() == d,
            d == old(r).data(),
            pos0 == old(r).pos(),
            one == spec_scaling_matrix_one(size_id),
            i <= count,
            spec_read_list(d, pos0, i as nat, one) == Ok::<(Seq<()>, nat), SpsError>(
                (unit_seq(i as nat), r.pos()),
            ),
        decreases count - i,
    {
        let ghost p = r.pos();
        match read_scaling_matrix(r, size_id) {
            Ok(_) => {},
            Err(e) => {
                proof {
                    lemma_read_list_error(
                        d,
                        pos0,
                        i as nat,
                        count as nat,
                        one,
                        unit_seq(i as nat),
                        p,
                        e,
                    );
                }
                return Err(e);
            },
        };
        proof {
            lemma_read_list_extend(d, pos0, i as nat, one, unit_seq(i as nat), p, (), r.pos());
            assert(unit_seq(i as nat).push(()) =~= unit_seq((i + 1) as nat));
        }
        i = i + 1;
    }
    Ok(())
}

impl ScalingList {
    /// Consumes the full scaling-list data scan.
    fn read_scaling_list(r: &mut BitReader<'_>) -> (res: Result<ScalingList, SpsError>)
        requires
            old(r).wf(),
        ensures
            final(r).wf(),
            final(r).data() == old(r).data(),
            match res {
                Ok(_) => spec_read_scaling_list_data(old(r).data(), old(r).pos()) == Ok::<
                    ((), nat),
                    SpsError,
                >(((), final(r).pos())),
                Err(e) => spec_read_scaling_list_data(old(r).data(), old(r).pos()) == Err::<
                    ((), nat),
                    SpsError,
                >(e),
            },
    {
        proof {
            reveal(spec_read_scaling_list_data);
        }
        read_scaling_matrices(r, 0, 6)?;
        read_scaling_matrices(r, 1, 6)?;
        read_scaling_matrices(r, 2, 6)?;
        read_scaling_matrices(r, 3, 2)?;
        Ok(ScalingList)
    }

    /// Parses the optional scaling list.
    pub fn read(r: &mut BitReader<'_>) -> (res: Result<Option<ScalingList>, SpsError>)
        requires
            old(r).wf(),
        ensures
            final(r).wf(),
            final(r).data() == old(r).data(),
            match res {
                Ok(v) => spec_read_scaling_list(old(r).data(), old(r).pos()) == Ok::<
                    (Option<ScalingList>, nat),
                    SpsError,
                >((v, final(r).pos())),
                Err(e) => spec_read_scaling_list(old(r).data(), old(r).pos()) == Err::<
                    (Option<ScalingList>, nat),
                    SpsError,
                >(e),
            },
    {
        proof {
            reveal(spec_read_scaling_list);
        }
        if take_bool(r, "scaling_list_enabled_flag")? {
            if take_bool(r, "sps_scaling_list_data_present_flag")? {
                Ok(Some(Self::read_scaling_list(r)?))
            } else {
                Ok(Some(ScalingList))
            }
        } else {
            Ok(None)
        }
    }
}

/// Pulse-code-modulation coding parameters.
#[derive(Clone, Copy, Debug, PartialEq, Eq)]
pub struct Pcm {
    pub pcm_sample_bit_depth_luma_minus1: u8,
    pub pcm_sample_bit_depth_chroma_minus1: u8,
    pub log2_min_pcm_luma_coding_block_size_minus3: u32,
    pub log2_diff_max_min_pcm_luma_coding_block_size: u32,
    pub pcm_loop_filter_disabled: bool,
}

/// The PCM syntax: an enabled flag, then two 4-bit depths, two Exp-Golomb
/// block sizes, and the loop-filter flag.
#[verifier::opaque]
pub open spec fn spec_read_pcm(d: Seq<u8>, pos: nat) -> Result<(Option<Pcm>, nat), SpsError> {
    match spec_take_bool(d, pos, "pcm_enabled_flag") {
        Err(e) => Err(e),
        Ok((enabled, p0)) => {
            if !enabled {
                Ok((None, p0))
            } else {
                match spec_take_u8(d, p0, 4, "pcm_sample_bit_depth_luma_minus1") {
                    Err(e) => Err(e),
                    Ok((dl, p1)) => match spec_take_u8(d, p1, 4, "pcm_sample_bit_depth_chroma_minus1") {
                        Err(e) => Err(e),
                        Ok((dc, p2)) => match spec_take_ue(
                            d,
                            p2,
                            "log2_min_pcm_luma_coding_block_size_minus3",
                        ) {
                            Err(e) => Err(e),
                            Ok((mn, p3)) => match spec_take_ue(
                                d,
                                p3,
                                "log2_diff_max_min_pcm_luma_coding_block_size",
                            ) {
                                Err(e) => Err(e),
                                Ok((df, p4)) => match spec_take_bool(d, p4, "pcm_loop_filter_disabled") {
                                    Err(e) => Err(e),
                                    Ok((lf, p5)) => Ok(
                                        (
                                            Some(
                                                Pcm {
                                                    pcm_sample_bit_depth_luma_minus1: dl,
                                                    pcm_sample_bit_depth_chroma_minus1: dc,
                                                    log2_min_pcm_luma_coding_block_size_minus3: mn,
                                                    log2_diff_max_min_pcm_luma_coding_block_size: df,
                                                    pcm_loop_filter_disabled: lf,
                                                },
                                            ),
                                            p5,
                                        ),
                                    ),
                                },
                            },
                        },
                    },
                }
            }
        },
    }
}

impl Pcm {
    /// Parses the optional PCM parameters.
    pub fn read(r: &mut BitReader<'_>) -> (res: Result<Option<Pcm>, SpsError>)
        requires
            old(r).wf(),
        ensures
            final(r).wf(),
            final(r).data() == old(r).data(),
            match res {
                Ok(v) => spec_read_pcm(old(r).data(), old(r).pos()) == Ok::<
                    (Option<Pcm>, nat),
                    SpsError,
                >((v, final(r).pos())),
                Err(e) => spec_read_pcm(old(r).data(), old(r).pos()) == Err::<
                    (Option<Pcm>, nat),
                    SpsError,
                >(e),
            },
    {
        proof {
            reveal(spec_read_pcm);
        }
        if take_bool(r, "pcm_enabled_flag")? {
            Ok(
                Some(
                    Pcm {
                        pcm_sample_bit_depth_luma_minus1: take_u8(
                            r,
                            4,
                            "pcm_sample_bit_depth_luma_minus1",
                        )?,
                        pcm_sample_bit_depth_chroma_minus1: take_u8(
                            r,
                            4,
                            "pcm_sample_bit_depth_chroma_minus1",
                        )?,
                        log2_min_pcm_luma_coding_block_size_minus3: take_ue(
                            r,
                            "log2_min_pcm_luma_coding_block_size_minus3",
                        )?,
                        log2_diff_max_min_pcm_luma_coding_block_size: take_ue(
                            r,
                            "log2_diff_max_min_pcm_luma_coding_block_size",
                        )?,
                        pcm_loop_filter_disabled: take_bool(r, "pcm_loop_filter_disabled")?,
                    },
                ),
            )
        } else {
            Ok(None)
        }
    }
}

/// An SPS extension marker. The four specific extensions are recognized but
/// not supported: encountering one is an explicit `Unimplemented` failure.
#[derive(Clone, Copy, Debug, PartialEq, Eq)]
pub struct SpsExtension;

/// The position after consuming extension data bits up to the trailing
/// pattern: advances while a set bit remains strictly ahead.
pub open spec fn spec_skip_extension_data(d: Seq<u8>, pos: nat) -> nat
    decreases total_bits(d) - pos,
{
    if spec_has_more(d, pos) {
        spec_skip_extension_data(d, pos + 1)
    } else {
        pos
    }
}

/// The SPS extension syntax: a presence flag; when present, four extension
/// flags (each a recognized but unsupported extension) and a 4-bit field
/// whose nonzero value makes the remaining extension data bits be consumed.
#[verifier::opaque]
pub open spec fn spec_read_sps_extension(d: Seq<u8>, pos: nat) -> Result<
    (Option<SpsExtension>, nat),
    SpsError,
> {
    match spec_take_bool(d, pos, "sps_extension_present_flag") {
        Err(e) => Err(e),
        Ok((present, p0)) => {
            if !present {
                Ok((None, p0))
            } else {
                match spec_take_bool(d, p0, "sps_range_extension_flag") {
                    Err(e) => Err(e),
                    Ok((range, p1)) => match spec_take_bool(d, p1, "sps_multilayer_extension_flag") {
                        Err(e) => Err(e),
                        Ok((ml, p2)) => match spec_take_bool(d, p2, "sps_3d_extension_flag") {
                            Err(e) => Err(e),
                            Ok((t3d, p3)) => match spec_take_bool(d, p3, "sps_scc_extension_flag") {
                                Err(e) => Err(e),
                                Ok((scc, p4)) => match spec_take_u8(d, p4, 4, "sps_extension_4bits") {
                                    Err(e) => Err(e),
                                    Ok((ext4, p5)) => {
                                        if range {
                                            Err(SpsError::Unimplemented("sps_range_extension"))
                                        } else if ml {
                                            Err(SpsError::Unimplemented("sps_multilayer_extension"))
                                        } else if t3d {
                                            Err(SpsError::Unimplemented("sps_3d_extension"))
                                        } else if scc {
                                            Err(SpsError::Unimplemented("sps_scc_extension"))
                                        } else if ext4 != 0 {
                                            Ok((Some(SpsExtension), spec_skip_extension_data(d, p5)))
                                        } else {
                                            Ok((Some(SpsExtension), p5))
                                        }
                                    },
                                },
                            },
                        },
                    },
                }
            }
        },
    }
}

impl SpsExtension {
    /// Parses the optional SPS extension marker.
    fn read(r: &mut BitReader<'_>) -> (res: Result<Option<SpsExtension>, SpsError>)
        requires
            old(r).wf(),
        ensures
            final(r).wf(),
            final(r).data() == old(r).data(),
            match res {
                Ok(v) => spec_read_sps_extension(old(r).data(), old(r).pos()) == Ok::<
                    (Option<SpsExtension>, nat),
                    SpsError,
                >((v, final(r).pos())),
                Err(e) => spec_read_sps_extension(old(r).data(), old(r).pos()) == Err::<
                    (Option<SpsExtension>, nat),
                    SpsError,
                >(e),
            },
    {
        proof {
            reveal(spec_read_sps_extension);
        }
        let present = take_bool(r, "sps_extension_present_flag")?;
        if !present {
            return Ok(None);
        }
        let range = take_bool(r, "sps_range_extension_flag")?;
        let ml = take_bool(r, "sps_multilayer_extension_flag")?;
        let t3d = take_bool(r, "sps_3d_extension_flag")?;
        let scc = take_bool(r, "sps_scc_extension_flag")?;
        let ext4 = take_u8(r, 4, "sps_extension_4bits")?;
        if range {
            return Err(SpsError::Unimplemented("sps_range_extension"));
        }
        if ml {
            return Err(SpsError::Unimplemented("sps_multilayer_extension"));
        }
        if t3d {
            return Err(SpsError::Unimplemented("sps_3d_extension"));
        }
        if scc {
            return Err(SpsError::Unimplemented("sps_scc_extension"));
        }
        if ext4 != 0 {
            let ghost d = r.data();
            let ghost p5 = r.pos();
            while r.has_more_data()
                invariant
                    r.wf(),
                    r.data() == d,
                    d == old(r).data(),
                    spec_skip_extension_data(d, p5) == spec_skip_extension_data(d, r.pos()),
                decreases total_bits(r.data()) - r.pos(),
            {
                match r.read_bool("sps_extension_data_flag") {
                    Ok(_) => {},
                    Err(_) => {
                        proof {
                            assert(false);
                        }
                        return Err(SpsError::Unimplemented("sps_extension_data"));
                    },
                };
            }
            proof {
                assert(spec_skip_extension_data(d, r.pos()) == r.pos());
            }
        }
        Ok(Some(SpsExtension))
    }
}

/// The sequence parameter set: every field of the SPS syntax, populated in
/// one top-to-bottom pass and immutable afterwards.
#[derive(Clone, Debug, PartialEq, Eq)]
pub struct SeqParameterSet {
    pub sps_video_parameter_set_id: VideoParamSetId,
    pub sps_max_sub_layers_minus1: u8,
    pub sps_temporal_id_nesting: bool,
    pub profile_tier_level: ProfileTierLevel,
    pub sps_seq_parameter_set_id: SeqParamSetId,
    pub chroma_info: ChromaInfo,
    pub pic_width_in_luma_samples: u32,
    pub pic_height_in_luma_samples: u32,
    pub conformance_window: Option<Window>,
    pub bit_depth_luma_minus8: u32,
    pub bit_depth_chroma_minus8: u32,
    pub log2_max_pic_order_cnt_lsb_minus4: u32,
    pub sub_layering_ordering_info: Vec<LayerInfo>,
    pub log2_min_luma_coding_block_size_minus3: u32,
    pub log2_diff_max_min_luma_coding_block_size: u32,
    pub log2_min_luma_transform_block_size_minus2: u32,
    pub log2_diff_max_min_luma_transform_block_size: u32,
    pub max_transform_hierarchy_depth_inter: u32,
    pub max_transform_hierarchy_depth_intra: u32,
    pub scaling_list: Option<ScalingList>,
    pub amp_enabled: bool,
    pub sample_adaptive_offset_enabled: bool,
    pub pcm: Option<Pcm>,
    pub st_ref_pic_sets: Vec<ShortTermRefPicSet>,
    pub long_term_ref_pics_sps: Option<Vec<LongTermRefPicSps>>,
    pub sps_termporal_mvp_enabled: bool,
    pub strong_intra_smoothing_enabled: bool,
    pub vui_parameters: Option<VuiParameters>,
    pub sps_extension: Option<SpsExtension>,
}

/// Mathematical model of a parsed sequence parameter set; the identifiers
/// appear as their numeric values.
#[verifier::ext_equal]
pub struct SeqParameterSetView {
    pub sps_video_parameter_set_id: u32,
    pub sps_max_sub_layers_minus1: u8,
    pub sps_temporal_id_nesting: bool,
    pub profile_tier_level: ProfileTierLevelView,
    pub sps_seq_parameter_set_id: u32,
    pub chroma_info: ChromaInfo,
    pub pic_width_in_luma_samples: u32,
    pub pic_height_in_luma_samples: u32,
    pub conformance_window: Option<Window>,
    pub bit_depth_luma_minus8: u32,
    pub bit_depth_chroma_minus8: u32,
    pub log2_max_pic_order_cnt_lsb_minus4: u32,
    pub sub_layering_ordering_info: Seq<LayerInfo>,
    pub log2_min_luma_coding_block_size_minus3: u32,
    pub log2_diff_max_min_luma_coding_block_size: u32,
    pub log2_min_luma_transform_block_size_minus2: u32,
    pub log2_diff_max_min_luma_transform_block_size: u32,
    pub max_transform_hierarchy_depth_inter: u32,
    pub max_transform_hierarchy_depth_intra: u32,
    pub scaling_list: Option<ScalingList>,
    pub amp_enabled: bool,
    pub sample_adaptive_offset_enabled: bool,
    pub pcm: Option<Pcm>,
    pub st_ref_pic_sets: Seq<ShortTermRefPicSetView>,
    pub long_term_ref_pics_sps: Option<Seq<LongTermRefPicSps>>,
    pub sps_termporal_mvp_enabled: bool,
    pub strong_intra_smoothing_enabled: bool,
    pub vui_parameters: Option<VuiParametersView>,
    pub sps_extension: Option<SpsExtension>,
}

impl View for SeqParameterSet {
    type V = SeqParameterSetView;

    open spec fn view(&self) -> SeqParameterSetView {
        SeqParameterSetView {
            sps_video_parameter_set_id: self.sps_video_parameter_set_id.spec_id(),
            sps_max_sub_layers_minus1: self.sps_max_sub_layers_minus1,
            sps_temporal_id_nesting: self.sps_temporal_id_nesting,
            profile_tier_level: self.profile_tier_level@,
            sps_seq_parameter_set_id: self.sps_seq_parameter_set_id.spec_id(),
            chroma_info: self.chroma_info,
            pic_width_in_luma_samples: self.pic_width_in_luma_samples,
            pic_height_in_luma_samples: self.pic_height_in_luma_samples,
            conformance_window: self.conformance_window,
            bit_depth_luma_minus8: self.bit_depth_luma_minus8,
            bit_depth_chroma_minus8: self.bit_depth_chroma_minus8,
            log2_max_pic_order_cnt_lsb_minus4: self.log2_max_pic_order_cnt_lsb_minus4,
            sub_layering_ordering_info: self.sub_layering_ordering_info@,
            log2_min_luma_coding_block_size_minus3: self.log2_min_luma_coding_block_size_minus3,
            log2_diff_max_min_luma_coding_block_size:
                self.log2_diff_max_min_luma_coding_block_size,
            log2_min_luma_transform_block_size_minus2:
                self.log2_min_luma_transform_block_size_minus2,
            log2_diff_max_min_luma_transform_block_size:
                self.log2_diff_max_min_luma_transform_block_size,
            max_transform_hierarchy_depth_inter: self.max_transform_hierarchy_depth_inter,
            max_transform_hierarchy_depth_intra: self.max_transform_hierarchy_depth_intra,
            scaling_list: self.scaling_list,
            amp_enabled: self.amp_enabled,
            sample_adaptive_offset_enabled: self.sample_adaptive_offset_enabled,
            pcm: self.pcm,
            st_ref_pic_sets: views_of_rps(self.st_ref_pic_sets@),
            long_term_ref_pics_sps: view_of_long_term(self.long_term_ref_pics_sps),
            sps_termporal_mvp_enabled: self.sps_termporal_mvp_enabled,
            strong_intra_smoothing_enabled: self.strong_intra_smoothing_enabled,
            vui_parameters: view_of_vui(self.vui_parameters),
            sps_extension: self.sps_extension,
        }
    }
}

/// The SPS syntax end to end: every field in bitstream order, the syntax
/// structures through their own parsers, and finally the RBSP trailing
/// pattern, with every error surfaced exactly where it arises.
#[verifier::opaque]
pub open spec fn spec_parse_sps(d: Seq<u8>, pos: nat) -> Result<SeqParameterSetView, SpsError> {
    match spec_take_u8(d, pos, 4, "sps_video_parameter_set_id") {
        Err(e) => Err(e),
        Ok((vps_raw, p1)) => match spec_take_u8(d, p1, 3, "sps_max_sub_layers_minus1") {
            Err(e) => Err(e),
            Ok((max_sub, p2)) => {
                if vps_raw > 15 {
                    Err(SpsError::BadVideoParamSetId(ParamSetIdError::IdTooLarge(vps_raw as u32)))
                } else {
                    match spec_take_bool(d, p2, "sps_temporal_id_nesting_flag") {
                        Err(e) => Err(e),
                        Ok((nesting, p3)) => match spec_read_ptl(d, p3, true, max_sub) {
                            Err(e) => Err(e),
                            Ok((ptl, p4)) => match spec_take_ue(d, p4, "seq_parameter_set_id") {
                                Err(e) => Err(e),
                                Ok((sid, p5)) => {
                                    if sid > 15 {
                                        Err(SpsError::BadSeqParamSetId(ParamSetIdError::IdTooLarge(sid)))
                                    } else {
                                        spec_parse_sps_tail(d, p5, vps_raw, max_sub, nesting, ptl, sid)
                                    }
                                },
                            },
                        },
                    }
                }
            },
        },
    }
}

/// The SPS syntax after the identifiers: chroma info through the extension
/// marker and the trailing-pattern check.
#[verifier::opaque]
pub open spec fn spec_parse_sps_tail(
    d: Seq<u8>,
    pos: nat,
    vps_raw: u8,
    max_sub: u8,
    nesting: bool,
    ptl: ProfileTierLevelView,
    sid: u32,
) -> Result<SeqParameterSetView, SpsError> {
    match spec_read_chroma_info(d, pos) {
        Err(e) => Err(e),
        Ok((ci, p6)) => match spec_take_ue(d, p6, "pic_width_in_luma_samples") {
            Err(e) => Err(e),
            Ok((w, p7)) => match spec_take_ue(d, p7, "pic_height_in_luma_samples") {
                Err(e) => Err(e),
                Ok((h, p8)) => match spec_read_window(d, p8) {
                    Err(e) => Err(e),
                    Ok((cw, p9)) => match spec_take_ue(d, p9, "bit_depth_luma_minus8") {
                        Err(e) => Err(e),
                        Ok((bdl, p10)) => match spec_take_ue(d, p10, "bit_depth_chroma_minus8") {
                            Err(e) => Err(e),
                            Ok((bdc, p11)) => match spec_take_ue(
                                d,
                                p11,
                                "log2_max_pic_order_cnt_lsb_minus4",
                            ) {
                                Err(e) => Err(e),
                                Ok((poc, p12)) => match spec_read_layer_infos(d, p12, max_sub) {
                                    Err(e) => Err(e),
                                    Ok((lis, p13)) => spec_parse_sps_blocks(
                                        d,
                                        p13,
                                        vps_raw,
                                        max_sub,
                                        nesting,
                                        ptl,
                                        sid,
                                        ci,
                                        w,
                                        h,
                                        cw,
                                        bdl,
                                        bdc,
                                        poc,
                                        lis,
                                    ),
                                },
                            },
                        },
                    },
                },
            },
        },
    }
}

/// The SPS syntax from the block-size fields on.
#[verifier::opaque]
pub open spec fn spec_parse_sps_blocks(
    d: Seq<u8>,
    pos: nat,
    vps_raw: u8,
    max_sub: u8,
    nesting: bool,
    ptl: ProfileTierLevelView,
    sid: u32,
    ci: ChromaInfo,
    w: u32,
    h: u32,
    cw: Option<Window>,
    bdl: u32,
    bdc: u32,
    poc: u32,
    lis: Seq<LayerInfo>,
) -> Result<SeqParameterSetView, SpsError> {
    match spec_take_ue(d, pos, "log2_min_luma_coding_block_size_minus3") {
        Err(e) => Err(e),
        Ok((cb_min, p14)) => match spec_take_ue(d, p14, "log2_diff_max_min_luma_coding_block_size") {
            Err(e) => Err(e),
            Ok((cb_diff, p15)) => match spec_take_ue(
                d,
                p15,
                "log2_min_luma_transform_block_size_minus2",
            ) {
                Err(e) => Err(e),
                Ok((tb_min, p16)) => match spec_take_ue(
                    d,
                    p16,
                    "log2_diff_max_min_luma_transform_block_size",
                ) {
                    Err(e) => Err(e),
                    Ok((tb_diff, p17)) => match spec_take_ue(
                        d,
                        p17,
                        "max_transform_hierarchy_depth_inter",
                    ) {
                        Err(e) => Err(e),
                        Ok((th_inter, p18)) => match spec_take_ue(
                            d,
                            p18,
                            "max_transform_hierarchy_depth_intra",
                        ) {
                            Err(e) => Err(e),
                            Ok((th_intra, p19)) => match spec_read_scaling_list(d, p19) {
                                Err(e) => Err(e),
                                Ok((sl, p20)) => match spec_take_bool(d, p20, "amp_enabled") {
                                    Err(e) => Err(e),
                                    Ok((amp, p21)) => match spec_take_bool(
                                        d,
                                        p21,
                                        "sample_adaptive_offset_enabled",
                                    ) {
                                        Err(e) => Err(e),
                                        Ok((sao, p22)) => match spec_read_pcm(d, p22) {
                                            Err(e) => Err(e),
                                            Ok((pcm, p23)) => match spec_read_st_rps_collection(
                                                d,
                                                p23,
                                            ) {
                                                Err(e) => Err(e),
                                                Ok((sets, p24)) => match spec_read_long_term(d, p24) {
                                                    Err(e) => Err(e),
                                                    Ok((lt, p25)) => match spec_take_bool(
                                                        d,
                                                        p25,
                                                        "sps_termporal_mvp_enabled",
                                                    ) {
                                                        Err(e) => Err(e),
                                                        Ok((mvp, p26)) => match spec_take_bool(
                                                            d,
                                                            p26,
                                                            "strong_intra_smoothing_enabled",
                                                        ) {
                                                            Err(e) => Err(e),
                                                            Ok((sis, p27)) => match spec_read_vui(
                                                                d,
                                                                p27,
                                                                true,
                                                                max_sub,
                                                            ) {
                                                                Err(e) => Err(e),
                                                                Ok((vui, p28)) => match spec_read_sps_extension(
                                                                    d,
                                                                    p28,
                                                                ) {
                                                                    Err(e) => Err(e),
                                                                    Ok((ext, p29)) => match spec_finish(
                                                                        d,
                                                                        p29,
                                                                        "rbsp_trailing_bits",
                                                                    ) {
                                                                        Err(e) => Err(
                                                                            SpsError::RbspReaderError(e),
                                                                        ),
                                                                        Ok(_) => Ok(
                                                                            SeqParameterSetView {
                                                                                sps_video_parameter_set_id:
                                                                                    vps_raw as u32,
                                                                                sps_max_sub_layers_minus1:
                                                                                    max_sub,
                                                                                sps_temporal_id_nesting:
                                                                                    nesting,
                                                                                profile_tier_level: ptl,
                                                                                sps_seq_parameter_set_id:
                                                                                    sid,
                                                                                chroma_info: ci,
                                                                                pic_width_in_luma_samples:
                                                                                    w,
                                                                                pic_height_in_luma_samples:
                                                                                    h,
                                                                                conformance_window: cw,
                                                                                bit_depth_luma_minus8:
                                                                                    bdl,
                                                                                bit_depth_chroma_minus8:
                                                                                    bdc,
                                                                                log2_max_pic_order_cnt_lsb_minus4:
                                                                                    poc,
                                                                                sub_layering_ordering_info:
                                                                                    lis,
                                                                                log2_min_luma_coding_block_size_minus3:
                                                                                    cb_min,
                                                                                log2_diff_max_min_luma_coding_block_size:
                                                                                    cb_diff,
                                                                                log2_min_luma_transform_block_size_minus2:
                                                                                    tb_min,
                                                                                log2_diff_max_min_luma_transform_block_size:
                                                                                    tb_diff,
                                                                                max_transform_hierarchy_depth_inter:
                                                                                    th_inter,
                                                                                max_transform_hierarchy_depth_intra:
                                                                                    th_intra,
                                                                                scaling_list: sl,
                                                                                amp_enabled: amp,
                                                                                sample_adaptive_offset_enabled:
                                                                                    sao,
                                                                                pcm,
                                                                                st_ref_pic_sets: sets,
                                                                                long_term_ref_pics_sps:
                                                                                    lt,
                                                                                sps_termporal_mvp_enabled:
                                                                                    mvp,
                                                                                strong_intra_smoothing_enabled:
                                                                                    sis,
                                                                                vui_parameters: vui,
                                                                                sps_extension: ext,
                                                                            },
                                                                        ),
                                                                    },
                                                                },
                                                            },
                                                        },
                                                    },
                                                },
                                            },
                                        },
                                    },
                                },
                            },
                        },
                    },
                },
            },
        },
    }
}

impl SeqParameterSet {
    /// A parsed SPS carries a well-formed profile/tier/level structure.
    pub open spec fn wf(self) -> bool {
        self.profile_tier_level.wf()
    }

    /// Validates the shared sub-layer count ceiling.
    pub fn validate_max_num_sub_layers_minus1(max_num_sub_layers_minus1: u8) -> (res: Result<
        (),
        SpsError,
    >)
        ensures
            res == spec_validate_max_sub_layers(max_num_sub_layers_minus1),
    {
        validate_max_sub_layers(max_num_sub_layers_minus1)
    }

    /// Parses a whole sequence parameter set from a reader positioned at the
    /// start of the RBSP payload, validating the trailing pattern at the
    /// end.
    #[verifier::spinoff_prover]
    #[verifier::rlimit(100)]
    pub fn from_bits(r: BitReader<'_>) -> (res: Result<SeqParameterSet, SpsError>)
        requires
            r.wf(),
        ensures
            match res {
                Ok(sps) => spec_parse_sps(r.data(), r.pos()) == Ok::<SeqParameterSetView, SpsError>(
                    sps@,
                ) && sps.wf(),
                Err(e) => spec_parse_sps(r.data(), r.pos()) == Err::<SeqParameterSetView, SpsError>(
                    e,
                ),
            },
    {
        proof {
            reveal(spec_parse_sps);
            reveal(spec_parse_sps_tail);
            reveal(spec_parse_sps_blocks);
        }
        let mut rr = r;
        let rm = &mut rr;
        let vps_raw = take_u8(rm, 4, "sps_video_parameter_set_id")?;
        let sps_max_sub_layers_minus1 = take_u8(rm, 3, "sps_max_sub_layers_minus1")?;
        let sps_video_parameter_set_id = match ParamSetId::<15>::from_u32(vps_raw as u32) {
            Ok(id) => id,
            Err(e) => {
                return Err(SpsError::BadVideoParamSetId(e));
            },
        };
        let sps_temporal_id_nesting = take_bool(rm, "sps_temporal_id_nesting_flag")?;
        let profile_tier_level = ProfileTierLevel::read(rm, true, sps_max_sub_layers_minus1)?;
        let sid = take_ue(rm, "seq_parameter_set_id")?;
        let sps_seq_parameter_set_id = match ParamSetId::<15>::from_u32(sid) {
            Ok(id) => id,
            Err(e) => {
                return Err(SpsError::BadSeqParamSetId(e));
            },
        };
        let chroma_info = ChromaInfo::read(rm)?;
        let pic_width_in_luma_samples = take_ue(rm, "pic_width_in_luma_samples")?;
        let pic_height_in_luma_samples = take_ue(rm, "pic_height_in_luma_samples")?;
        let conformance_window = Window::read(rm)?;
        let bit_depth_luma_minus8 = take_ue(rm, "bit_depth_luma_minus8")?;
        let bit_depth_chroma_minus8 = take_ue(rm, "bit_depth_chroma_minus8")?;
        let log2_max_pic_order_cnt_lsb_minus4 = take_ue(rm, "log2_max_pic_order_cnt_lsb_minus4")?;
        let sub_layering_ordering_info = LayerInfo::read(rm, sps_max_sub_layers_minus1)?;
        let log2_min_luma_coding_block_size_minus3 = take_ue(
            rm,
            "log2_min_luma_coding_block_size_minus3",
        )?;
        let log2_diff_max_min_luma_coding_block_size = take_ue(
            rm,
            "log2_diff_max_min_luma_coding_block_size",
        )?;
        let log2_min_luma_transform_block_size_minus2 = take_ue(
            rm,
            "log2_min_luma_transform_block_size_minus2",
        )?;
        let log2_diff_max_min_luma_transform_block_size = take_ue(
            rm,
            "log2_diff_max_min_luma_transform_block_size",
        )?;
        let max_transform_hierarchy_depth_inter = take_ue(
            rm,
            "max_transform_hierarchy_depth_inter",
        )?;
        let max_transform_hierarchy_depth_intra = take_ue(
            rm,
            "max_transform_hierarchy_depth_intra",
        )?;
        let scaling_list = ScalingList::read(rm)?;
        let amp_enabled = take_bool(rm, "amp_enabled")?;
        let sample_adaptive_offset_enabled = take_bool(rm, "sample_adaptive_offset_enabled")?;
        let pcm = Pcm::read(rm)?;
        let st_ref_pic_sets = ShortTermRefPicSet::read_with_count(rm)?;
        let long_term_ref_pics_sps = LongTermRefPicSps::read(rm)?;
        let sps_termporal_mvp_enabled = take_bool(rm, "sps_termporal_mvp_enabled")?;
        let strong_intra_smoothing_enabled = take_bool(rm, "strong_intra_smoothing_enabled")?;
        let vui_parameters = VuiParameters::read(rm, true, sps_max_sub_layers_minus1)?;
        let sps_extension = SpsExtension::read(rm)?;
        match rm.finish("rbsp_trailing_bits") {
            Ok(_) => {},
            Err(e) => {
                return Err(SpsError::RbspReaderError(e));
            },
        };
        Ok(
            SeqParameterSet {
                sps_video_parameter_set_id,
                sps_max_sub_layers_minus1,
                sps_temporal_id_nesting,
                profile_tier_level,
                sps_seq_parameter_set_id,
                chroma_info,
                pic_width_in_luma_samples,
                pic_height_in_luma_samples,
                conformance_window,
                bit_depth_luma_minus8,
                bit_depth_chroma_minus8,
                log2_max_pic_order_cnt_lsb_minus4,
                sub_layering_ordering_info,
                log2_min_luma_coding_block_size_minus3,
                log2_diff_max_min_luma_coding_block_size,
                log2_min_luma_transform_block_size_minus2,
                log2_diff_max_min_luma_transform_block_size,
                max_transform_hierarchy_depth_inter,
                max_transform_hierarchy_depth_intra,
                scaling_list,
                amp_enabled,
                sample_adaptive_offset_enabled,
                pcm,
                st_ref_pic_sets,
                long_term_ref_pics_sps,
                sps_termporal_mvp_enabled,
                strong_intra_smoothing_enabled,
                vui_parameters,
                sps_extension,
            },
        )
    }

    /// The sequence parameter set's identifier.
    pub fn id(&self) -> (res: SeqParamSetId)
        ensures
            res == self.sps_seq_parameter_set_id,
    {
        self.sps_seq_parameter_set_id
    }

    /// The general coded level.
    pub fn general_level(&self) -> (res: Level)
        ensures
            res == spec_level_from_idc(self.profile_tier_level.general_level_idc),
    {
        Level::from_level_idc(self.profile_tier_level.general_level_idc)
    }

    /// The general layer profile; an SPS parsed by this crate always holds
    /// one, but a hand-built structure without one yields a typed error
    /// rather than a crash.
    pub fn general_layer_profile(&self) -> (res: Result<&LayerProfile, SpsError>)
        ensures
            match res {
                Ok(p) => self.profile_tier_level.general_profile == Some(*p),
                Err(e) => self.profile_tier_level.general_profile is None && e
                    == SpsError::MissingGeneralProfile,
            },
    {
        match &self.profile_tier_level.general_profile {
            Some(p) => Ok(p),
            None => Err(SpsError::MissingGeneralProfile),
        }
    }

    /// The general tier.
    pub fn general_tier(&self) -> (res: Result<Tier, SpsError>)
        ensures
            match res {
                Ok(t) => (match self.profile_tier_level.general_profile {
                    Some(p) => t == spec_tier(p.tier_flag),
                    None => false,
                }),
                Err(e) => self.profile_tier_level.general_profile is None && e
                    == SpsError::MissingGeneralProfile,
            },
    {
        Ok(self.general_layer_profile()?.tier())
    }

    /// The "lowest" compatible named profile; a stream may conform to
    /// several.
    pub fn general_profile(&self) -> (res: Result<Profile, SpsError>)
        requires
            self.wf(),
        ensures
            match res {
                Ok(pr) => (match self.profile_tier_level.general_profile {
                    Some(p) => pr == spec_profile(p@),
                    None => false,
                }),
                Err(e) => self.profile_tier_level.general_profile is None && e
                    == SpsError::MissingGeneralProfile,
            },
    {
        Ok(self.general_layer_profile()?.profile())
    }
}

/// One axis of the conformance cropping: scales the offset by the chroma
/// subsampling factor and subtracts it, failing exactly when more samples
/// would be removed than the axis holds (or the scaled offset overflows).
pub open spec fn spec_crop(dim: u32, off: u32, sub: u32, name: &'static str) -> Result<
    u32,
    SpsError,
> {
    if off * sub > dim {
        Err(SpsError::FieldValueTooLarge { name, value: off })
    } else {
        Ok((dim - off * sub) as u32)
    }
}

/// The pixel dimensions after conformance cropping: the chroma format fixes
/// the horizontal and vertical subsampling factors, and the four window
/// offsets are applied in order (left, right, top, bottom), each checked.
pub open spec fn spec_pixel_dimensions(v: SeqParameterSetView) -> Result<(u32, u32), SpsError> {
    let win = match v.conformance_window {
        Some(w) => w,
        None => Window {
            win_left_offset: 0,
            win_right_offset: 0,
            win_top_offset: 0,
            win_bottom_offset: 0,
        },
    };
    match v.chroma_info.chroma_format {
        ChromaFormat::Invalid(idc) => Err(
            SpsError::FieldValueTooLarge { name: "chroma_format_idc", value: idc },
        ),
        _ => {
            let sub_w: u32 = if v.chroma_info.chroma_format == ChromaFormat::YUV420
                || v.chroma_info.chroma_format == ChromaFormat::YUV422 {
                2
            } else {
                1
            };
            let sub_h: u32 = if v.chroma_info.chroma_format == ChromaFormat::YUV420 {
                2
            } else {
                1
            };
            match spec_crop(v.pic_width_in_luma_samples, win.win_left_offset, sub_w, "win_left_offset") {
                Err(e) => Err(e),
                Ok(w1) => match spec_crop(w1, win.win_right_offset, sub_w, "win_right_offset") {
                    Err(e) => Err(e),
                    Ok(w2) => match spec_crop(
                        v.pic_height_in_luma_samples,
                        win.win_top_offset,
                        sub_h,
                        "win_top_offset",
                    ) {
                        Err(e) => Err(e),
                        Ok(h1) => match spec_crop(h1, win.win_bottom_offset, sub_h, "win_bottom_offset") {
                            Err(e) => Err(e),
                            Ok(h2) => Ok((w2, h2)),
                        },
                    },
                },
            }
        },
    }
}

/// Crops one axis by one scaled offset.
fn crop(dim: u32, off: u32, sub: u32, name: &'static str) -> (res: Result<u32, SpsError>)
    requires
        sub == 1 || sub == 2,
    ensures
        res == spec_crop(dim, off, sub, name),
{
    if sub == 2 && off > u32::MAX / 2 {
        return Err(SpsError::FieldValueTooLarge { name, value: off });
    }
    let scaled = off * sub;
    if scaled > dim {
        Err(SpsError::FieldValueTooLarge { name, value: off })
    } else {
        Ok(dim - scaled)
    }
}

impl SeqParameterSet {
    /// The pixel dimensions of the coded video after conformance cropping,
    /// with chroma-format-dependent subsampling of the window offsets;
    /// over-cropping is a typed error, never a silent underflow.
    pub fn pixel_dimensions(&self) -> (res: Result<(u32, u32), SpsError>)
        ensures
            res == spec_pixel_dimensions(self@),
    {
        let win = match &self.conformance_window {
            Some(w) => *w,
            None => Window {
                win_left_offset: 0,
                win_right_offset: 0,
                win_top_offset: 0,
                win_bottom_offset: 0,
            },
        };
        let (sub_w, sub_h): (u32, u32) = match self.chroma_info.chroma_format {
            ChromaFormat::Monochrome => (1, 1),
            ChromaFormat::YUV420 => (2, 2),
            ChromaFormat::YUV422 => (2, 1),
            ChromaFormat::YUV444 => (1, 1),
            ChromaFormat::Invalid(idc) => {
                return Err(SpsError::FieldValueTooLarge { name: "chroma_format_idc", value: idc });
            },
        };
        let w1 = crop(self.pic_width_in_luma_samples, win.win_left_offset, sub_w, "win_left_offset")?;
        let w2 = crop(w1, win.win_right_offset, sub_w, "win_right_offset")?;
        let h1 = crop(self.pic_height_in_luma_samples, win.win_top_offset, sub_h, "win_top_offset")?;
        let h2 = crop(h1, win.win_bottom_offset, sub_h, "win_bottom_offset")?;
        Ok((w2, h2))
    }
}

/// Parses one sequence parameter set from a de-emulated RBSP byte buffer.
pub fn parse_sequence_parameter_set(data: &[u8]) -> (res: Result<SeqParameterSet, SpsError>)
    requires
        data@.len() * 8 <= usize::MAX as nat,
    ensures
        match res {
            Ok(sps) => spec_parse_sps(data@, 0) == Ok::<SeqParameterSetView, SpsError>(sps@)
                && sps.wf(),
            Err(e) => spec_parse_sps(data@, 0) == Err::<SeqParameterSetView, SpsError>(e),
        },
{
    SeqParameterSet::from_bits(BitReader::new(data))
}

/// Over-cropping is rejected: for 4:2:0 chroma, a conformance window that
/// would remove more samples than an axis holds makes `pixel_dimensions`
/// fail with `FieldValueTooLarge`; it never underflows silently.
pub proof fn lemma_overcrop_rejected(v: SeqParameterSetView, w: Window)
    requires
        v.chroma_info.chroma_format == ChromaFormat::YUV420,
        v.conformance_window == Some(w),
        2 * w.win_left_offset + 2 * w.win_right_offset > v.pic_width_in_luma_samples || 2
            * w.win_top_offset + 2 * w.win_bottom_offset > v.pic_height_in_luma_samples,
    ensures
        spec_pixel_dimensions(v) matches Err(SpsError::FieldValueTooLarge { .. }),
{
}

/// Parsing is deterministic: equal byte buffers parse to equal results, so
/// re-parsing the same buffer yields a structurally equal sequence
/// parameter set (the executable parser returns exactly this function of
/// its input).
pub proof fn lemma_reparse_deterministic(d1: Seq<u8>, d2: Seq<u8>)
    requires
        d1 == d2,
    ensures
        spec_parse_sps(d1, 0) == spec_parse_sps(d2, 0),
{
}

} // verus!
