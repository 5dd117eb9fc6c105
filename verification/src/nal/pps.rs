//! Picture parameter set support. The PPS syntax itself is a recognized,
//! deliberate gap: parsing it always fails with an `Unimplemented` error.
//! The bounded parameter-set identifier type lives here and is shared with
//! the sequence parameter set parser.

use vstd::prelude::*;

verus! {

use crate::Context;
use crate::rbsp::BitReader;
use crate::rbsp::BitReaderError;

/// Failure to construct a bounded parameter-set identifier.
#[derive(Clone, Copy, Debug, PartialEq, Eq)]
pub enum ParamSetIdError {
    /// The identifier exceeded its namespace's declared maximum.
    IdTooLarge(u32),
}

/// A small-integer identifier bounded at construction time by `MAX`.
/// Identifiers of different maxima are distinct types, so a picture
/// parameter set id cannot stand where a sequence parameter set id is
/// expected.
#[derive(Debug, Clone, Copy, PartialEq, Eq, Hash)]
pub struct ParamSetId<const MAX: u32>(u8);

impl<const MAX: u32> ParamSetId<MAX> {
    /// The identifier's numeric value.
    pub closed spec fn spec_id(self) -> u32 {
        self.0 as u32
    }

    /// The value never exceeds the declared maximum.
    #[verifier::type_invariant]
    pub closed spec fn inv(self) -> bool {
        self.0 as u32 <= MAX
    }

    /// Creates an identifier; succeeds exactly when `id` is at most `MAX`
    /// (the boundary itself is accepted), and fails with `IdTooLarge`
    /// otherwise.
    pub fn from_u32(id: u32) -> (res: Result<Self, ParamSetIdError>)
        requires
            MAX <= 255,
        ensures
            match res {
                Ok(p) => id <= MAX && p.spec_id() == id,
                Err(e) => id > MAX && e == ParamSetIdError::IdTooLarge(id),
            },
    {
        if id > MAX {
            Err(ParamSetIdError::IdTooLarge(id))
        } else {
            Ok(ParamSetId(id as u8))
        }
    }

    /// The identifier's numeric value.
    pub fn id(self) -> (r: u8)
        ensures
            r as u32 == self.spec_id(),
            self.spec_id() <= MAX,
    {
        proof {
            use_type_invariant(self);
        }
        self.0
    }
}

/// A picture parameter set identifier (at most 63).
pub type PicParamSetId = ParamSetId<63>;

/// A sequence parameter set identifier (at most 15).
pub type SeqParamSetId = ParamSetId<15>;

/// Failure of a picture parameter set parse.
#[derive(Clone, Copy, Debug, PartialEq, Eq)]
pub enum PpsError {
    /// The bit-level reader failed.
    RbspReaderError(BitReaderError),
    /// The PPS referenced a sequence parameter set id that the decoding
    /// context does not hold.
    UnknownSeqParamSetId(SeqParamSetId),
    /// The picture parameter set id was out of range.
    BadPicParamSetId(ParamSetIdError),
    /// The referenced sequence parameter set id was out of range.
    BadSeqParamSetId(ParamSetIdError),
    /// PPS syntax decoding is not supported yet; this is a deliberate,
    /// explicit gap, not a malformed stream.
    Unimplemented,
}

/// A picture parameter set. Only the identifiers are modelled; the rest of
/// the syntax is not decoded yet.
#[derive(Clone, Copy, Debug, PartialEq, Eq)]
pub struct PicParameterSet {
    pub pic_parameter_set_id: PicParamSetId,
    pub seq_parameter_set_id: SeqParamSetId,
}

impl PicParameterSet {
    /// Decoding the PPS syntax is a recognized gap: every call fails with
    /// `Unimplemented`, whatever the context holds and whatever the buffer
    /// contains.
    pub fn from_bits(ctx: &Context, r: BitReader<'_>) -> (res: Result<PicParameterSet, PpsError>)
        ensures
            res == Err::<PicParameterSet, PpsError>(PpsError::Unimplemented),
    {
        let _ = ctx;
        let _ = r;
        Err(PpsError::Unimplemented)
    }
}

} // verus!
