//! Parsers for the H.265/HEVC sequence and picture parameter set structures,
//! working over a de-emulated RBSP byte buffer.
//!
//! The bit-level reader lives in [`rbsp`]; the parameter-set syntax lives in
//! [`nal`]. A [`Context`] keeps the sequence parameter sets parsed so far,
//! keyed by their identifier, so that later syntax can refer back to them.

pub mod nal;
pub mod rbsp;

use vstd::prelude::*;

verus! {

use crate::nal::sps::SeqParameterSet;
use crate::nal::pps::SeqParamSetId;

/// The most recent entry with the given id, searched from the newest
/// insertion backwards.
pub open spec fn spec_lookup_rec(s: Seq<(u8, SeqParameterSet)>, id: int) -> Option<SeqParameterSet>
    decreases s.len(),
{
    if s.len() == 0 {
        None
    } else if s.last().0 == id {
        Some(s.last().1)
    } else {
        spec_lookup_rec(s.drop_last(), id)
    }
}

/// The decoding context of one bitstream: the sequence parameter sets parsed
/// so far, looked up by id when later syntax (such as a PPS) refers back to
/// one. Mutated only by explicit insertion; the parser holds no global
/// state.
pub struct Context {
    entries: Vec<(u8, SeqParameterSet)>,
}

impl Context {
    /// The sequence parameter set stored under `id`, if any.
    pub closed spec fn spec_sps(self, id: int) -> Option<SeqParameterSet> {
        spec_lookup_rec(self.entries@, id)
    }

    /// Creates an empty context.
    pub fn new() -> (res: Context)
        ensures
            forall|id: int| res.spec_sps(id) is None,
    {
        Context { entries: Vec::new() }
    }

    /// Stores a parsed sequence parameter set under its own id, replacing
    /// any earlier set with the same id and leaving every other id's entry
    /// unchanged.
    pub fn insert_sps(&mut self, sps: SeqParameterSet)
        ensures
            final(self).spec_sps(sps.sps_seq_parameter_set_id.spec_id() as int) == Some(sps),
            forall|id: int|
                id != sps.sps_seq_parameter_set_id.spec_id() as int ==> final(self).spec_sps(id)
                    == old(self).spec_sps(id),
    {
        let id = sps.sps_seq_parameter_set_id.id();
        self.entries.push((id, sps));
        proof {
            assert(self.entries@.last() == (id, sps));
            assert(self.entries@.drop_last() =~= old(self).entries@);
        }
    }

    /// Looks up the sequence parameter set stored under `id`.
    pub fn lookup_sps(&self, id: SeqParamSetId) -> (res: Option<&SeqParameterSet>)
        ensures
            match res {
                Some(sps) => self.spec_sps(id.spec_id() as int) == Some(*sps),
                None => self.spec_sps(id.spec_id() as int) is None,
            },
    {
        let want = id.id();
        let mut i: usize = self.entries.len();
        proof {
            assert(self.entries@.take(i as int) =~= self.entries@);
        }
        while i > 0
            invariant
                i <= self.entries@.len(),
                want as u32 == id.spec_id(),
                spec_lookup_rec(self.entries@, id.spec_id() as int) == spec_lookup_rec(
                    self.entries@.take(i as int),
                    id.spec_id() as int,
                ),
            decreases i,
        {
            i = i - 1;
            let entry = &self.entries[i];
            proof {
                assert(self.entries@.take((i + 1) as int).last() == self.entries@[i as int]);
                assert(self.entries@.take((i + 1) as int).drop_last() =~= self.entries@.take(
                    i as int,
                ));
            }
            if entry.0 == want {
                return Some(&entry.1);
            }
        }
        proof {
            assert(self.entries@.take(0) =~= Seq::<(u8, SeqParameterSet)>::empty());
        }
        None
    }
}

impl Default for Context {
    /// An empty context.
    fn default() -> (res: Context)
        ensures
            forall|id: int| res.spec_sps(id) is None,
    {
        Context::new()
    }
}

} // verus!
