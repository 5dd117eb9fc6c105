//! Reference picture sets: the short-term RPS syntax with its inter-set
//! prediction recurrence, and the long-term RPS list.
//!
//! A short-term set holds two ordered lists of `(delta_poc_minus1, used)`
//! entries: S0 for negative picture-order deltas and S1 for positive ones.
//! A set may be parsed directly, or derived from an earlier set in the same
//! collection by shifting every delta by a signed `delta_rps` and filtering
//! by per-entry flags; the output order mirrors the specification's pass
//! structure exactly, because later syntax indexes these lists positionally.

use vstd::prelude::*;

verus! {

use crate::nal::sps::SpsError;
use crate::nal::sps::spec_take_bool;
use crate::nal::sps::spec_take_ue;
use crate::nal::sps::spec_read_list;
use crate::nal::sps::lemma_read_list_extend;
use crate::nal::sps::lemma_read_list_error;
use crate::nal::sps::take_bool;
use crate::nal::sps::take_ue;
use crate::rbsp::BitReader;

/// One reference picture: its picture-order-count delta (minus one) and
/// whether the current picture uses it.
#[derive(Clone, Copy, Debug, PartialEq, Eq)]
pub struct ShortTermRef {
    pub delta_poc_minus1: i32,
    pub used_by_curr_pic_flag: bool,
}

/// A short-term reference picture set: the negative-delta list S0 and the
/// positive-delta list S1, both order-sensitive.
#[derive(Clone, Debug, PartialEq, Eq)]
pub struct ShortTermRefPicSet {
    pub negative_pics_s0: Vec<ShortTermRef>,
    pub positive_pics_s1: Vec<ShortTermRef>,
}

/// Mathematical model of a short-term reference picture set.
#[verifier::ext_equal]
pub struct ShortTermRefPicSetView {
    pub negative_pics_s0: Seq<ShortTermRef>,
    pub positive_pics_s1: Seq<ShortTermRef>,
}

impl View for ShortTermRefPicSet {
    type V = ShortTermRefPicSetView;

    open spec fn view(&self) -> ShortTermRefPicSetView {
        ShortTermRefPicSetView {
            negative_pics_s0: self.negative_pics_s0@,
            positive_pics_s1: self.positive_pics_s1@,
        }
    }
}

/// The views of a sequence of short-term sets.
pub open spec fn views_of_rps(s: Seq<ShortTermRefPicSet>) -> Seq<ShortTermRefPicSetView> {
    s.map_values(|x: ShortTermRefPicSet| x@)
}

/// Total entry count of a set, the bound for the prediction flag lists.
pub open spec fn spec_num_delta_pocs(v: ShortTermRefPicSetView) -> nat {
    v.negative_pics_s0.len() + v.positive_pics_s1.len()
}

/// Every delta in the list lies within `b` of zero.
pub open spec fn entries_bounded(s: Seq<ShortTermRef>, b: int) -> bool {
    forall|i: int| 0 <= i < s.len() ==> -b <= #[trigger] s[i].delta_poc_minus1 <= b
}

/// Every delta of the set lies within `b` of zero: parsed sets satisfy this
/// with a bound that grows by a fixed step per prediction, which keeps all
/// derivation arithmetic inside the field's range.
pub open spec fn rps_bounded(v: ShortTermRefPicSetView, b: int) -> bool {
    entries_bounded(v.negative_pics_s0, b) && entries_bounded(v.positive_pics_s1, b)
}

/// The per-prediction growth step of the delta bound.
pub open spec fn rps_bound_step() -> int {
    0x10000
}

impl ShortTermRefPicSet {
    /// Number of negative-delta references.
    pub fn num_negative_pics(&self) -> (res: usize)
        ensures
            res == self.negative_pics_s0@.len(),
    {
        self.negative_pics_s0.len()
    }

    /// Number of positive-delta references.
    pub fn num_positive_pics(&self) -> (res: usize)
        ensures
            res == self.positive_pics_s1@.len(),
    {
        self.positive_pics_s1.len()
    }

    /// Total number of references, as the prediction flag lists count them.
    pub fn num_delta_pocs(&self) -> (res: usize)
        requires
            self.negative_pics_s0@.len() + self.positive_pics_s1@.len() <= usize::MAX,
        ensures
            res == spec_num_delta_pocs(self@),
    {
        self.negative_pics_s0.len() + self.positive_pics_s1.len()
    }
}

/// New-S0 entries taken from the referenced set's S1, walked from index
/// `j - 1` down to 0: each shifted delta that lands negative and whose
/// `use_delta` flag is set contributes an entry, in descending-index order.
pub open spec fn spec_s0_from_s1(
    ref_v: ShortTermRefPicSetView,
    delta_rps: int,
    pairs: Seq<(bool, bool)>,
    j: nat,
) -> Seq<ShortTermRef>
    decreases j,
{
    if j == 0 {
        Seq::empty()
    } else {
        let jj = (j - 1) as nat;
        let dpoc = ref_v.positive_pics_s1[jj as int].delta_poc_minus1 + 1 + delta_rps;
        let idx = ref_v.negative_pics_s0.len() + jj;
        let head: Seq<ShortTermRef> = if dpoc < 0 && pairs[idx as int].1 {
            seq![
                ShortTermRef {
                    delta_poc_minus1: (dpoc - 1) as i32,
                    used_by_curr_pic_flag: pairs[idx as int].0,
                },
            ]
        } else {
            Seq::empty()
        };
        head + spec_s0_from_s1(ref_v, delta_rps, pairs, jj)
    }
}

/// The boundary term of the new S0: `delta_rps` itself, when negative and
/// its `use_delta` flag (at the index one past the referenced set's
/// entries) is set.
pub open spec fn spec_s0_boundary(
    ref_v: ShortTermRefPicSetView,
    delta_rps: int,
    pairs: Seq<(bool, bool)>,
) -> Seq<ShortTermRef> {
    let ndp = spec_num_delta_pocs(ref_v);
    if delta_rps < 0 && pairs[ndp as int].1 {
        seq![
            ShortTermRef {
                delta_poc_minus1: (delta_rps - 1) as i32,
                used_by_curr_pic_flag: pairs[ndp as int].0,
            },
        ]
    } else {
        Seq::empty()
    }
}

/// New-S0 entries taken from the referenced set's S0, walked from index `j`
/// up: each shifted delta that lands negative and whose `use_delta` flag is
/// set contributes an entry, in ascending-index order.
pub open spec fn spec_s0_from_s0(
    ref_v: ShortTermRefPicSetView,
    delta_rps: int,
    pairs: Seq<(bool, bool)>,
    j: nat,
) -> Seq<ShortTermRef>
    decreases ref_v.negative_pics_s0.len() - j,
{
    if j >= ref_v.negative_pics_s0.len() {
        Seq::empty()
    } else {
        let dpoc = ref_v.negative_pics_s0[j as int].delta_poc_minus1 + 1 + delta_rps;
        let head: Seq<ShortTermRef> = if dpoc < 0 && pairs[j as int].1 {
            seq![
                ShortTermRef {
                    delta_poc_minus1: (dpoc - 1) as i32,
                    used_by_curr_pic_flag: pairs[j as int].0,
                },
            ]
        } else {
            Seq::empty()
        };
        head + spec_s0_from_s0(ref_v, delta_rps, pairs, j + 1)
    }
}

/// New-S1 entries taken from the referenced set's S0, walked from index
/// `j - 1` down to 0: each shifted delta that lands positive and whose
/// `use_delta` flag is set contributes an entry, in descending-index order.
pub open spec fn spec_s1_from_s0(
    ref_v: ShortTermRefPicSetView,
    delta_rps: int,
    pairs: Seq<(bool, bool)>,
    j: nat,
) -> Seq<ShortTermRef>
    decreases j,
{
    if j == 0 {
        Seq::empty()
    } else {
        let jj = (j - 1) as nat;
        let dpoc = ref_v.negative_pics_s0[jj as int].delta_poc_minus1 + 1 + delta_rps;
        let head: Seq<ShortTermRef> = if dpoc > 0 && pairs[jj as int].1 {
            seq![
                ShortTermRef {
                    delta_poc_minus1: (dpoc - 1) as i32,
                    used_by_curr_pic_flag: pairs[jj as int].0,
                },
            ]
        } else {
            Seq::empty()
        };
        head + spec_s1_from_s0(ref_v, delta_rps, pairs, jj)
    }
}

/// The boundary term of the new S1: `delta_rps` itself, when positive and
/// its `use_delta` flag is set.
pub open spec fn spec_s1_boundary(
    ref_v: ShortTermRefPicSetView,
    delta_rps: int,
    pairs: Seq<(bool, bool)>,
) -> Seq<ShortTermRef> {
    let ndp = spec_num_delta_pocs(ref_v);
    if delta_rps > 0 && pairs[ndp as int].1 {
        seq![
            ShortTermRef {
                delta_poc_minus1: (delta_rps - 1) as i32,
                used_by_curr_pic_flag: pairs[ndp as int].0,
            },
        ]
    } else {
        Seq::empty()
    }
}

/// New-S1 entries taken from the referenced set's S1, walked from index `j`
/// up: each shifted delta that lands positive and whose `use_delta` flag is
/// set contributes an entry, in ascending-index order.
pub open spec fn spec_s1_from_s1(
    ref_v: ShortTermRefPicSetView,
    delta_rps: int,
    pairs: Seq<(bool, bool)>,
    j: nat,
) -> Seq<ShortTermRef>
    decreases ref_v.positive_pics_s1.len() - j,
{
    if j >= ref_v.positive_pics_s1.len() {
        Seq::empty()
    } else {
        let dpoc = ref_v.positive_pics_s1[j as int].delta_poc_minus1 + 1 + delta_rps;
        let idx = ref_v.negative_pics_s0.len() + j;
        let head: Seq<ShortTermRef> = if dpoc > 0 && pairs[idx as int].1 {
            seq![
                ShortTermRef {
                    delta_poc_minus1: (dpoc - 1) as i32,
                    used_by_curr_pic_flag: pairs[idx as int].0,
                },
            ]
        } else {
            Seq::empty()
        };
        head + spec_s1_from_s1(ref_v, delta_rps, pairs, j + 1)
    }
}

/// The derived set: the specification's pass order, S0 from the referenced
/// S1 (descending), the negative boundary term, then from the referenced S0
/// (ascending); and symmetrically for S1.
#[verifier::opaque]
pub open spec fn spec_derive_rps(
    ref_v: ShortTermRefPicSetView,
    delta_rps: int,
    pairs: Seq<(bool, bool)>,
) -> ShortTermRefPicSetView {
    ShortTermRefPicSetView {
        negative_pics_s0: spec_s0_from_s1(ref_v, delta_rps, pairs, ref_v.positive_pics_s1.len())
            + spec_s0_boundary(ref_v, delta_rps, pairs) + spec_s0_from_s0(
            ref_v,
            delta_rps,
            pairs,
            0,
        ),
        positive_pics_s1: spec_s1_from_s0(ref_v, delta_rps, pairs, ref_v.negative_pics_s0.len())
            + spec_s1_boundary(ref_v, delta_rps, pairs) + spec_s1_from_s1(
            ref_v,
            delta_rps,
            pairs,
            0,
        ),
    }
}

/// Collects the new-S0 entries contributed by the referenced set's S1.
fn s0_entries_from_s1(
    ref_rps: &ShortTermRefPicSet,
    delta_rps: i64,
    pairs: &Vec<(bool, bool)>,
    Ghost(b): Ghost<int>,
) -> (res: Vec<ShortTermRef>)
    requires
        rps_bounded(ref_rps@, b),
        0 <= b <= 0x400000,
        -0x8000 <= delta_rps <= 0x8000,
        pairs@.len() == spec_num_delta_pocs(ref_rps@) + 1,
    ensures
        res@ == spec_s0_from_s1(
            ref_rps@,
            delta_rps as int,
            pairs@,
            ref_rps.positive_pics_s1@.len(),
        ),
        entries_bounded(res@, b + rps_bound_step()),
{
    let np = ref_rps.positive_pics_s1.len();
    let nn = ref_rps.negative_pics_s0.len();
    let pl = pairs.len();
    let mut v: Vec<ShortTermRef> = Vec::new();
    let mut j: usize = np;
    proof {
        crate::nal::sps::lemma_seq_empty_concat(
            spec_s0_from_s1(ref_rps@, delta_rps as int, pairs@, np as nat),
        );
    }
    while j > 0
        invariant
            j <= np,
            np == ref_rps.positive_pics_s1@.len(),
            nn == ref_rps.negative_pics_s0@.len(),
            pl == pairs@.len(),
            pl == spec_num_delta_pocs(ref_rps@) + 1,
            rps_bounded(ref_rps@, b),
            0 <= b <= 0x400000,
            -0x8000 <= delta_rps <= 0x8000,
            spec_s0_from_s1(ref_rps@, delta_rps as int, pairs@, np as nat) == v@ + spec_s0_from_s1(
                ref_rps@,
                delta_rps as int,
                pairs@,
                j as nat,
            ),
            entries_bounded(v@, b + rps_bound_step()),
        decreases j,
    {
        let ghost j0 = j as nat;
        let ghost vg = v@;
        j = j - 1;
        let e = ref_rps.positive_pics_s1[j];
        let dpoc: i64 = e.delta_poc_minus1 as i64 + 1 + delta_rps;
        let idx = nn + j;
        let pr = pairs[idx];
        let ghost head = if dpoc < 0 && pr.1 {
            seq![
                ShortTermRef {
                    delta_poc_minus1: (dpoc - 1) as i32,
                    used_by_curr_pic_flag: pr.0,
                },
            ]
        } else {
            Seq::<ShortTermRef>::empty()
        };
        if dpoc < 0 && pr.1 {
            v.push(
                ShortTermRef { delta_poc_minus1: (dpoc - 1) as i32, used_by_curr_pic_flag: pr.0 },
            );
        }
        proof {
            assert(spec_s0_from_s1(ref_rps@, delta_rps as int, pairs@, j0) == head
                + spec_s0_from_s1(ref_rps@, delta_rps as int, pairs@, j as nat));
            if dpoc < 0 && pr.1 {
                crate::nal::sps::lemma_seq_push_concat(
                    vg,
                    ShortTermRef {
                        delta_poc_minus1: (dpoc - 1) as i32,
                        used_by_curr_pic_flag: pr.0,
                    },
                    spec_s0_from_s1(ref_rps@, delta_rps as int, pairs@, j as nat),
                );
            } else {
                crate::nal::sps::lemma_seq_empty_concat(
                    spec_s0_from_s1(ref_rps@, delta_rps as int, pairs@, j as nat),
                );
            }
        }
    }
    proof {
        crate::nal::sps::lemma_seq_concat_empty(v@);
    }
    v
}

/// Collects the new-S0 entries contributed by the referenced set's S0.
fn s0_entries_from_s0(
    ref_rps: &ShortTermRefPicSet,
    delta_rps: i64,
    pairs: &Vec<(bool, bool)>,
    Ghost(b): Ghost<int>,
) -> (res: Vec<ShortTermRef>)
    requires
        rps_bounded(ref_rps@, b),
        0 <= b <= 0x400000,
        -0x8000 <= delta_rps <= 0x8000,
        pairs@.len() == spec_num_delta_pocs(ref_rps@) + 1,
    ensures
        res@ == spec_s0_from_s0(ref_rps@, delta_rps as int, pairs@, 0),
        entries_bounded(res@, b + rps_bound_step()),
{
    let nn = ref_rps.negative_pics_s0.len();
    let mut v: Vec<ShortTermRef> = Vec::new();
    let mut j: usize = 0;
    proof {
        crate::nal::sps::lemma_seq_empty_concat(
            spec_s0_from_s0(ref_rps@, delta_rps as int, pairs@, 0),
        );
    }
    while j < nn
        invariant
            j <= nn,
            nn == ref_rps.negative_pics_s0@.len(),
            pairs@.len() == spec_num_delta_pocs(ref_rps@) + 1,
            rps_bounded(ref_rps@, b),
            0 <= b <= 0x400000,
            -0x8000 <= delta_rps <= 0x8000,
            spec_s0_from_s0(ref_rps@, delta_rps as int, pairs@, 0) == v@ + spec_s0_from_s0(
                ref_rps@,
                delta_rps as int,
                pairs@,
                j as nat,
            ),
            entries_bounded(v@, b + rps_bound_step()),
        decreases nn - j,
    {
        let ghost vg = v@;
        let e = ref_rps.negative_pics_s0[j];
        let dpoc: i64 = e.delta_poc_minus1 as i64 + 1 + delta_rps;
        let pr = pairs[j];
        if dpoc < 0 && pr.1 {
            v.push(
                ShortTermRef { delta_poc_minus1: (dpoc - 1) as i32, used_by_curr_pic_flag: pr.0 },
            );
        }
        proof {
            assert(spec_s0_from_s0(ref_rps@, delta_rps as int, pairs@, j as nat) == (if dpoc < 0
                && pr.1 {
                seq![
                    ShortTermRef {
                        delta_poc_minus1: (dpoc - 1) as i32,
                        used_by_curr_pic_flag: pr.0,
                    },
                ]
            } else {
                Seq::<ShortTermRef>::empty()
            }) + spec_s0_from_s0(ref_rps@, delta_rps as int, pairs@, (j + 1) as nat));
            if dpoc < 0 && pr.1 {
                crate::nal::sps::lemma_seq_push_concat(
                    vg,
                    ShortTermRef {
                        delta_poc_minus1: (dpoc - 1) as i32,
                        used_by_curr_pic_flag: pr.0,
                    },
                    spec_s0_from_s0(ref_rps@, delta_rps as int, pairs@, (j + 1) as nat),
                );
            } else {
                crate::nal::sps::lemma_seq_empty_concat(
                    spec_s0_from_s0(ref_rps@, delta_rps as int, pairs@, (j + 1) as nat),
                );
            }
        }
        j = j + 1;
    }
    proof {
        crate::nal::sps::lemma_seq_concat_empty(v@);
    }
    v
}

/// Collects the new-S1 entries contributed by the referenced set's S0.
fn s1_entries_from_s0(
    ref_rps: &ShortTermRefPicSet,
    delta_rps: i64,
    pairs: &Vec<(bool, bool)>,
    Ghost(b): Ghost<int>,
) -> (res: Vec<ShortTermRef>)
    requires
        rps_bounded(ref_rps@, b),
        0 <= b <= 0x400000,
        -0x8000 <= delta_rps <= 0x8000,
        pairs@.len() == spec_num_delta_pocs(ref_rps@) + 1,
    ensures
        res@ == spec_s1_from_s0(
            ref_rps@,
            delta_rps as int,
            pairs@,
            ref_rps.negative_pics_s0@.len(),
        ),
        entries_bounded(res@, b + rps_bound_step()),
{
    let nn = ref_rps.negative_pics_s0.len();
    let mut v: Vec<ShortTermRef> = Vec::new();
    let mut j: usize = nn;
    proof {
        crate::nal::sps::lemma_seq_empty_concat(
            spec_s1_from_s0(ref_rps@, delta_rps as int, pairs@, nn as nat),
        );
    }
    while j > 0
        invariant
            j <= nn,
            nn == ref_rps.negative_pics_s0@.len(),
            pairs@.len() == spec_num_delta_pocs(ref_rps@) + 1,
            rps_bounded(ref_rps@, b),
            0 <= b <= 0x400000,
            -0x8000 <= delta_rps <= 0x8000,
            spec_s1_from_s0(ref_rps@, delta_rps as int, pairs@, nn as nat) == v@ + spec_s1_from_s0(
                ref_rps@,
                delta_rps as int,
                pairs@,
                j as nat,
            ),
            entries_bounded(v@, b + rps_bound_step()),
        decreases j,
    {
        let ghost j0 = j as nat;
        let ghost vg = v@;
        j = j - 1;
        let e = ref_rps.negative_pics_s0[j];
        let dpoc: i64 = e.delta_poc_minus1 as i64 + 1 + delta_rps;
        let pr = pairs[j];
        if dpoc > 0 && pr.1 {
            v.push(
                ShortTermRef { delta_poc_minus1: (dpoc - 1) as i32, used_by_curr_pic_flag: pr.0 },
            );
        }
        proof {
            assert(spec_s1_from_s0(ref_rps@, delta_rps as int, pairs@, j0) == (if dpoc > 0 && pr.1 {
                seq![
                    ShortTermRef {
                        delta_poc_minus1: (dpoc - 1) as i32,
                        used_by_curr_pic_flag: pr.0,
                    },
                ]
            } else {
                Seq::<ShortTermRef>::empty()
            }) + spec_s1_from_s0(ref_rps@, delta_rps as int, pairs@, j as nat));
            if dpoc > 0 && pr.1 {
                crate::nal::sps::lemma_seq_push_concat(
                    vg,
                    ShortTermRef {
                        delta_poc_minus1: (dpoc - 1) as i32,
                        used_by_curr_pic_flag: pr.0,
                    },
                    spec_s1_from_s0(ref_rps@, delta_rps as int, pairs@, j as nat),
                );
            } else {
                crate::nal::sps::lemma_seq_empty_concat(
                    spec_s1_from_s0(ref_rps@, delta_rps as int, pairs@, j as nat),
                );
            }
        }
    }
    proof {
        crate::nal::sps::lemma_seq_concat_empty(v@);
    }
    v
}

/// Collects the new-S1 entries contributed by the referenced set's S1.
fn s1_entries_from_s1(
    ref_rps: &ShortTermRefPicSet,
    delta_rps: i64,
    pairs: &Vec<(bool, bool)>,
    Ghost(b): Ghost<int>,
) -> (res: Vec<ShortTermRef>)
    requires
        rps_bounded(ref_rps@, b),
        0 <= b <= 0x400000,
        -0x8000 <= delta_rps <= 0x8000,
        pairs@.len() == spec_num_delta_pocs(ref_rps@) + 1,
    ensures
        res@ == spec_s1_from_s1(ref_rps@, delta_rps as int, pairs@, 0),
        entries_bounded(res@, b + rps_bound_step()),
{
    let np = ref_rps.positive_pics_s1.len();
    let nn = ref_rps.negative_pics_s0.len();
    let pl = pairs.len();
    let mut v: Vec<ShortTermRef> = Vec::new();
    let mut j: usize = 0;
    proof {
        crate::nal::sps::lemma_seq_empty_concat(
            spec_s1_from_s1(ref_rps@, delta_rps as int, pairs@, 0),
        );
    }
    while j < np
        invariant
            j <= np,
            np == ref_rps.positive_pics_s1@.len(),
            nn == ref_rps.negative_pics_s0@.len(),
            pl == pairs@.len(),
            pl == spec_num_delta_pocs(ref_rps@) + 1,
            rps_bounded(ref_rps@, b),
            0 <= b <= 0x400000,
            -0x8000 <= delta_rps <= 0x8000,
            spec_s1_from_s1(ref_rps@, delta_rps as int, pairs@, 0) == v@ + spec_s1_from_s1(
                ref_rps@,
                delta_rps as int,
                pairs@,
                j as nat,
            ),
            entries_bounded(v@, b + rps_bound_step()),
        decreases np - j,
    {
        let ghost vg = v@;
        let e = ref_rps.positive_pics_s1[j];
        let dpoc: i64 = e.delta_poc_minus1 as i64 + 1 + delta_rps;
        let idx = nn + j;
        let pr = pairs[idx];
        if dpoc > 0 && pr.1 {
            v.push(
                ShortTermRef { delta_poc_minus1: (dpoc - 1) as i32, used_by_curr_pic_flag: pr.0 },
            );
        }
        proof {
            assert(spec_s1_from_s1(ref_rps@, delta_rps as int, pairs@, j as nat) == (if dpoc > 0
                && pr.1 {
                seq![
                    ShortTermRef {
                        delta_poc_minus1: (dpoc - 1) as i32,
                        used_by_curr_pic_flag: pr.0,
                    },
                ]
            } else {
                Seq::<ShortTermRef>::empty()
            }) + spec_s1_from_s1(ref_rps@, delta_rps as int, pairs@, (j + 1) as nat));
            if dpoc > 0 && pr.1 {
                crate::nal::sps::lemma_seq_push_concat(
                    vg,
                    ShortTermRef {
                        delta_poc_minus1: (dpoc - 1) as i32,
                        used_by_curr_pic_flag: pr.0,
                    },
                    spec_s1_from_s1(ref_rps@, delta_rps as int, pairs@, (j + 1) as nat),
                );
            } else {
                crate::nal::sps::lemma_seq_empty_concat(
                    spec_s1_from_s1(ref_rps@, delta_rps as int, pairs@, (j + 1) as nat),
                );
            }
        }
        j = j + 1;
    }
    proof {
        crate::nal::sps::lemma_seq_concat_empty(v@);
    }
    v
}

/// Derives a new set from a referenced set, a signed delta, and the
/// per-entry `(used_by_curr_pic, use_delta)` flag pairs, in the
/// specification's pass order.
#[verifier::spinoff_prover]
fn derive_rps(
    ref_rps: &ShortTermRefPicSet,
    delta_rps: i64,
    pairs: &Vec<(bool, bool)>,
    Ghost(b): Ghost<int>,
) -> (res: ShortTermRefPicSet)
    requires
        rps_bounded(ref_rps@, b),
        0 <= b <= 0x400000,
        -0x8000 <= delta_rps <= 0x8000,
        delta_rps != 0,
        pairs@.len() == spec_num_delta_pocs(ref_rps@) + 1,
    ensures
        res@ == spec_derive_rps(ref_rps@, delta_rps as int, pairs@),
        rps_bounded(res@, b + rps_bound_step()),
{
    proof {
        reveal(spec_derive_rps);
    }
    let nn = ref_rps.negative_pics_s0.len();
    let np = ref_rps.positive_pics_s1.len();
    let pl = pairs.len();
    let ndp = nn + np;
    let boundary_pr = pairs[ndp];
    let mut s0 = s0_entries_from_s1(ref_rps, delta_rps, pairs, Ghost(b));
    let ghost s0a = s0@;
    if delta_rps < 0 && boundary_pr.1 {
        s0.push(
            ShortTermRef {
                delta_poc_minus1: (delta_rps - 1) as i32,
                used_by_curr_pic_flag: boundary_pr.0,
            },
        );
        proof {
            assert(s0@ =~= s0a + spec_s0_boundary(ref_rps@, delta_rps as int, pairs@));
        }
    } else {
        proof {
            assert(s0@ =~= s0a + spec_s0_boundary(ref_rps@, delta_rps as int, pairs@));
        }
    }
    let mut s0c = s0_entries_from_s0(ref_rps, delta_rps, pairs, Ghost(b));
    s0.append(&mut s0c);
    let mut s1 = s1_entries_from_s0(ref_rps, delta_rps, pairs, Ghost(b));
    let ghost s1a = s1@;
    if delta_rps > 0 && boundary_pr.1 {
        s1.push(
            ShortTermRef {
                delta_poc_minus1: (delta_rps - 1) as i32,
                used_by_curr_pic_flag: boundary_pr.0,
            },
        );
        proof {
            assert(s1@ =~= s1a + spec_s1_boundary(ref_rps@, delta_rps as int, pairs@));
        }
    } else {
        proof {
            assert(s1@ =~= s1a + spec_s1_boundary(ref_rps@, delta_rps as int, pairs@));
        }
    }
    let mut s1c = s1_entries_from_s1(ref_rps, delta_rps, pairs, Ghost(b));
    s1.append(&mut s1c);
    let res = ShortTermRefPicSet { negative_pics_s0: s0, positive_pics_s1: s1 };
    proof {
        assert(res@.negative_pics_s0 =~= spec_derive_rps(
            ref_rps@,
            delta_rps as int,
            pairs@,
        ).negative_pics_s0);
        assert(res@.positive_pics_s1 =~= spec_derive_rps(
            ref_rps@,
            delta_rps as int,
            pairs@,
        ).positive_pics_s1);
    }
    res
}

/// The parser of one `(used_by_curr_pic, use_delta)` flag pair: when the
/// first flag is unset, the second defaults to set without consuming a bit.
pub open spec fn spec_rps_flag_pair_one() -> spec_fn(Seq<u8>, nat) -> Result<
    ((bool, bool), nat),
    SpsError,
> {
    (|d: Seq<u8>, pos: nat|
        match spec_take_bool(d, pos, "used_by_curr_pic_flag") {
            Err(e) => Err(e),
            Ok((u, p)) => {
                if u {
                    match spec_take_bool(d, p, "use_delta_flag") {
                        Err(e) => Err(e),
                        Ok((ud, p2)) => Ok((((u, ud), p2))),
                    }
                } else {
                    Ok((((false, true), p)))
                }
            },
        })
}

/// The parser of one directly coded reference entry: an Exp-Golomb delta
/// (bounded by the syntax's ceiling) and a used-by-current-picture flag.
pub open spec fn spec_direct_entry_one(
    name_delta: &'static str,
    name_used: &'static str,
) -> spec_fn(Seq<u8>, nat) -> Result<(ShortTermRef, nat), SpsError> {
    (|d: Seq<u8>, pos: nat|
        match spec_take_ue(d, pos, name_delta) {
            Err(e) => Err(e),
            Ok((v, p)) => {
                if v > 0x7FFF {
                    Err(SpsError::FieldValueTooLarge { name: name_delta, value: v })
                } else {
                    match spec_take_bool(d, p, name_used) {
                        Err(e) => Err(e),
                        Ok((u, p2)) => Ok(
                            (
                                ShortTermRef {
                                    delta_poc_minus1: v as i32,
                                    used_by_curr_pic_flag: u,
                                },
                                p2,
                            ),
                        ),
                    }
                }
            },
        })
}

/// The short-term RPS syntax for set `st_rps_idx` of `num_sets`, given the
/// previously parsed sets: index 0 never predicts; a predicting set names an
/// earlier set (an out-of-range reference is a typed error, never a crash),
/// reads a signed delta and one flag pair per referenced entry plus one, and
/// derives its lists; a direct set reads its two entry lists.
#[verifier::opaque]
pub open spec fn spec_read_st_rps(
    d: Seq<u8>,
    pos: nat,
    st_rps_idx: u32,
    num_sets: u32,
    prev: Seq<ShortTermRefPicSetView>,
) -> Result<(ShortTermRefPicSetView, nat), SpsError> {
    let step_pred = if st_rps_idx == 0 {
        Ok((false, pos))
    } else {
        spec_take_bool(d, pos, "inter_ref_pic_set_prediction_flag")
    };
    match step_pred {
        Err(e) => Err(e),
        Ok((pred, p0)) => {
            if pred {
                let step_delta = if st_rps_idx == num_sets {
                    spec_take_ue(d, p0, "delta_idx_minus1")
                } else {
                    Ok((0u32, p0))
                };
                match step_delta {
                    Err(e) => Err(e),
                    Ok((delta_idx_minus1, p1)) => match spec_take_bool(d, p1, "delta_rps_sign") {
                        Err(e) => Err(e),
                        Ok((sign, p2)) => match spec_take_ue(d, p2, "abs_delta_rps_minus1") {
                            Err(e) => Err(e),
                            Ok((abs, p3)) => {
                                if abs > 0x7FFF {
                                    Err(
                                        SpsError::FieldValueTooLarge {
                                            name: "abs_delta_rps_minus1",
                                            value: abs,
                                        },
                                    )
                                } else if delta_idx_minus1 + 1 > st_rps_idx {
                                    Err(SpsError::InvalidReferenceIndex(delta_idx_minus1))
                                } else if st_rps_idx - (delta_idx_minus1 + 1) >= prev.len() {
                                    Err(SpsError::InvalidReferenceIndex(delta_idx_minus1))
                                } else {
                                    let ref_v = prev[st_rps_idx - (delta_idx_minus1 + 1)];
                                    let delta_rps: int = if sign {
                                        -(abs + 1)
                                    } else {
                                        abs + 1
                                    };
                                    match spec_read_list(
                                        d,
                                        p3,
                                        spec_num_delta_pocs(ref_v) + 1,
                                        spec_rps_flag_pair_one(),
                                    ) {
                                        Err(e) => Err(e),
                                        Ok((pairs, p4)) => Ok(
                                            (spec_derive_rps(ref_v, delta_rps, pairs), p4),
                                        ),
                                    }
                                }
                            },
                        },
                    },
                }
            } else {
                match spec_take_ue(d, p0, "num_negative_pics") {
                    Err(e) => Err(e),
                    Ok((nn, p1)) => match spec_take_ue(d, p1, "num_positive_pics") {
                        Err(e) => Err(e),
                        Ok((np, p2)) => match spec_read_list(
                            d,
                            p2,
                            nn as nat,
                            spec_direct_entry_one("delta_poc_s0_minus1", "used_by_curr_pic_s0_flag"),
                        ) {
                            Err(e) => Err(e),
                            Ok((s0, p3)) => match spec_read_list(
                                d,
                                p3,
                                np as nat,
                                spec_direct_entry_one(
                                    "delta_poc_s1_minus1",
                                    "used_by_curr_pic_s1_flag",
                                ),
                            ) {
                                Err(e) => Err(e),
                                Ok((s1, p4)) => Ok(
                                    (
                                        ShortTermRefPicSetView {
                                            negative_pics_s0: s0,
                                            positive_pics_s1: s1,
                                        },
                                        p4,
                                    ),
                                ),
                            },
                        },
                    },
                }
            }
        },
    }
}

/// Reads `n` more `(used_by_curr_pic, use_delta)` flag pairs onto a list
/// whose parse so far matches the flag-pair list spec.
fn read_more_flag_pairs(
    r: &mut BitReader<'_>,
    n: usize,
    pairs: &mut Vec<(bool, bool)>,
    Ghost(pos0): Ghost<nat>,
    Ghost(total): Ghost<nat>,
) -> (res: Result<(), SpsError>)
    requires
        old(r).wf(),
        spec_read_list(old(r).data(), pos0, old(pairs)@.len(), spec_rps_flag_pair_one()) == Ok::<
            (Seq<(bool, bool)>, nat),
            SpsError,
        >((old(pairs)@, old(r).pos())),
        (old(pairs)@.len() + n) <= total,
    ensures
        final(r).wf(),
        final(r).data() == old(r).data(),
        match res {
            Ok(_) => spec_read_list(
                old(r).data(),
                pos0,
                (old(pairs)@.len() + n) as nat,
                spec_rps_flag_pair_one(),
            ) == Ok::<(Seq<(bool, bool)>, nat), SpsError>((final(pairs)@, final(r).pos()))
                && final(pairs)@.len() == old(pairs)@.len() + n as nat,
            Err(e) => spec_read_list(old(r).data(), pos0, total, spec_rps_flag_pair_one()) == Err::<
                (Seq<(bool, bool)>, nat),
                SpsError,
            >(e),
        },
{
    let ghost d = old(r).data();
    let ghost one = spec_rps_flag_pair_one();
    let ghost len0 = pairs@.len();
    let mut i: usize = 0;
    while i < n
        invariant
            r.wf(),
            r.data() == d,
            d == old(r).data(),
            one == spec_rps_flag_pair_one(),
            len0 == old(pairs)@.len(),
            i <= n,
            len0 + n <= total,
            pairs@.len() == len0 + i,
            spec_read_list(d, pos0, pairs@.len(), one) == Ok::<(Seq<(bool, bool)>, nat), SpsError>(
                (pairs@, r.pos()),
            ),
        decreases n - i,
    {
        let ghost vg = pairs@;
        let ghost p = r.pos();
        let u = match take_bool(r, "used_by_curr_pic_flag") {
            Ok(b) => b,
            Err(e) => {
                proof {
                    lemma_read_list_error(d, pos0, vg.len(), total, one, vg, p, e);
                }
                return Err(e);
            },
        };
        let pair: (bool, bool);
        if u {
            let ud = match take_bool(r, "use_delta_flag") {
                Ok(b) => b,
                Err(e) => {
                    proof {
                        lemma_read_list_error(d, pos0, vg.len(), total, one, vg, p, e);
                    }
                    return Err(e);
                },
            };
            pair = (u, ud);
        } else {
            pair = (false, true);
        }
        proof {
            lemma_read_list_extend(d, pos0, vg.len(), one, vg, p, pair, r.pos());
        }
        pairs.push(pair);
        i = i + 1;
    }
    Ok(())
}

/// Reads `count` directly coded reference entries.
fn read_direct_entries(
    r: &mut BitReader<'_>,
    count: u32,
    name_delta: &'static str,
    name_used: &'static str,
) -> (res: Result<Vec<ShortTermRef>, SpsError>)
    requires
        old(r).wf(),
    ensures
        final(r).wf(),
        final(r).data() == old(r).data(),
        match res {
            Ok(v) => spec_read_list(
                old(r).data(),
                old(r).pos(),
                count as nat,
                spec_direct_entry_one(name_delta, name_used),
            ) == Ok::<(Seq<ShortTermRef>, nat), SpsError>((v@, final(r).pos()))
                && entries_bounded(v@, 0x7FFF),
            Err(e) => spec_read_list(
                old(r).data(),
                old(r).pos(),
                count as nat,
                spec_direct_entry_one(name_delta, name_used),
            ) == Err::<(Seq<ShortTermRef>, nat), SpsError>(e),
        },
{
    let ghost d = old(r).data();
    let ghost pos0 = old(r).pos();
    let ghost one = spec_direct_entry_one(name_delta, name_used);
    let mut v: Vec<ShortTermRef> = Vec::new();
    let mut i: u32 = 0;
    while i < count
        invariant
            r.wf(),
            r.data() == d,
            d == old(r).data(),
            pos0 == old(r).pos(),
            one == spec_direct_entry_one(name_delta, name_used),
            i <= count,
            v@.len() == i as nat,
            entries_bounded(v@, 0x7FFF),
            spec_read_list(d, pos0, i as nat, one) == Ok::<(Seq<ShortTermRef>, nat), SpsError>(
                (v@, r.pos()),
            ),
        decreases count - i,
    {
        let ghost vg = v@;
        let ghost p = r.pos();
        let delta = match take_ue(r, name_delta) {
            Ok(x) => x,
            Err(e) => {
                proof {
                    lemma_read_list_error(d, pos0, i as nat, count as nat, one, vg, p, e);
                }
                return Err(e);
            },
        };
        if delta > 0x7FFF {
            let e = SpsError::FieldValueTooLarge { name: name_delta, value: delta };
            proof {
                lemma_read_list_error(d, pos0, i as nat, count as nat, one, vg, p, e);
            }
            return Err(e);
        }
        let used = match take_bool(r, name_used) {
            Ok(x) => x,
            Err(e) => {
                proof {
                    lemma_read_list_error(d, pos0, i as nat, count as nat, one, vg, p, e);
                }
                return Err(e);
            },
        };
        let entry = ShortTermRef { delta_poc_minus1: delta as i32, used_by_curr_pic_flag: used };
        proof {
            lemma_read_list_extend(d, pos0, i as nat, one, vg, p, entry, r.pos());
        }
        v.push(entry);
        i = i + 1;
    }
    Ok(v)
}

impl ShortTermRefPicSet {
    /// Parses one short-term reference picture set, either directly coded
    /// or derived from an earlier set in `prev_sets`.
    #[verifier::spinoff_prover]
    #[verifier::rlimit(100)]
    pub fn read(
        r: &mut BitReader<'_>,
        st_rps_idx: u32,
        num_short_term_ref_pic_sets: u32,
        prev_sets: &Vec<ShortTermRefPicSet>,
    ) -> (res: Result<ShortTermRefPicSet, SpsError>)
        requires
            old(r).wf(),
            prev_sets@.len() <= 64,
            forall|j: int|
                0 <= j < prev_sets@.len() ==> rps_bounded(
                    #[trigger] views_of_rps(prev_sets@)[j],
                    rps_bound_step() * (j + 1),
                ),
        ensures
            final(r).wf(),
            final(r).data() == old(r).data(),
            match res {
                Ok(v) => spec_read_st_rps(
                    old(r).data(),
                    old(r).pos(),
                    st_rps_idx,
                    num_short_term_ref_pic_sets,
                    views_of_rps(prev_sets@),
                ) == Ok::<(ShortTermRefPicSetView, nat), SpsError>((v@, final(r).pos()))
                    && rps_bounded(v@, rps_bound_step() * (prev_sets@.len() + 1)),
                Err(e) => spec_read_st_rps(
                    old(r).data(),
                    old(r).pos(),
                    st_rps_idx,
                    num_short_term_ref_pic_sets,
                    views_of_rps(prev_sets@),
                ) == Err::<(ShortTermRefPicSetView, nat), SpsError>(e),
            },
    {
        proof {
            reveal(spec_read_st_rps);
        }
        let ghost prev_views = views_of_rps(prev_sets@);
        let pred = if st_rps_idx == 0 {
            false
        } else {
            take_bool(r, "inter_ref_pic_set_prediction_flag")?
        };
        if pred {
            let delta_idx_minus1 = if st_rps_idx == num_short_term_ref_pic_sets {
                take_ue(r, "delta_idx_minus1")?
            } else {
                0
            };
            let sign = take_bool(r, "delta_rps_sign")?;
            let abs = take_ue(r, "abs_delta_rps_minus1")?;
            if abs > 0x7FFF {
                return Err(
                    SpsError::FieldValueTooLarge { name: "abs_delta_rps_minus1", value: abs },
                );
            }
            if delta_idx_minus1 as u64 + 1 > st_rps_idx as u64 {
                return Err(SpsError::InvalidReferenceIndex(delta_idx_minus1));
            }
            let ref_idx = st_rps_idx - (delta_idx_minus1 + 1);
            if ref_idx as usize >= prev_sets.len() {
                return Err(SpsError::InvalidReferenceIndex(delta_idx_minus1));
            }
            let ref_rps = &prev_sets[ref_idx as usize];
            proof {
                assert(prev_views[ref_idx as int] == ref_rps@);
            }
            let delta_rps: i64 = if sign {
                -(abs as i64 + 1)
            } else {
                abs as i64 + 1
            };
            let nn = ref_rps.negative_pics_s0.len();
            let np = ref_rps.positive_pics_s1.len();
            let ghost pos3 = r.pos();
            let mut pairs: Vec<(bool, bool)> = Vec::new();
            read_more_flag_pairs(
                r,
                nn,
                &mut pairs,
                Ghost(pos3),
                Ghost(spec_num_delta_pocs(ref_rps@) + 1),
            )?;
            read_more_flag_pairs(
                r,
                np,
                &mut pairs,
                Ghost(pos3),
                Ghost(spec_num_delta_pocs(ref_rps@) + 1),
            )?;
            read_more_flag_pairs(
                r,
                1,
                &mut pairs,
                Ghost(pos3),
                Ghost(spec_num_delta_pocs(ref_rps@) + 1),
            )?;
            let ghost b = rps_bound_step() * (ref_idx + 1);
            let derived = derive_rps(ref_rps, delta_rps, &pairs, Ghost(b));
            proof {
                assert(rps_bounded(derived@, rps_bound_step() * (prev_sets@.len() + 1)));
            }
            Ok(derived)
        } else {
            let num_negative_pics = take_ue(r, "num_negative_pics")?;
            let num_positive_pics = take_ue(r, "num_positive_pics")?;
            let negative_pics_s0 = read_direct_entries(
                r,
                num_negative_pics,
                "delta_poc_s0_minus1",
                "used_by_curr_pic_s0_flag",
            )?;
            let positive_pics_s1 = read_direct_entries(
                r,
                num_positive_pics,
                "delta_poc_s1_minus1",
                "used_by_curr_pic_s1_flag",
            )?;
            Ok(ShortTermRefPicSet { negative_pics_s0, positive_pics_s1 })
        }
    }
}

/// The short-term set collection parsed in order, each set seeing all the
/// sets before it; `k` sets remain, `acc` holds those parsed so far.
pub open spec fn spec_read_rps_list(
    d: Seq<u8>,
    pos: nat,
    num_sets: u32,
    k: nat,
    acc: Seq<ShortTermRefPicSetView>,
) -> Result<(Seq<ShortTermRefPicSetView>, nat), SpsError>
    decreases k,
{
    if k == 0 {
        Ok((acc, pos))
    } else {
        match spec_read_st_rps(d, pos, acc.len() as u32, num_sets, acc) {
            Err(e) => Err(e),
            Ok((x, p)) => spec_read_rps_list(d, p, num_sets, (k - 1) as nat, acc.push(x)),
        }
    }
}

/// The short-term RPS collection syntax: an Exp-Golomb count (at most 64
/// per the syntax's range), then that many sets, each able to predict from
/// any earlier one.
#[verifier::opaque]
pub open spec fn spec_read_st_rps_collection(d: Seq<u8>, pos: nat) -> Result<
    (Seq<ShortTermRefPicSetView>, nat),
    SpsError,
> {
    match spec_take_ue(d, pos, "num_short_term_ref_pic_sets") {
        Err(e) => Err(e),
        Ok((num, p)) => {
            if num > 64 {
                Err(SpsError::FieldValueTooLarge { name: "num_short_term_ref_pic_sets", value: num })
            } else {
                spec_read_rps_list(d, p, num, num as nat, Seq::empty())
            }
        },
    }
}

impl ShortTermRefPicSet {
    /// Parses the whole short-term RPS collection.
    #[verifier::spinoff_prover]
    pub fn read_with_count(r: &mut BitReader<'_>) -> (res: Result<Vec<ShortTermRefPicSet>, SpsError>)
        requires
            old(r).wf(),
        ensures
            final(r).wf(),
            final(r).data() == old(r).data(),
            match res {
                Ok(v) => spec_read_st_rps_collection(old(r).data(), old(r).pos()) == Ok::<
                    (Seq<ShortTermRefPicSetView>, nat),
                    SpsError,
                >((views_of_rps(v@), final(r).pos())) && v@.len() <= 64,
                Err(e) => spec_read_st_rps_collection(old(r).data(), old(r).pos()) == Err::<
                    (Seq<ShortTermRefPicSetView>, nat),
                    SpsError,
                >(e),
            },
    {
        proof {
            reveal(spec_read_st_rps_collection);
        }
        let ghost d = old(r).data();
        let num = take_ue(r, "num_short_term_ref_pic_sets")?;
        if num > 64 {
            return Err(
                SpsError::FieldValueTooLarge { name: "num_short_term_ref_pic_sets", value: num },
            );
        }
        let ghost p0 = r.pos();
        let mut sets: Vec<ShortTermRefPicSet> = Vec::new();
        let mut i: u32 = 0;
        proof {
            assert(views_of_rps(sets@) =~= Seq::<ShortTermRefPicSetView>::empty());
        }
        while i < num
            invariant
                r.wf(),
                r.data() == d,
                d == old(r).data(),
                i <= num,
                num <= 64,
                sets@.len() == i as nat,
                forall|j: int|
                    0 <= j < sets@.len() ==> rps_bounded(
                        #[trigger] views_of_rps(sets@)[j],
                        rps_bound_step() * (j + 1),
                    ),
                spec_read_rps_list(d, r.pos(), num, (num - i) as nat, views_of_rps(sets@))
                    == spec_read_rps_list(d, p0, num, num as nat, Seq::empty()),
                spec_read_st_rps_collection(d, old(r).pos()) == spec_read_rps_list(
                    d,
                    p0,
                    num,
                    num as nat,
                    Seq::empty(),
                ),
            decreases num - i,
        {
            let ghost acc = views_of_rps(sets@);
            let next = match ShortTermRefPicSet::read(r, i, num, &sets) {
                Ok(x) => x,
                Err(e) => {
                    return Err(e);
                },
            };
            proof {
                assert(views_of_rps(sets@.push(next)) =~= acc.push(next@));
            }
            sets.push(next);
            i = i + 1;
        }
        Ok(sets)
    }
}

/// A long-term reference picture entry signalled in the SPS; its contents
/// are consumed but not retained.
#[derive(Clone, Copy, Debug, PartialEq, Eq)]
pub struct LongTermRefPicSps;

/// The parser of one long-term entry, as a value: the picture-order LSB and
/// the used-by-current-picture field, both consumed and discarded.
pub open spec fn spec_long_term_one() -> spec_fn(Seq<u8>, nat) -> Result<
    (LongTermRefPicSps, nat),
    SpsError,
> {
    (|d: Seq<u8>, pos: nat|
        match spec_take_ue(d, pos, "lt_ref_pic_pic_lsb_sps") {
            Err(e) => Err(e),
            Ok((_, p)) => match spec_take_ue(d, p, "used_by_curr_pic_lt_sps_flag") {
                Err(e) => Err(e),
                Ok((_, p2)) => Ok((LongTermRefPicSps, p2)),
            },
        })
}

/// The long-term RPS list syntax: a presence flag, then an Exp-Golomb count
/// and that many entries.
#[verifier::opaque]
pub open spec fn spec_read_long_term(d: Seq<u8>, pos: nat) -> Result<
    (Option<Seq<LongTermRefPicSps>>, nat),
    SpsError,
> {
    match spec_take_bool(d, pos, "long_term_ref_pics_present_flag") {
        Err(e) => Err(e),
        Ok((present, p0)) => {
            if !present {
                Ok((None, p0))
            } else {
                match spec_take_ue(d, p0, "num_long_term_ref_pics_sps") {
                    Err(e) => Err(e),
                    Ok((num, p1)) => match spec_read_list(d, p1, num as nat, spec_long_term_one()) {
                        Err(e) => Err(e),
                        Ok((s, p2)) => Ok((Some(s), p2)),
                    },
                }
            }
        },
    }
}

/// The view of an optional long-term entry list.
pub open spec fn view_of_long_term(v: Option<Vec<LongTermRefPicSps>>) -> Option<
    Seq<LongTermRefPicSps>,
> {
    match v {
        Some(x) => Some(x@),
        None => None,
    }
}

impl LongTermRefPicSps {
    /// Parses one long-term entry, consuming and discarding its fields.
    pub fn read_one(r: &mut BitReader<'_>) -> (res: Result<LongTermRefPicSps, SpsError>)
        requires
            old(r).wf(),
        ensures
            final(r).wf(),
            final(r).data() == old(r).data(),
            match res {
                Ok(v) => spec_long_term_one()(old(r).data(), old(r).pos()) == Ok::<
                    (LongTermRefPicSps, nat),
                    SpsError,
                >((v, final(r).pos())),
                Err(e) => spec_long_term_one()(old(r).data(), old(r).pos()) == Err::<
                    (LongTermRefPicSps, nat),
                    SpsError,
                >(e),
            },
    {
        let _ = take_ue(r, "lt_ref_pic_pic_lsb_sps")?;
        let _ = take_ue(r, "used_by_curr_pic_lt_sps_flag")?;
        Ok(LongTermRefPicSps)
    }

    /// Parses the optional long-term RPS list.
    pub fn read(r: &mut BitReader<'_>) -> (res: Result<Option<Vec<LongTermRefPicSps>>, SpsError>)
        requires
            old(r).wf(),
        ensures
            final(r).wf(),
            final(r).data() == old(r).data(),
            match res {
                Ok(v) => spec_read_long_term(old(r).data(), old(r).pos()) == Ok::<
                    (Option<Seq<LongTermRefPicSps>>, nat),
                    SpsError,
                >((view_of_long_term(v), final(r).pos())),
                Err(e) => spec_read_long_term(old(r).data(), old(r).pos()) == Err::<
                    (Option<Seq<LongTermRefPicSps>>, nat),
                    SpsError,
                >(e),
            },
    {
        proof {
            reveal(spec_read_long_term);
        }
        let ghost d = old(r).data();
        let present = take_bool(r, "long_term_ref_pics_present_flag")?;
        if !present {
            return Ok(None);
        }
        let num = take_ue(r, "num_long_term_ref_pics_sps")?;
        let ghost pos0 = r.pos();
        let ghost one = spec_long_term_one();
        let mut v: Vec<LongTermRefPicSps> = Vec::new();
        let mut i: u32 = 0;
        while i < num
            invariant
                r.wf(),
                r.data() == d,
                d == old(r).data(),
                one == spec_long_term_one(),
                i <= num,
                v@.len() == i as nat,
                spec_read_list(d, pos0, i as nat, one) == Ok::<
                    (Seq<LongTermRefPicSps>, nat),
                    SpsError,
                >((v@, r.pos())),
                match spec_read_list(d, pos0, num as nat, one) {
                    Ok((s, p)) => spec_read_long_term(d, old(r).pos()) == Ok::<
                        (Option<Seq<LongTermRefPicSps>>, nat),
                        SpsError,
                    >((Some(s), p)),
                    Err(e) => spec_read_long_term(d, old(r).pos()) == Err::<
                        (Option<Seq<LongTermRefPicSps>>, nat),
                        SpsError,
                    >(e),
                },
            decreases num - i,
        {
            let ghost vg = v@;
            let ghost p = r.pos();
            let x = match Self::read_one(r) {
                Ok(x) => x,
                Err(e) => {
                    proof {
                        lemma_read_list_error(d, pos0, i as nat, num as nat, one, vg, p, e);
                    }
                    return Err(e);
                },
            };
            proof {
                lemma_read_list_extend(d, pos0, i as nat, one, vg, p, x, r.pos());
            }
            v.push(x);
            i = i + 1;
        }
        Ok(Some(v))
    }
}

} // verus!
