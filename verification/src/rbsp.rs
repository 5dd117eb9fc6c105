//! Sequential big-endian bit-level reader over a raw byte sequence payload
//! (RBSP), the byte buffer of a NAL unit after emulation-prevention removal.
//!
//! Every read operation is specified exactly by a spec-level counterpart
//! (`spec_read_bool`, `spec_read_bits`, `spec_read_ue`, ...) over the byte
//! sequence and a bit position, so callers can reason about precisely which
//! bits a parse consumed and which value it produced.

use vstd::prelude::*;

verus! {

use vstd::arithmetic::power2::pow2;
use vstd::arithmetic::power2::lemma_pow2_unfold;
use vstd::arithmetic::power2::lemma_pow2_strictly_increases;
use vstd::arithmetic::power2::lemma2_to64;
use vstd::arithmetic::power2::lemma2_to64_rest;

/// Failure of a bit-level read. Each variant carries the diagnostic label of
/// the syntax element that was being read; the label has no effect on parsing.
#[derive(Clone, Copy, Debug, PartialEq, Eq)]
pub enum BitReaderError {
    /// The reader ran past the end of the supplied buffer.
    OutOfBits { name: &'static str },
    /// An Exp-Golomb code decoded to a value wider than the target type.
    ExpGolombOverflow { name: &'static str },
    /// Bits other than the RBSP stop pattern remained after the structure's
    /// syntax was fully consumed.
    TrailingData { name: &'static str },
}

/// Number of bits held by the byte sequence.
pub open spec fn total_bits(d: Seq<u8>) -> nat {
    d.len() * 8
}

/// Bit `i` of the stream: most-significant bit first within each byte.
pub open spec fn bit_at(d: Seq<u8>, i: nat) -> bool
    recommends
        i < total_bits(d),
{
    (d[(i / 8) as int] >> ((7 - (i % 8)) as u8)) & 1 == 1
}

/// Unsigned value of the `n` bits starting at `pos`, most-significant first.
pub open spec fn bits_value(d: Seq<u8>, pos: nat, n: nat) -> nat
    decreases n,
{
    if n == 0 {
        0
    } else {
        2 * bits_value(d, pos, (n - 1) as nat) + (if bit_at(d, (pos + n - 1) as nat) {
            1nat
        } else {
            0nat
        })
    }
}

/// Length of the run of zero bits starting at `pos` (stops at the first set
/// bit or at the end of the buffer).
pub open spec fn zero_run(d: Seq<u8>, pos: nat) -> nat
    decreases total_bits(d) - pos,
{
    if pos >= total_bits(d) {
        0
    } else if bit_at(d, pos) {
        0
    } else {
        1 + zero_run(d, pos + 1)
    }
}

/// What reading a single bit as a boolean returns: the bit at `pos` and the
/// advanced position, or `OutOfBits` when the buffer is exhausted.
pub open spec fn spec_read_bool(d: Seq<u8>, pos: nat, name: &'static str) -> Result<
    (bool, nat),
    BitReaderError,
> {
    if pos + 1 <= total_bits(d) {
        Ok((bit_at(d, pos), pos + 1))
    } else {
        Err(BitReaderError::OutOfBits { name })
    }
}

/// What reading `n` fixed-width bits returns: their big-endian value and the
/// advanced position, or `OutOfBits` when fewer than `n` bits remain.
pub open spec fn spec_read_bits(d: Seq<u8>, pos: nat, n: nat, name: &'static str) -> Result<
    (nat, nat),
    BitReaderError,
> {
    if pos + n <= total_bits(d) {
        Ok((bits_value(d, pos, n), pos + n))
    } else {
        Err(BitReaderError::OutOfBits { name })
    }
}

/// What reading an unsigned Exp-Golomb code returns: with `k` leading zero
/// bits, a set bit, and a `k`-bit suffix, the value is `2^k - 1 + suffix`.
/// A code of more than 31 leading zeros cannot fit the 32-bit target.
pub open spec fn spec_read_ue(d: Seq<u8>, pos: nat, name: &'static str) -> Result<
    (u32, nat),
    BitReaderError,
> {
    let k = zero_run(d, pos);
    if pos + k >= total_bits(d) {
        Err(BitReaderError::OutOfBits { name })
    } else if k > 31 {
        Err(BitReaderError::ExpGolombOverflow { name })
    } else if pos + k + 1 + k > total_bits(d) {
        Err(BitReaderError::OutOfBits { name })
    } else {
        Ok((((pow2(k) - 1 + bits_value(d, pos + k + 1, k)) as u32, pos + 2 * k + 1)))
    }
}

/// What reading a signed Exp-Golomb code returns: the unsigned code `k`
/// mapped through the zig-zag rule, even `k` to `k / 2` and odd `k` to
/// `-((k + 1) / 2)`.
pub open spec fn spec_read_se(d: Seq<u8>, pos: nat, name: &'static str) -> Result<
    (i32, nat),
    BitReaderError,
> {
    match spec_read_ue(d, pos, name) {
        Ok((k, p)) => if k % 2 == 0 {
            Ok((((k / 2) as i32, p)))
        } else {
            Ok(((((0 - ((k + 1) / 2)) as i32, p))))
        },
        Err(e) => Err(e),
    }
}

/// Whether a set bit exists strictly after `pos`: per the RBSP convention the
/// stop bit is the last set bit of the payload, so this holds exactly when
/// syntax elements (rather than only trailing padding) remain.
pub open spec fn spec_has_more(d: Seq<u8>, pos: nat) -> bool {
    exists|i: nat| pos < i && i < total_bits(d) && bit_at(d, i)
}

/// Whether the bits from `pos` on form exactly the RBSP trailing pattern:
/// a single set stop bit, then zero padding, all within the final byte.
pub open spec fn spec_finish(d: Seq<u8>, pos: nat, name: &'static str) -> Result<
    (),
    BitReaderError,
> {
    if pos < total_bits(d) && bit_at(d, pos) && (forall|j: nat|
        pos < j && j < total_bits(d) ==> !bit_at(d, j)) && total_bits(d) <= pos + 8 {
        Ok(())
    } else {
        Err(BitReaderError::TrailingData { name })
    }
}

/// The value of `n` bits is below `2^n`.
pub proof fn lemma_bits_value_bound(d: Seq<u8>, pos: nat, n: nat)
    ensures
        bits_value(d, pos, n) < pow2(n),
    decreases n,
{
    if n == 0 {
        lemma2_to64();
    } else {
        lemma_bits_value_bound(d, pos, (n - 1) as nat);
        lemma_pow2_unfold(n);
    }
}

/// An unsigned Exp-Golomb value never exceeds `2^32 - 2`.
pub proof fn lemma_read_ue_bound(d: Seq<u8>, pos: nat, name: &'static str)
    ensures
        spec_read_ue(d, pos, name) matches Ok((v, _)) ==> v <= 0xFFFF_FFFEu32,
{
    let k = zero_run(d, pos);
    if spec_read_ue(d, pos, name) is Ok {
        lemma_bits_value_bound(d, pos + k + 1, k);
        if k < 31 {
            lemma_pow2_strictly_increases(k, 31);
        }
        lemma2_to64();
    }
}

/// A run of `k` zero bits followed by a set bit pins `zero_run` to `k`.
pub proof fn lemma_zero_run_value(d: Seq<u8>, pos: nat, k: nat)
    requires
        forall|t: nat| t < k ==> !#[trigger] bit_at(d, pos + t),
        pos + k < total_bits(d),
        bit_at(d, pos + k),
    ensures
        zero_run(d, pos) == k,
    decreases k,
{
    if k == 0 {
    } else {
        assert(!bit_at(d, pos + 0));
        assert(forall|t: nat| t < k - 1 ==> !#[trigger] bit_at(d, (pos + 1) + t)) by {
            assert forall|t: nat| t < k - 1 implies !#[trigger] bit_at(d, (pos + 1) + t) by {
                assert(!bit_at(d, pos + (t + 1)));
            }
        };
        lemma_zero_run_value(d, pos + 1, (k - 1) as nat);
    }
}

/// A buffer whose bits from `pos` on are all zero has a zero run reaching
/// its end.
pub proof fn lemma_zero_run_to_end(d: Seq<u8>, pos: nat)
    requires
        pos <= total_bits(d),
        forall|j: nat| pos <= j && j < total_bits(d) ==> !#[trigger] bit_at(d, j),
    ensures
        zero_run(d, pos) == total_bits(d) - pos,
    decreases total_bits(d) - pos,
{
    if pos < total_bits(d) {
        assert(!bit_at(d, pos));
        lemma_zero_run_to_end(d, pos + 1);
    }
}

/// Exp-Golomb round trip: any well-formed encoding of `k` zero bits, a set
/// bit, and a `k`-bit suffix decodes to exactly `2^k - 1 + suffix` and
/// consumes exactly `2k + 1` bits.
pub proof fn lemma_exp_golomb_round_trip(d: Seq<u8>, pos: nat, k: nat, name: &'static str)
    requires
        k <= 31,
        forall|t: nat| t < k ==> !#[trigger] bit_at(d, pos + t),
        pos + k < total_bits(d),
        bit_at(d, pos + k),
        pos + 2 * k + 1 <= total_bits(d),
    ensures
        spec_read_ue(d, pos, name) == Ok::<(u32, nat), BitReaderError>(
            (((pow2(k) - 1 + bits_value(d, pos + k + 1, k)) as u32, pos + 2 * k + 1)),
        ),
{
    lemma_zero_run_value(d, pos, k);
}

/// Appending any bytes after a payload whose trailing pattern was valid makes
/// `finish` fail with `TrailingData`: extra data is never accepted silently.
pub proof fn lemma_trailing_data_rejected(d: Seq<u8>, extra: Seq<u8>, pos: nat, name: &'static str)
    requires
        spec_finish(d, pos, name) is Ok,
        extra.len() > 0,
    ensures
        spec_finish(d + extra, pos, name) == Err::<(), BitReaderError>(
            BitReaderError::TrailingData { name },
        ),
{
    assert(total_bits(d + extra) == total_bits(d) + extra.len() * 8);
    assert(total_bits(d + extra) > pos + 8);
}

/// Sequential, forward-only bit cursor over an immutable byte slice.
pub struct BitReader<'a> {
    data: &'a [u8],
    pos: usize,
}

impl<'a> BitReader<'a> {
    /// The bytes the reader walks over.
    pub closed spec fn data(self) -> Seq<u8> {
        self.data@
    }

    /// The current position, in bits from the start of the buffer.
    pub closed spec fn pos(self) -> nat {
        self.pos as nat
    }

    /// The cursor never leaves the buffer, and the buffer's bit count fits
    /// the machine word.
    pub closed spec fn wf(self) -> bool {
        self.pos as nat <= total_bits(self.data@) && total_bits(self.data@) <= usize::MAX as nat
    }

    /// Creates a reader positioned at bit 0 of byte 0.
    pub fn new(data: &'a [u8]) -> (r: BitReader<'a>)
        requires
            data@.len() * 8 <= usize::MAX as nat,
        ensures
            r.wf(),
            r.data() == data@,
            r.pos() == 0,
    {
        BitReader { data, pos: 0 }
    }

    /// Reads the single bit at the cursor.
    fn read_bit(&mut self) -> (b: bool)
        requires
            old(self).wf(),
            old(self).pos() < total_bits(old(self).data()),
        ensures
            final(self).wf(),
            final(self).data() == old(self).data(),
            final(self).pos() == old(self).pos() + 1,
            b == bit_at(old(self).data(), old(self).pos()),
    {
        proof {
            lemma_bit_index_in_range(self.data@.len() as nat, self.pos as nat);
        }
        let byte = self.data[self.pos / 8];
        let sh: u8 = 7 - ((self.pos % 8) as u8);
        let b = ((byte >> sh) & 1) == 1;
        self.pos = self.pos + 1;
        b
    }

    /// Consumes one bit and returns it as a boolean.
    pub fn read_bool(&mut self, name: &'static str) -> (res: Result<bool, BitReaderError>)
        requires
            old(self).wf(),
        ensures
            final(self).wf(),
            final(self).data() == old(self).data(),
            match res {
                Ok(b) => spec_read_bool(old(self).data(), old(self).pos(), name) == Ok::<
                    (bool, nat),
                    BitReaderError,
                >((b, final(self).pos())),
                Err(e) => spec_read_bool(old(self).data(), old(self).pos(), name) == Err::<
                    (bool, nat),
                    BitReaderError,
                >(e),
            },
    {
        if self.pos < self.data.len() * 8 {
            Ok(self.read_bit())
        } else {
            Err(BitReaderError::OutOfBits { name })
        }
    }

    /// Consumes `n` bits and returns their big-endian value.
    fn read_bits(&mut self, n: usize, name: &'static str) -> (res: Result<u64, BitReaderError>)
        requires
            old(self).wf(),
            n <= 64,
        ensures
            final(self).wf(),
            final(self).data() == old(self).data(),
            match res {
                Ok(v) => spec_read_bits(old(self).data(), old(self).pos(), n as nat, name) == Ok::<
                    (nat, nat),
                    BitReaderError,
                >((v as nat, final(self).pos())),
                Err(e) => spec_read_bits(old(self).data(), old(self).pos(), n as nat, name)
                    == Err::<(nat, nat), BitReaderError>(e),
            },
    {
        let total = self.data.len() * 8;
        if n > total - self.pos {
            return Err(BitReaderError::OutOfBits { name });
        }
        let ghost d = self.data@;
        let ghost pos0 = self.pos as nat;
        let mut v: u64 = 0;
        let mut i: usize = 0;
        proof {
            lemma2_to64();
        }
        while i < n
            invariant
                self.wf(),
                self.data@ == d,
                i <= n,
                n <= 64,
                pos0 + n <= total_bits(d),
                self.pos as nat == pos0 + i,
                v as nat == bits_value(d, pos0, i as nat),
                v < pow2(i as nat),
            decreases n - i,
        {
            proof {
                lemma_pow2_unfold((i + 1) as nat);
                if (i + 1) < 64 {
                    lemma_pow2_strictly_increases((i + 1) as nat, 64);
                }
                lemma2_to64();
                lemma2_to64_rest();
            }
            let b = self.read_bit();
            v = v * 2 + (if b {
                1
            } else {
                0
            });
            i = i + 1;
        }
        Ok(v)
    }

    /// Consumes `n` bits (1 to 8) and returns them as a `u8`.
    pub fn read_u8(&mut self, n: usize, name: &'static str) -> (res: Result<u8, BitReaderError>)
        requires
            old(self).wf(),
            1 <= n <= 8,
        ensures
            final(self).wf(),
            final(self).data() == old(self).data(),
            match res {
                Ok(v) => spec_read_bits(old(self).data(), old(self).pos(), n as nat, name) == Ok::<
                    (nat, nat),
                    BitReaderError,
                >((v as nat, final(self).pos())),
                Err(e) => spec_read_bits(old(self).data(), old(self).pos(), n as nat, name)
                    == Err::<(nat, nat), BitReaderError>(e),
            },
    {
        let v = match self.read_bits(n, name) {
            Ok(v) => v,
            Err(e) => {
                return Err(e);
            },
        };
        proof {
            lemma_bits_value_bound(old(self).data(), old(self).pos(), n as nat);
            if (n as nat) < 8 {
                lemma_pow2_strictly_increases(n as nat, 8);
            }
            lemma2_to64();
        }
        Ok(v as u8)
    }

    /// Consumes `n` bits (1 to 16) and returns them as a `u16`.
    pub fn read_u16(&mut self, n: usize, name: &'static str) -> (res: Result<u16, BitReaderError>)
        requires
            old(self).wf(),
            1 <= n <= 16,
        ensures
            final(self).wf(),
            final(self).data() == old(self).data(),
            match res {
                Ok(v) => spec_read_bits(old(self).data(), old(self).pos(), n as nat, name) == Ok::<
                    (nat, nat),
                    BitReaderError,
                >((v as nat, final(self).pos())),
                Err(e) => spec_read_bits(old(self).data(), old(self).pos(), n as nat, name)
                    == Err::<(nat, nat), BitReaderError>(e),
            },
    {
        let v = match self.read_bits(n, name) {
            Ok(v) => v,
            Err(e) => {
                return Err(e);
            },
        };
        proof {
            lemma_bits_value_bound(old(self).data(), old(self).pos(), n as nat);
            if (n as nat) < 16 {
                lemma_pow2_strictly_increases(n as nat, 16);
            }
            lemma2_to64();
        }
        Ok(v as u16)
    }

    /// Consumes `n` bits (1 to 32) and returns them as a `u32`.
    pub fn read_u32(&mut self, n: usize, name: &'static str) -> (res: Result<u32, BitReaderError>)
        requires
            old(self).wf(),
            1 <= n <= 32,
        ensures
            final(self).wf(),
            final(self).data() == old(self).data(),
            match res {
                Ok(v) => spec_read_bits(old(self).data(), old(self).pos(), n as nat, name) == Ok::<
                    (nat, nat),
                    BitReaderError,
                >((v as nat, final(self).pos())),
                Err(e) => spec_read_bits(old(self).data(), old(self).pos(), n as nat, name)
                    == Err::<(nat, nat), BitReaderError>(e),
            },
    {
        let v = match self.read_bits(n, name) {
            Ok(v) => v,
            Err(e) => {
                return Err(e);
            },
        };
        proof {
            lemma_bits_value_bound(old(self).data(), old(self).pos(), n as nat);
            if (n as nat) < 32 {
                lemma_pow2_strictly_increases(n as nat, 32);
            }
            lemma2_to64();
        }
        Ok(v as u32)
    }

    /// Consumes an unsigned Exp-Golomb code.
    pub fn read_ue(&mut self, name: &'static str) -> (res: Result<u32, BitReaderError>)
        requires
            old(self).wf(),
        ensures
            final(self).wf(),
            final(self).data() == old(self).data(),
            match res {
                Ok(v) => spec_read_ue(old(self).data(), old(self).pos(), name) == Ok::<
                    (u32, nat),
                    BitReaderError,
                >((v, final(self).pos())),
                Err(e) => spec_read_ue(old(self).data(), old(self).pos(), name) == Err::<
                    (u32, nat),
                    BitReaderError,
                >(e),
            },
    {
        let total = self.data.len() * 8;
        let ghost d = self.data@;
        let ghost pos0 = self.pos as nat;
        let mut k: usize = 0;
        loop
            invariant_except_break
                self.pos as nat == pos0 + k as nat,
            invariant
                self.wf(),
                self.data@ == d,
                d == old(self).data(),
                pos0 == old(self).pos(),
                total == total_bits(d),
                (pos0 + k as nat) <= self.pos as nat,
                forall|t: nat| t < k as nat ==> !#[trigger] bit_at(d, pos0 + t),
            ensures
                self.wf(),
                self.data@ == d,
                self.pos as nat == (pos0 + k as nat + 1),
                (pos0 + k as nat) < total_bits(d),
                bit_at(d, pos0 + k as nat),
            decreases total_bits(d) - self.pos,
        {
            if self.pos == total {
                proof {
                    assert forall|j: nat| pos0 <= j && j < total_bits(d) implies !#[trigger] bit_at(
                        d,
                        j,
                    ) by {
                        assert(!bit_at(d, pos0 + ((j - pos0) as nat)));
                    }
                    lemma_zero_run_to_end(d, pos0);
                }
                return Err(BitReaderError::OutOfBits { name });
            }
            let b = self.read_bit();
            if b {
                break ;
            }
            k = k + 1;
        }
        // The cursor sits one past the terminating set bit; `k` zero bits ran
        // before it.
        proof {
            lemma_zero_run_value(d, pos0, k as nat);
        }
        if k > 31 {
            return Err(BitReaderError::ExpGolombOverflow { name });
        }
        let suffix = match self.read_bits(k, name) {
            Ok(v) => v,
            Err(e) => {
                return Err(e);
            },
        };
        proof {
            lemma_bits_value_bound(d, pos0 + k as nat + 1, k as nat);
            if k < 31 {
                lemma_pow2_strictly_increases(k as nat, 31);
            }
            lemma2_to64();
        }
        let base: u32 = low_mask_u32(k as u32);
        Ok(base + (suffix as u32))
    }

    /// Consumes a signed Exp-Golomb code (zig-zag mapping of the unsigned
    /// code: even to `k / 2`, odd to `-((k + 1) / 2)`).
    pub fn read_se(&mut self, name: &'static str) -> (res: Result<i32, BitReaderError>)
        requires
            old(self).wf(),
        ensures
            final(self).wf(),
            final(self).data() == old(self).data(),
            match res {
                Ok(v) => spec_read_se(old(self).data(), old(self).pos(), name) == Ok::<
                    (i32, nat),
                    BitReaderError,
                >((v, final(self).pos())),
                Err(e) => spec_read_se(old(self).data(), old(self).pos(), name) == Err::<
                    (i32, nat),
                    BitReaderError,
                >(e),
            },
    {
        let k = match self.read_ue(name) {
            Ok(v) => v,
            Err(e) => {
                return Err(e);
            },
        };
        proof {
            lemma_read_ue_bound(old(self).data(), old(self).pos(), name);
        }
        if k % 2 == 0 {
            Ok((k / 2) as i32)
        } else {
            Ok(-(((k + 1) / 2) as i32))
        }
    }

    /// Whether any set bit remains strictly after the cursor, i.e. whether
    /// more than trailing padding is left. Consumes nothing.
    pub fn has_more_data(&self) -> (res: bool)
        requires
            self.wf(),
        ensures
            res == spec_has_more(self.data(), self.pos()),
    {
        let total = self.data.len() * 8;
        let ghost d = self.data@;
        if self.pos >= total {
            return false;
        }
        let mut j: usize = self.pos + 1;
        while j < total
            invariant
                self.wf(),
                self.data@ == d,
                total == total_bits(d),
                self.pos < j,
                j <= total,
                forall|t: nat| self.pos() < t && t < j as nat ==> !#[trigger] bit_at(d, t),
            decreases total_bits(d) - j,
        {
            proof {
                lemma_bit_index_in_range(d.len(), j as nat);
            }
            let byte = self.data[j / 8];
            let sh: u8 = 7 - ((j % 8) as u8);
            if ((byte >> sh) & 1) == 1 {
                assert(bit_at(d, j as nat));
                return true;
            }
            j = j + 1;
        }
        false
    }

    /// Validates that the rest of the payload is exactly the RBSP trailing
    /// pattern: one set stop bit, then zero padding within the final byte.
    pub fn finish(&mut self, name: &'static str) -> (res: Result<(), BitReaderError>)
        requires
            old(self).wf(),
        ensures
            final(self).wf(),
            final(self).data() == old(self).data(),
            res == spec_finish(old(self).data(), old(self).pos(), name),
    {
        let ghost d = self.data@;
        let ghost pos0 = self.pos as nat;
        let total = self.data.len() * 8;
        if self.pos == total {
            return Err(BitReaderError::TrailingData { name });
        }
        if total - self.pos > 8 {
            return Err(BitReaderError::TrailingData { name });
        }
        let stop = self.read_bit();
        if !stop {
            return Err(BitReaderError::TrailingData { name });
        }
        while self.pos < total
            invariant
                self.wf(),
                self.data@ == d,
                d == old(self).data(),
                pos0 == old(self).pos(),
                total == total_bits(d),
                pos0 < self.pos as nat,
                pos0 < total_bits(d),
                bit_at(d, pos0),
                total_bits(d) <= pos0 + 8,
                forall|j: nat| pos0 < j && j < self.pos as nat ==> !#[trigger] bit_at(d, j),
            decreases total_bits(d) - self.pos,
        {
            let ghost pcur = self.pos as nat;
            let b = self.read_bit();
            if b {
                assert(bit_at(d, pcur));
                return Err(BitReaderError::TrailingData { name });
            }
        }
        Ok(())
    }
}

/// `2^n - 1` for `n` up to 31, the base value of an Exp-Golomb code with `n`
/// leading zeros.
fn low_mask_u32(n: u32) -> (res: u32)
    requires
        n <= 31,
    ensures
        res as nat == pow2(n as nat) - 1,
{
    proof {
        lemma2_to64();
        if n < 31 {
            lemma_pow2_strictly_increases(n as nat, 31);
        }
        vstd::bits::lemma_u32_shl_is_mul(1u32, n);
    }
    (1u32 << n) - 1
}

/// A bit index below the buffer's bit count addresses a byte inside the
/// buffer.
proof fn lemma_bit_index_in_range(len: nat, i: nat)
    requires
        i < len * 8,
    ensures
        i / 8 < len,
        i % 8 <= 7,
{
    assert(i / 8 < len) by (nonlinear_arith)
        requires
            i < len * 8,
    ;
}

} // verus!
