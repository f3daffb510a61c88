//! The generic decode contract: bit-extraction primitives, the ISA-width
//! legality gate, the error taxonomy, and the [`Decode`] operation set that
//! every word-width-specific decoder implements.

use vstd::prelude::*;
use vstd::arithmetic::div_mod::{
    lemma_basic_div, lemma_div_denominator, lemma_div_non_zero, lemma_fundamental_div_mod,
    lemma_mod_bound, lemma_mod_multiples_vanish, lemma_multiply_divide_lt, lemma_small_mod,
};
use vstd::bits::{
    lemma_u32_low_bits_mask_is_mod, lemma_u32_pow2_no_overflow, lemma_u32_shl_is_mul,
    lemma_u32_shr_is_div, lemma_u64_pow2_no_overflow, lemma_u64_shl_is_mul,
};
use vstd::arithmetic::power2::{
    lemma2_to64, lemma2_to64_rest, lemma_pow2_adds, lemma_pow2_pos, lemma_pow2_strictly_increases,
    lemma_pow2_unfold, pow2,
};

use crate::instruction::{Extensions, Instruction, OpcodeKind};
use crate::Isa;

pub mod inst_16;
pub mod inst_32;

verus! {

/// Why a decode failed.
#[derive(Debug, Clone, Copy, PartialEq, Eq)]
pub enum DecodingError {
    /// The 16-bit decode path was handed a word whose low bits mark a
    /// 32-bit-or-longer instruction.
    Not16BitInst,
    /// The 32-bit decode path was handed a word whose low bits do not mark
    /// a 32-bit instruction.
    Not32BitInst,
    /// A funct3 field has no mapping for the identified primary opcode.
    IllegalFunct3,
    /// A funct5 field has no mapping for the identified primary opcode.
    IllegalFunct5,
    /// A funct6 field has no mapping for the identified primary opcode.
    IllegalFunct6,
    /// A funct7 field has no mapping for the identified primary opcode.
    IllegalFunct7,
    /// The primary opcode field itself has no mapping.
    IllegalOpcode,
    /// The opcode exists only under the 64-bit ISA but decoding ran under
    /// the 32-bit ISA.
    OnlyRv64Inst,
}

/// Bit `i` of `v`: whether the coefficient of `2^i` in `v`'s binary
/// expansion is one.
pub open spec fn spec_bit(v: nat, i: nat) -> bool {
    v / pow2(i) % 2 == 1
}

/// Contiguous bits `[start, end]` of `v`, right-aligned to bit 0.
pub open spec fn spec_slice(v: nat, end: nat, start: nat) -> nat
    recommends
        start <= end,
{
    v / pow2(start) % pow2((end - start + 1) as nat)
}

/// The bits of `v` at the listed positions, packed in list order with the
/// first listed position becoming the most significant output bit.
pub open spec fn spec_gather(v: nat, mask: Seq<u32>) -> nat
    decreases mask.len(),
{
    if mask.len() == 0 {
        0
    } else {
        2 * spec_gather(v, mask.drop_last()) + (if spec_bit(v, mask.last() as nat) {
            1nat
        } else {
            0nat
        })
    }
}

/// The low `width` bits of `bits` read as a two's-complement signed value.
pub open spec fn spec_to_signed(bits: u32, width: u32) -> i32
    recommends
        1 <= width <= 32,
{
    let m = (bits as nat) % pow2(width as nat);
    if m >= pow2((width - 1) as nat) {
        (m - pow2(width as nat)) as i32
    } else {
        m as i32
    }
}

/// What the ISA gate returns: the opcode itself under the 64-bit ISA, the
/// width error under the 32-bit ISA.
pub open spec fn spec_only_rv64(opcode: OpcodeKind, isa: Isa) -> Result<OpcodeKind, DecodingError> {
    match isa {
        Isa::Rv32 => Err(DecodingError::OnlyRv64Inst),
        Isa::Rv64 => Ok(opcode),
    }
}

/// ISA-width legality gate: a 64-bit-only opcode passes unchanged under
/// `Isa::Rv64` and is rejected with `OnlyRv64Inst` under `Isa::Rv32`.
pub fn only_rv64(opcode: OpcodeKind, isa: Isa) -> (res: Result<OpcodeKind, DecodingError>)
    ensures
        res == spec_only_rv64(opcode, isa),
{
    match isa {
        Isa::Rv32 => Err(DecodingError::OnlyRv64Inst),
        Isa::Rv64 => Ok(opcode),
    }
}

/// Bit-extraction primitives shared by the word-width-specific decoders.
///
/// `as_nat` and `width` are the mathematical view of the word: its value as
/// a natural number and its size in bits.  Every primitive is specified
/// against that view alone.
pub trait DecodeUtil: Sized + Copy {
    /// The word's value as a natural number.
    spec fn as_nat(self) -> nat;

    /// The word's size in bits.
    spec fn width(self) -> nat;

    /// The extension-family classification table of this word width.
    spec fn spec_extension(self) -> Extensions;

    /// Contiguous bits `[start, end]` (inclusive) of the word,
    /// right-aligned to bit 0.
    fn slice(self, end: u32, start: u32) -> (r: Self)
        requires
            start <= end,
            (end as nat) < self.width(),
        ensures
            r.as_nat() == spec_slice(self.as_nat(), end as nat, start as nat);

    /// Packs the bits found at the listed positions into a new value, in
    /// list order, the first listed position becoming the most significant
    /// output bit.
    fn gather(self, mask: &[u32]) -> (r: u32)
        requires
            mask@.len() <= 32,
            forall|i: int| 0 <= i < mask@.len() ==> (mask@[i] as nat) < self.width(),
        ensures
            r as nat == spec_gather(self.as_nat(), mask@);

    /// Maps the word to the ISA extension family its opcode field belongs
    /// to.  Total: an unmapped pattern classifies into the base family and
    /// is rejected later, by the opcode table, as `IllegalOpcode`.
    fn extension(self) -> (r: Extensions)
        ensures
            r == self.spec_extension();

    /// Reads the low `bit_size` bits of `imm32` as a two's-complement
    /// signed quantity and sign-extends them to a full signed value.
    fn to_signed_nbit(self, imm32: i32, bit_size: u32) -> (r: i32)
        requires
            1 <= bit_size <= 32,
        ensures
            r == spec_to_signed(imm32 as u32, bit_size);
}

/// The operation set every word-width-specific decoder implements.
///
/// The five `spec_parse_*` members are the decoder's field-layout tables in
/// mathematical form; each executable operation returns exactly what its
/// table says.  `decode` is pinned to a fixed orchestration of the five
/// tables: opcode first, then rd, rs1, rs2 and imm against that opcode,
/// short-circuiting on the first failure.
pub trait Decode: Sized + Copy {
    /// Opcode-resolution table: primary opcode field, sub-opcode fields,
    /// extension classification and the ISA-width gate.
    spec fn spec_parse_opcode(self, isa: Isa) -> Result<OpcodeKind, DecodingError>;

    /// Destination-register table: which formats carry `rd` and where.
    spec fn spec_parse_rd(self, opkind: OpcodeKind) -> Result<Option<usize>, DecodingError>;

    /// First-source-register table.
    spec fn spec_parse_rs1(self, opkind: OpcodeKind) -> Result<Option<usize>, DecodingError>;

    /// Second-source-register table.
    spec fn spec_parse_rs2(self, opkind: OpcodeKind) -> Result<Option<usize>, DecodingError>;

    /// Immediate table: gather order and nominal width per format.
    spec fn spec_parse_imm(self, opkind: OpcodeKind, isa: Isa) -> Result<Option<i32>, DecodingError>;

    /// Decode the word into an [`Instruction`], or report the first
    /// failure.  The opcode is resolved first, then each operand field
    /// against that opcode, in the fixed order rd, rs1, rs2, imm; the
    /// first failing step aborts the whole decode, so a partially
    /// populated instruction is never built.
    fn decode(&self, isa: Isa) -> (res: Result<Instruction, DecodingError>)
        ensures
            res == (match self.spec_parse_opcode(isa) {
                Err(e) => Err(e),
                Ok(opc) => match self.spec_parse_rd(opc) {
                    Err(e) => Err(e),
                    Ok(rd) => match self.spec_parse_rs1(opc) {
                        Err(e) => Err(e),
                        Ok(rs1) => match self.spec_parse_rs2(opc) {
                            Err(e) => Err(e),
                            Ok(rs2) => match self.spec_parse_imm(opc, isa) {
                                Err(e) => Err(e),
                                Ok(imm) => Ok((Instruction { opc, rd, rs1, rs2, imm })),
                            },
                        },
                    },
                },
            });

    /// Resolve the opcode identity of the word.
    fn parse_opcode(self, isa: Isa) -> (res: Result<OpcodeKind, DecodingError>)
        ensures
            res == self.spec_parse_opcode(isa);

    /// Resolve the destination register against a resolved opcode.
    fn parse_rd(self, opkind: &OpcodeKind) -> (res: Result<Option<usize>, DecodingError>)
        ensures
            res == self.spec_parse_rd(*opkind);

    /// Resolve the first source register against a resolved opcode.
    fn parse_rs1(self, opkind: &OpcodeKind) -> (res: Result<Option<usize>, DecodingError>)
        ensures
            res == self.spec_parse_rs1(*opkind);

    /// Resolve the second source register against a resolved opcode.
    fn parse_rs2(self, opkind: &OpcodeKind) -> (res: Result<Option<usize>, DecodingError>)
        ensures
            res == self.spec_parse_rs2(*opkind);

    /// Resolve the immediate against a resolved opcode.
    fn parse_imm(self, opkind: &OpcodeKind, isa: Isa) -> (res: Result<Option<i32>, DecodingError>)
        ensures
            res == self.spec_parse_imm(*opkind, isa);
}

/// Twice any power of two up to `2^31` still fits the 32-bit space.
pub(crate) proof fn lemma_pow2_step_bound(k: nat)
    requires
        k <= 31,
    ensures
        2 * pow2(k) <= 0x1_0000_0000,
        pow2((k + 1) as nat) == 2 * pow2(k),
{
    if k < 31 {
        lemma_pow2_strictly_increases(k, 31);
    }
    lemma2_to64();
    lemma2_to64_rest();
    lemma_pow2_unfold((k + 1) as nat);
}

/// Shared executable body of the sign-extension primitive: masks `imm32`
/// to its low `bit_size` bits, then subtracts `2^bit_size` when the sign
/// bit at position `bit_size - 1` is set.
pub(crate) fn to_signed_nbit_impl(imm32: i32, bit_size: u32) -> (r: i32)
    requires
        1 <= bit_size <= 32,
    ensures
        r == spec_to_signed(imm32 as u32, bit_size),
{
    let bits: u32 = #[verifier::truncate] (imm32 as u32);
    let w: u32 = bit_size;
    let masked: u32 = if w == 32 {
        proof {
            lemma2_to64();
            lemma_small_mod(bits as nat, pow2(32));
        }
        bits
    } else {
        proof {
            lemma_u32_pow2_no_overflow(w as nat);
            lemma_u32_shl_is_mul(1u32, w);
            lemma_u32_low_bits_mask_is_mod(bits, w as nat);
        }
        bits & ((1u32 << w) - 1)
    };
    let sign: u32 = (masked >> (w - 1)) & 1;
    proof {
        lemma_u32_shr_is_div(masked, (w - 1) as u32);
        lemma_u32_low_bits_mask_is_mod(masked >> (w - 1), 1);
        lemma2_to64();
        lemma2_to64_rest();
        lemma_pow2_unfold(w as nat);
        lemma_pow2_pos((w - 1) as nat);
        lemma_pow2_pos(w as nat);
        lemma_mod_bound(bits as int, pow2(w as nat) as int);
        lemma_multiply_divide_lt(masked as int, pow2((w - 1) as nat) as int, 2);
        lemma_small_mod((masked as nat) / pow2((w - 1) as nat), 2);
        if masked >= pow2((w - 1) as nat) {
            lemma_div_non_zero(masked as int, pow2((w - 1) as nat) as int);
        } else {
            lemma_basic_div(masked as int, pow2((w - 1) as nat) as int);
        }
        if w < 32 {
            lemma_pow2_strictly_increases(w as nat, 32);
        }
        if ((w - 1) as nat) < 31 {
            lemma_pow2_strictly_increases((w - 1) as nat, 31);
        }
    }
    if sign == 1 {
        let p: u64 = 1u64 << w;
        proof {
            lemma_u64_pow2_no_overflow(w as nat);
            lemma_u64_shl_is_mul(1u64, w as u64);
        }
        let wide: i64 = masked as i64 - p as i64;
        wide as i32
    } else {
        masked as i32
    }
}

/// A scattered immediate assembled from `mask`, shifted left by `shift`
/// and sign-extended to `width` bits.
pub open spec fn spec_imm_signed(v: nat, mask: Seq<u32>, shift: nat, width: u32) -> i32
    recommends
        mask.len() + shift <= 31,
        1 <= width <= 32,
{
    spec_to_signed((spec_gather(v, mask) * pow2(shift)) as u32, width)
}

/// A scattered immediate assembled from `mask` and shifted left by
/// `shift`, read as an unsigned quantity.
pub open spec fn spec_imm_unsigned(v: nat, mask: Seq<u32>, shift: nat) -> i32
    recommends
        mask.len() + shift <= 31,
{
    (spec_gather(v, mask) * pow2(shift)) as i32
}

/// Bounds the gathered-and-shifted value below `2^31` and aligns the
/// executable shift with the mathematical product.
proof fn lemma_imm_fits<T: DecodeUtil>(word: T, mask: Seq<u32>, shift: nat)
    requires
        mask.len() + shift <= 31,
    ensures
        spec_gather(word.as_nat(), mask) * pow2(shift) < pow2((mask.len() + shift) as nat),
        pow2((mask.len() + shift) as nat) <= 0x8000_0000,
{
    let g = spec_gather(word.as_nat(), mask);
    lemma_gather_bound(word.as_nat(), mask);
    lemma_pow2_pos(shift);
    assert(g * pow2(shift) < pow2(mask.len()) * pow2(shift)) by (nonlinear_arith)
        requires
            g < pow2(mask.len()),
            pow2(shift) > 0,
    ;
    lemma_pow2_adds(mask.len(), shift);
    if mask.len() + shift < 31 {
        lemma_pow2_strictly_increases((mask.len() + shift) as nat, 31);
    }
    lemma2_to64();
}

/// Assembles a signed scattered immediate: gathers the listed positions,
/// shifts the packed value into place and sign-extends it to `width` bits.
pub(crate) fn imm_signed<T: DecodeUtil>(word: T, mask: &[u32], shift: u32, width: u32) -> (r: i32)
    requires
        mask@.len() + shift <= 31,
        forall|i: int| 0 <= i < mask@.len() ==> (mask@[i] as nat) < word.width(),
        1 <= width <= 32,
    ensures
        r == spec_imm_signed(word.as_nat(), mask@, shift as nat, width),
{
    let g: u32 = word.gather(mask);
    proof {
        lemma_imm_fits(word, mask@, shift as nat);
        lemma_u32_shl_is_mul(g, shift);
    }
    let sh: u32 = g << shift;
    proof {
        assert((sh as i32) as u32 == sh);
    }
    word.to_signed_nbit(sh as i32, width)
}

/// Assembles an unsigned scattered immediate: gathers the listed positions
/// and shifts the packed value into place, zero-extended.
pub(crate) fn imm_unsigned<T: DecodeUtil>(word: T, mask: &[u32], shift: u32) -> (r: i32)
    requires
        mask@.len() + shift <= 31,
        forall|i: int| 0 <= i < mask@.len() ==> (mask@[i] as nat) < word.width(),
    ensures
        r == spec_imm_unsigned(word.as_nat(), mask@, shift as nat),
{
    let g: u32 = word.gather(mask);
    proof {
        lemma_imm_fits(word, mask@, shift as nat);
        lemma_u32_shl_is_mul(g, shift);
    }
    let sh: u32 = g << shift;
    sh as i32
}

/// A gathered value is bounded by two to the number of positions listed.
pub proof fn lemma_gather_bound(v: nat, mask: Seq<u32>)
    ensures
        spec_gather(v, mask) < pow2(mask.len()),
    decreases mask.len(),
{
    if mask.len() == 0 {
        lemma2_to64();
    } else {
        lemma_gather_bound(v, mask.drop_last());
        lemma_pow2_unfold(mask.len());
    }
}

/// Slicing leaves no bits above the slice's own width: the result is below
/// `2^(end - start + 1)`, so every bit position above `end - start` is
/// clear.
pub proof fn lemma_slice_bounded(v: nat, end: nat, start: nat)
    requires
        start <= end,
    ensures
        spec_slice(v, end, start) < pow2((end - start + 1) as nat),
        forall|i: nat| i > end - start ==> !spec_bit(spec_slice(v, end, start), i),
{
    let len = (end - start + 1) as nat;
    lemma_pow2_pos(start);
    lemma_pow2_pos(len);
    lemma_mod_bound((v / pow2(start)) as int, pow2(len) as int);
    assert forall|i: nat| i > end - start implies !spec_bit(spec_slice(v, end, start), i) by {
        let s = spec_slice(v, end, start);
        if i > len {
            lemma_pow2_strictly_increases(len, i);
        }
        lemma_pow2_pos(i);
        lemma_basic_div(s as int, pow2(i) as int);
    }
}

/// Sign extension is idempotent: re-extending the truncated bits of an
/// already sign-extended value gives the same value back.
pub proof fn lemma_to_signed_idempotent(bits: u32, width: u32)
    requires
        1 <= width <= 32,
    ensures
        spec_to_signed(spec_to_signed(bits, width) as u32, width) == spec_to_signed(bits, width),
{
    let w = width as nat;
    let m = (bits as nat) % pow2(w);
    let r = spec_to_signed(bits, width);
    lemma_pow2_pos(w);
    lemma_mod_bound(bits as int, pow2(w) as int);
    lemma_pow2_unfold(w);
    lemma2_to64();
    if ((width - 1) as nat) < 31 {
        lemma_pow2_strictly_increases((width - 1) as nat, 31);
    }
    if m >= pow2((width - 1) as nat) {
        // r is negative: its unsigned truncation is r + 2^32, which differs
        // from m by a multiple of 2^width, so the masked bits are unchanged.
        assert(r as int == m - pow2(w));
        assert((r as u32) as int == r as int + 0x1_0000_0000) by (bit_vector)
            requires
                r < 0,
        ;
        lemma_pow2_adds(w, (32 - width) as nat);
        let q = (pow2((32 - width) as nat) - 1) as int;
        assert((r as u32) as int == q * pow2(w) + m) by (nonlinear_arith)
            requires
                (r as u32) as int == m + pow2(w) * pow2((32 - width) as nat) - pow2(w),
                q == pow2((32 - width) as nat) - 1,
        ;
        lemma_mod_multiples_vanish(q, m as int, pow2(w) as int);
        lemma_small_mod(m, pow2(w));
        assert(((r as u32) as nat) % pow2(w) == m);
    } else {
        // r equals the masked bits themselves and they fit in width bits.
        assert(r as int == m);
        assert((r as u32) as nat == m);
        lemma_small_mod(m, pow2(w));
    }
}

/// The positions `n-1, n-2, ..., 0`: every bit of an `n`-bit value in
/// original order, most significant first.
pub open spec fn desc_mask(n: nat) -> Seq<u32>
    recommends
        n <= 32,
{
    Seq::new(n, |k: int| (n - 1 - k) as u32)
}

/// Gathering at positions that are all shifted up by one reads the same
/// bits as gathering the halved value at the unshifted positions.
proof fn lemma_gather_shift(v: nat, mask: Seq<u32>)
    requires
        forall|i: int| 0 <= i < mask.len() ==> mask[i] >= 1,
    ensures
        spec_gather(v, mask) == spec_gather(v / 2, mask.map_values(|m: u32| (m - 1) as u32)),
    decreases mask.len(),
{
    let down = mask.map_values(|m: u32| (m - 1) as u32);
    if mask.len() == 0 {
        assert(down =~= Seq::<u32>::empty());
    } else {
        lemma_gather_shift(v, mask.drop_last());
        assert(down.drop_last() =~= mask.drop_last().map_values(|m: u32| (m - 1) as u32));
        let p = mask.last() as nat;
        lemma_pow2_unfold(p);
        lemma_pow2_pos((p - 1) as nat);
        lemma_div_denominator(v as int, 2, pow2((p - 1) as nat) as int);
        assert(spec_bit(v, p) == spec_bit(v / 2, (p - 1) as nat));
        assert(down.last() as nat == p - 1);
    }
}

/// Gathering every bit of a value, most significant first, is the
/// identity transform.
pub proof fn lemma_gather_identity(v: nat, n: nat)
    requires
        v < pow2(n),
        n <= 32,
    ensures
        spec_gather(v, desc_mask(n)) == v,
    decreases n,
{
    if n == 0 {
        assert(pow2(0) == 1) by {
            lemma2_to64();
        }
        assert(desc_mask(0) =~= Seq::<u32>::empty());
    } else {
        let up = desc_mask((n - 1) as nat).map_values(|m: u32| (m + 1) as u32);
        assert(desc_mask(n).drop_last() =~= up);
        assert(forall|i: int| 0 <= i < up.len() ==> up[i] >= 1);
        lemma_gather_shift(v, up);
        assert(up.map_values(|m: u32| (m - 1) as u32) =~= desc_mask((n - 1) as nat));
        lemma_pow2_unfold(n);
        lemma_multiply_divide_lt(v as int, 2, pow2((n - 1) as nat) as int);
        lemma_gather_identity(v / 2, (n - 1) as nat);
        assert(desc_mask(n).last() == 0u32);
        assert(pow2(0) == 1) by {
            lemma2_to64();
        }
        assert(spec_bit(v, 0) == (v % 2 == 1));
        lemma_fundamental_div_mod(v as int, 2);
        assert(spec_gather(v, desc_mask(n)) == 2 * (v / 2) + (if v % 2 == 1 {
            1nat
        } else {
            0nat
        }));
    }
}

/// Every bit of a 32-bit word, gathered most significant first, gives the
/// word back.
pub proof fn lemma_gather_identity_u32(v: u32)
    ensures
        spec_gather(v as nat, desc_mask(32)) == v as nat,
{
    lemma2_to64();
    lemma_gather_identity(v as nat, 32);
}

/// Every bit of a 16-bit word, gathered most significant first, gives the
/// word back.
pub proof fn lemma_gather_identity_u16(v: u16)
    ensures
        spec_gather(v as nat, desc_mask(16)) == v as nat,
{
    lemma2_to64();
    lemma_gather_identity(v as nat, 16);
}

} // verus!
