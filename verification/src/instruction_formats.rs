use vstd::prelude::*;

use crate::util::{bit_field, extract_bits, lemma_bit_field_ranges};

verus! {

// Sign extension of an `n`-bit raw field to a 32-bit signed value:
// values at or above `1 << (n - 1)` represent negatives.

/// Sign-extend a 12-bit value (I- and S-type immediates).
pub open spec fn sign_extend_12(raw: u32) -> i32
    recommends
        raw < 0x1000,
{
    if raw < 0x800 {
        raw as i32
    } else {
        (raw - 0x1000) as i32
    }
}

/// Sign-extend a 13-bit value (B-type immediates).
pub open spec fn sign_extend_13(raw: u32) -> i32
    recommends
        raw < 0x2000,
{
    if raw < 0x1000 {
        raw as i32
    } else {
        (raw - 0x2000) as i32
    }
}

/// Sign-extend a 21-bit value (J-type immediates).
pub open spec fn sign_extend_21(raw: u32) -> i32
    recommends
        raw < 0x200000,
{
    if raw < 0x100000 {
        raw as i32
    } else {
        (raw - 0x200000) as i32
    }
}

/// Reinterpret a 32-bit value as signed (U-type immediates).
pub open spec fn sign_extend_32(raw: u32) -> i32 {
    if raw < 0x8000_0000 {
        raw as i32
    } else {
        (raw - 0x1_0000_0000) as i32
    }
}

/// The raw (unextended) S-type immediate: bits [11:5] come from
/// word bits [31:25], bits [4:0] from word bits [11:7].
pub open spec fn s_imm_raw(w: u32) -> u32 {
    (bit_field(w, 31, 25) * 0x20 + bit_field(w, 11, 7)) as u32
}

/// The raw (unextended) B-type immediate: bit 12 from word bit 31,
/// bit 11 from word bit 7, bits [10:5] from word bits [30:25] and
/// bits [4:1] from word bits [11:8]; bit 0 is always zero.
pub open spec fn b_imm_raw(w: u32) -> u32 {
    (bit_field(w, 31, 31) * 0x1000 + bit_field(w, 7, 7) * 0x800 + bit_field(w, 30, 25) * 0x20
        + bit_field(w, 11, 8) * 0x2) as u32
}

/// The raw (unextended) J-type immediate: bit 20 from word bit 31,
/// bits [19:12] from word bits [19:12], bit 11 from word bit 20 and
/// bits [10:1] from word bits [30:21]; bit 0 is always zero.
pub open spec fn j_imm_raw(w: u32) -> u32 {
    (bit_field(w, 31, 31) * 0x100000 + bit_field(w, 19, 12) * 0x1000 + bit_field(w, 20, 20)
        * 0x800 + bit_field(w, 30, 21) * 0x2) as u32
}

/// The raw (unshifted) U-type immediate: word bits [31:12].
pub open spec fn u_imm_raw(w: u32) -> u32 {
    (bit_field(w, 31, 12) * 0x1000) as u32
}

/// R-type record: register-register operations.
#[derive(Debug, PartialEq, Eq, Structural, Clone, Copy)]
pub struct RType {
    pub opcode: u8,
    pub rd: u8,
    pub func3: u8,
    pub rs1: u8,
    pub rs2: u8,
    pub func7: u8,
    pub func: u16,
}

/// The R-type record denoted by instruction word `w`.
pub open spec fn r_type_of(w: u32) -> RType {
    RType {
        opcode: bit_field(w, 6, 0) as u8,
        rd: bit_field(w, 11, 7) as u8,
        func3: bit_field(w, 14, 12) as u8,
        rs1: bit_field(w, 19, 15) as u8,
        rs2: bit_field(w, 24, 20) as u8,
        func7: bit_field(w, 31, 25) as u8,
        func: (bit_field(w, 31, 25) * 8 + bit_field(w, 14, 12)) as u16,
    }
}

impl From<u32> for RType {
    fn from(value: u32) -> Self {
        proof {
            lemma_bit_field_ranges(value);
        }
        let opcode = extract_bits(value, 6, 0) as u8;
        let rd = extract_bits(value, 11, 7) as u8;
        let func3 = extract_bits(value, 14, 12) as u8;
        let rs1 = extract_bits(value, 19, 15) as u8;
        let rs2 = extract_bits(value, 24, 20) as u8;
        let func7 = extract_bits(value, 31, 25) as u8;
        let func: u16 = (func7 as u16) * 8 + (func3 as u16);
        Self { opcode, rd, rs1, rs2, func, func3, func7 }
    }
}

impl vstd::std_specs::convert::FromSpecImpl<u32> for RType {
    open spec fn obeys_from_spec() -> bool {
        true
    }

    open spec fn from_spec(v: u32) -> RType {
        r_type_of(v)
    }
}

/// I-type record: register-immediate operations, loads, JALR and the
/// SYSTEM/FENCE groups.
#[derive(Debug, PartialEq, Eq, Structural, Clone, Copy)]
pub struct IType {
    pub opcode: u8,
    pub rd: u8,
    pub func3: u8,
    pub rs1: u8,
    pub shamt: u8,
    pub func7: u8,
    pub imm: i32,
}

/// The I-type record denoted by instruction word `w`. `shamt` is the
/// low five bits of the raw immediate and `func7` its top seven bits.
pub open spec fn i_type_of(w: u32) -> IType {
    IType {
        opcode: bit_field(w, 6, 0) as u8,
        rd: bit_field(w, 11, 7) as u8,
        func3: bit_field(w, 14, 12) as u8,
        rs1: bit_field(w, 19, 15) as u8,
        imm: sign_extend_12(bit_field(w, 31, 20)),
        shamt: (bit_field(w, 31, 20) % 0x20) as u8,
        func7: (bit_field(w, 31, 20) / 0x20) as u8,
    }
}

impl From<u32> for IType {
    fn from(value: u32) -> Self {
        proof {
            lemma_bit_field_ranges(value);
        }
        let opcode = extract_bits(value, 6, 0) as u8;
        let rd = extract_bits(value, 11, 7) as u8;
        let func3 = extract_bits(value, 14, 12) as u8;
        let rs1 = extract_bits(value, 19, 15) as u8;
        let imm_raw = extract_bits(value, 31, 20);
        let shamt = (imm_raw % 0x20) as u8;
        let func7 = (imm_raw / 0x20) as u8;
        let imm: i32 = if imm_raw < 0x800 {
            imm_raw as i32
        } else {
            (imm_raw as i32) - 0x1000
        };
        Self { opcode, rd, func3, rs1, imm, shamt, func7 }
    }
}

impl vstd::std_specs::convert::FromSpecImpl<u32> for IType {
    open spec fn obeys_from_spec() -> bool {
        true
    }

    open spec fn from_spec(v: u32) -> IType {
        i_type_of(v)
    }
}

/// S-type record: stores.
#[derive(Debug, PartialEq, Eq, Structural, Clone, Copy)]
pub struct SType {
    pub opcode: u8,
    pub imm: i32,
    pub func: u16,
    pub rs1: u8,
    pub rs2: u8,
}

/// The S-type record denoted by instruction word `w`.
pub open spec fn s_type_of(w: u32) -> SType {
    SType {
        opcode: bit_field(w, 6, 0) as u8,
        imm: sign_extend_12(s_imm_raw(w)),
        func: bit_field(w, 14, 12) as u16,
        rs1: bit_field(w, 19, 15) as u8,
        rs2: bit_field(w, 24, 20) as u8,
    }
}

impl From<u32> for SType {
    fn from(value: u32) -> Self {
        proof {
            lemma_bit_field_ranges(value);
        }
        let opcode = extract_bits(value, 6, 0) as u8;
        let imm_4_0 = extract_bits(value, 11, 7);
        let func = extract_bits(value, 14, 12) as u16;
        let rs1 = extract_bits(value, 19, 15) as u8;
        let rs2 = extract_bits(value, 24, 20) as u8;
        let imm_11_5 = extract_bits(value, 31, 25);
        let imm_raw = imm_11_5 * 0x20 + imm_4_0;
        let imm: i32 = if imm_raw < 0x800 {
            imm_raw as i32
        } else {
            (imm_raw as i32) - 0x1000
        };
        Self { opcode, imm, func, rs1, rs2 }
    }
}

impl vstd::std_specs::convert::FromSpecImpl<u32> for SType {
    open spec fn obeys_from_spec() -> bool {
        true
    }

    open spec fn from_spec(v: u32) -> SType {
        s_type_of(v)
    }
}

/// B-type record: conditional branches. The immediate is always even.
#[derive(Debug, PartialEq, Eq, Structural, Clone, Copy)]
pub struct BType {
    pub opcode: u8,
    pub imm: i32,
    pub func: u16,
    pub rs1: u8,
    pub rs2: u8,
}

/// The B-type record denoted by instruction word `w`.
pub open spec fn b_type_of(w: u32) -> BType {
    BType {
        opcode: bit_field(w, 6, 0) as u8,
        imm: sign_extend_13(b_imm_raw(w)),
        func: bit_field(w, 14, 12) as u16,
        rs1: bit_field(w, 19, 15) as u8,
        rs2: bit_field(w, 24, 20) as u8,
    }
}

impl From<u32> for BType {
    fn from(value: u32) -> Self {
        proof {
            lemma_bit_field_ranges(value);
        }
        let opcode = extract_bits(value, 6, 0) as u8;
        let imm_11 = extract_bits(value, 7, 7);
        let imm_4_1 = extract_bits(value, 11, 8);
        let func = extract_bits(value, 14, 12) as u16;
        let rs1 = extract_bits(value, 19, 15) as u8;
        let rs2 = extract_bits(value, 24, 20) as u8;
        let imm_10_5 = extract_bits(value, 30, 25);
        let imm_12 = extract_bits(value, 31, 31);
        let imm_raw = imm_12 * 0x1000 + imm_11 * 0x800 + imm_10_5 * 0x20 + imm_4_1 * 0x2;
        let imm: i32 = if imm_raw < 0x1000 {
            imm_raw as i32
        } else {
            (imm_raw as i32) - 0x2000
        };
        Self { opcode, imm, func, rs1, rs2 }
    }
}

impl vstd::std_specs::convert::FromSpecImpl<u32> for BType {
    open spec fn obeys_from_spec() -> bool {
        true
    }

    open spec fn from_spec(v: u32) -> BType {
        b_type_of(v)
    }
}

/// U-type record: LUI and AUIPC. The low twelve bits of the immediate
/// are always zero.
#[derive(Debug, PartialEq, Eq, Structural, Clone, Copy)]
pub struct UType {
    pub opcode: u8,
    pub rd: u8,
    pub imm: i32,
}

/// The U-type record denoted by instruction word `w`.
pub open spec fn u_type_of(w: u32) -> UType {
    UType {
        opcode: bit_field(w, 6, 0) as u8,
        rd: bit_field(w, 11, 7) as u8,
        imm: sign_extend_32(u_imm_raw(w)),
    }
}

impl From<u32> for UType {
    fn from(value: u32) -> Self {
        proof {
            lemma_bit_field_ranges(value);
        }
        let opcode = extract_bits(value, 6, 0) as u8;
        let rd = extract_bits(value, 11, 7) as u8;
        let imm_raw = extract_bits(value, 31, 12);
        let imm: i32 = if imm_raw < 0x80000 {
            (imm_raw * 0x1000) as i32
        } else {
            (((imm_raw as i64) * 0x1000 - 0x1_0000_0000) as i32)
        };
        Self { opcode, rd, imm }
    }
}

impl vstd::std_specs::convert::FromSpecImpl<u32> for UType {
    open spec fn obeys_from_spec() -> bool {
        true
    }

    open spec fn from_spec(v: u32) -> UType {
        u_type_of(v)
    }
}

/// J-type record: JAL. The immediate is always even.
#[derive(Debug, PartialEq, Eq, Structural, Clone, Copy)]
pub struct JType {
    pub opcode: u8,
    pub rd: u8,
    pub imm: i32,
}

/// The J-type record denoted by instruction word `w`.
pub open spec fn j_type_of(w: u32) -> JType {
    JType {
        opcode: bit_field(w, 6, 0) as u8,
        rd: bit_field(w, 11, 7) as u8,
        imm: sign_extend_21(j_imm_raw(w)),
    }
}

impl From<u32> for JType {
    fn from(value: u32) -> Self {
        proof {
            lemma_bit_field_ranges(value);
        }
        let opcode = extract_bits(value, 6, 0) as u8;
        let rd = extract_bits(value, 11, 7) as u8;
        let imm_19_12 = extract_bits(value, 19, 12);
        let imm_11 = extract_bits(value, 20, 20);
        let imm_10_1 = extract_bits(value, 30, 21);
        let imm_20 = extract_bits(value, 31, 31);
        let imm_raw = imm_20 * 0x100000 + imm_19_12 * 0x1000 + imm_11 * 0x800 + imm_10_1 * 0x2;
        let imm: i32 = if imm_raw < 0x100000 {
            imm_raw as i32
        } else {
            (imm_raw as i32) - 0x200000
        };
        Self { opcode, rd, imm }
    }
}

impl vstd::std_specs::convert::FromSpecImpl<u32> for JType {
    open spec fn obeys_from_spec() -> bool {
        true
    }

    open spec fn from_spec(v: u32) -> JType {
        j_type_of(v)
    }
}

// Encoders: the inverse of the field extraction above. Each places
// the fields of one format at the bit positions the format assigns
// them. They witness that every valid field assignment is decoded
// back exactly.

/// The raw 12-bit two's-complement image of an I- or S-type
/// immediate.
pub open spec fn imm_bits_12(imm: i32) -> int
    recommends
        -0x800 <= imm < 0x800,
{
    if imm >= 0 {
        imm as int
    } else {
        imm + 0x1000
    }
}

/// The raw 13-bit two's-complement image of a B-type immediate.
pub open spec fn imm_bits_13(imm: i32) -> int
    recommends
        -0x1000 <= imm < 0x1000,
{
    if imm >= 0 {
        imm as int
    } else {
        imm + 0x2000
    }
}

/// The raw 21-bit two's-complement image of a J-type immediate.
pub open spec fn imm_bits_21(imm: i32) -> int
    recommends
        -0x100000 <= imm < 0x100000,
{
    if imm >= 0 {
        imm as int
    } else {
        imm + 0x200000
    }
}

/// An R-type instruction word with the given fields.
pub open spec fn encode_r(opcode: u8, rd: u8, func3: u8, rs1: u8, rs2: u8, func7: u8) -> u32
    recommends
        opcode < 0x80,
        rd < 0x20,
        func3 < 0x8,
        rs1 < 0x20,
        rs2 < 0x20,
        func7 < 0x80,
{
    (opcode + rd * 0x80 + func3 * 0x1000 + rs1 * 0x8000 + rs2 * 0x10_0000 + func7
        * 0x200_0000) as u32
}

/// An I-type instruction word with the given fields.
pub open spec fn encode_i(opcode: u8, rd: u8, func3: u8, rs1: u8, imm: i32) -> u32
    recommends
        opcode < 0x80,
        rd < 0x20,
        func3 < 0x8,
        rs1 < 0x20,
        -0x800 <= imm < 0x800,
{
    (opcode + rd * 0x80 + func3 * 0x1000 + rs1 * 0x8000 + imm_bits_12(imm) * 0x10_0000) as u32
}

/// An S-type instruction word with the given fields.
pub open spec fn encode_s(opcode: u8, func: u16, rs1: u8, rs2: u8, imm: i32) -> u32
    recommends
        opcode < 0x80,
        func < 0x8,
        rs1 < 0x20,
        rs2 < 0x20,
        -0x800 <= imm < 0x800,
{
    let raw = imm_bits_12(imm);
    ((raw % 0x20) * 0x80 + opcode + func * 0x1000 + rs1 * 0x8000 + rs2 * 0x10_0000 + (raw / 0x20)
        * 0x200_0000) as u32
}

/// A B-type instruction word with the given fields.
pub open spec fn encode_b(opcode: u8, func: u16, rs1: u8, rs2: u8, imm: i32) -> u32
    recommends
        opcode < 0x80,
        func < 0x8,
        rs1 < 0x20,
        rs2 < 0x20,
        -0x1000 <= imm < 0x1000,
        imm % 2 == 0,
{
    let raw = imm_bits_13(imm);
    (opcode + ((raw / 0x800) % 0x2) * 0x80 + ((raw / 0x2) % 0x10) * 0x100 + func * 0x1000 + rs1
        * 0x8000 + rs2 * 0x10_0000 + ((raw / 0x20) % 0x40) * 0x200_0000 + (raw / 0x1000)
        * 0x8000_0000) as u32
}

/// A U-type instruction word with the given fields.
pub open spec fn encode_u(opcode: u8, rd: u8, imm: i32) -> u32
    recommends
        opcode < 0x80,
        rd < 0x20,
        imm % 0x1000 == 0,
{
    let hi = if imm >= 0 {
        imm / 0x1000
    } else {
        (imm + 0x1_0000_0000) / 0x1000
    };
    (opcode + rd * 0x80 + hi * 0x1000) as u32
}

/// A J-type instruction word with the given fields.
pub open spec fn encode_j(opcode: u8, rd: u8, imm: i32) -> u32
    recommends
        opcode < 0x80,
        rd < 0x20,
        -0x100000 <= imm < 0x100000,
        imm % 2 == 0,
{
    let raw = imm_bits_21(imm);
    (opcode + rd * 0x80 + ((raw / 0x1000) % 0x100) * 0x1000 + ((raw / 0x800) % 0x2) * 0x10_0000 + ((
    raw / 0x2) % 0x400) * 0x20_0000 + (raw / 0x100000) * 0x8000_0000) as u32
}

/// The immediate of every decoded B-type and J-type record has bit
/// zero clear: both formats scatter only bits 12..1 and 20..1 of the
/// immediate over the instruction word, and sign extension keeps
/// parity.
pub proof fn lemma_branch_imm_even(w: u32)
    ensures
        b_type_of(w).imm % 2 == 0,
        j_type_of(w).imm % 2 == 0,
{
    lemma_bit_field_ranges(w);
}

} // verus!
