use vstd::prelude::*;

use crate::instruction_formats::{BType, IType, JType, RType, SType, UType};
use crate::instruction_formats::{b_type_of, i_type_of, j_type_of, r_type_of, s_type_of, u_type_of};
use crate::util::{bit_field, extract_bits};

verus! {

/// A raw instruction word decoded into one of the six RISC-V
/// instruction formats.
#[derive(Debug, PartialEq, Eq, Structural, Clone, Copy)]
pub enum DecodedInstr {
    R(RType),
    I(IType),
    S(SType),
    B(BType),
    U(UType),
    J(JType),
}

/// What `decode` returns for the word `w`: the format variant
/// selected by the low seven bits, or `None` for a pattern outside
/// the base integer ISA.
pub open spec fn decode_option_of(w: u32) -> Option<DecodedInstr> {
    let opcode = bit_field(w, 6, 0) as u8;
    if opcode == 0x33 {
        Some(DecodedInstr::R(r_type_of(w)))
    } else if opcode == 0x13 || opcode == 0x03 || opcode == 0x67 || opcode == 0x73 || opcode
        == 0x0F {
        Some(DecodedInstr::I(i_type_of(w)))
    } else if opcode == 0x23 {
        Some(DecodedInstr::S(s_type_of(w)))
    } else if opcode == 0x63 {
        Some(DecodedInstr::B(b_type_of(w)))
    } else if opcode == 0x37 || opcode == 0x17 {
        Some(DecodedInstr::U(u_type_of(w)))
    } else if opcode == 0x6F {
        Some(DecodedInstr::J(j_type_of(w)))
    } else {
        None
    }
}

/// Classify an instruction word by its 7-bit opcode and decode the
/// fields of the selected format.
pub fn decode(instruction: u32) -> (r: Option<DecodedInstr>)
    ensures
        r == decode_option_of(instruction),
{
    let opcode = extract_bits(instruction, 6, 0) as u8;
    match opcode {
        0b0110011 => Some(DecodedInstr::R(RType::from(instruction))),
        0b0010011 => Some(DecodedInstr::I(IType::from(instruction))),
        0b0000011 => Some(DecodedInstr::I(IType::from(instruction))),
        0b0100011 => Some(DecodedInstr::S(SType::from(instruction))),
        0b1100011 => Some(DecodedInstr::B(BType::from(instruction))),
        0b1101111 => Some(DecodedInstr::J(JType::from(instruction))),
        0b1100111 => Some(DecodedInstr::I(IType::from(instruction))),
        0b0110111 => Some(DecodedInstr::U(UType::from(instruction))),
        0b0010111 => Some(DecodedInstr::U(UType::from(instruction))),
        0b1110011 => Some(DecodedInstr::I(IType::from(instruction))),
        0b0001111 => Some(DecodedInstr::I(IType::from(instruction))),
        _ => None,
    }
}

} // verus!
