use vstd::prelude::*;

use crate::components::{le_value, Memory, MemoryError, ProgramCounter};
use crate::instruction_formats::{BType, IType, JType, RType, SType, UType};
use crate::instruction_formats::{b_type_of, i_type_of, j_type_of, r_type_of, s_type_of, u_type_of};
use crate::instruction_formats::{b_imm_raw, j_imm_raw, s_imm_raw};
use crate::instruction_formats::{encode_b, encode_i, encode_j, encode_r, encode_s, encode_u};
use crate::instruction_formats::{imm_bits_12, imm_bits_13, imm_bits_21};
use crate::util::{bit_field, extract_bits};

verus! {

/// Fetch the 32-bit instruction word at the program counter.
pub fn fetch_instruction(pc: &ProgramCounter, memory: &Memory) -> (r: Result<u32, MemoryError>)
    ensures
        (match r {
            Ok(w) => pc.address + 4 <= memory.data@.len() && w == le_value(
                memory.data@,
                pc.address as int,
                4,
            ),
            Err(e) => pc.address + 4 > memory.data@.len() && (
            e matches MemoryError::OutOfBounds { address, max } && address == pc.address
                && max == memory.data@.len()),
        }),
{
    match memory.read_word(pc.address as usize) {
        Ok(w) => Ok(w as u32),
        Err(e) => Err(e),
    }
}

/// A raw instruction word decoded into one of the six RISC-V
/// instruction formats.
#[derive(Debug, PartialEq, Eq, Structural, Clone, Copy)]
pub enum DecodedInstr {
    R(RType),
    I(IType),
    S(SType),
    B(BType),
    U(UType),
    J(JType),
}

/// A word the decoder rejects.
#[derive(Debug, PartialEq, Eq, Structural, Clone, Copy)]
pub enum DecodeError {
    /// The low seven bits match no opcode of the base integer ISA.
    UnknownOpcode(u8),
    /// The all-ones low byte: a guard word a driver may place after
    /// a program, reported as a normal termination signal.
    EndOfProgram,
}

/// What `decode_instruction` returns for the word `w`: the format
/// variant selected by the low seven bits, with every field a
/// function of the bit pattern.
pub open spec fn decode_of(w: u32) -> Result<DecodedInstr, DecodeError> {
    let opcode = bit_field(w, 6, 0) as u8;
    if opcode == 0x33 {
        Ok(DecodedInstr::R(r_type_of(w)))
    } else if opcode == 0x13 || opcode == 0x03 || opcode == 0x67 || opcode == 0x73 || opcode
        == 0x0F {
        Ok(DecodedInstr::I(i_type_of(w)))
    } else if opcode == 0x23 {
        Ok(DecodedInstr::S(s_type_of(w)))
    } else if opcode == 0x63 {
        Ok(DecodedInstr::B(b_type_of(w)))
    } else if opcode == 0x37 || opcode == 0x17 {
        Ok(DecodedInstr::U(u_type_of(w)))
    } else if opcode == 0x6F {
        Ok(DecodedInstr::J(j_type_of(w)))
    } else if opcode == 0x7F {
        Err(DecodeError::EndOfProgram)
    } else {
        Err(DecodeError::UnknownOpcode(opcode))
    }
}

/// Classify an instruction word by its 7-bit opcode and decode the
/// fields of the selected format.
pub fn decode_instruction(instruction: u32) -> (r: Result<DecodedInstr, DecodeError>)
    ensures
        r == decode_of(instruction),
{
    let opcode = extract_bits(instruction, 6, 0) as u8;
    match opcode {
        0b0110011 => Ok(DecodedInstr::R(RType::from(instruction))),
        0b0010011 => Ok(DecodedInstr::I(IType::from(instruction))),
        0b0000011 => Ok(DecodedInstr::I(IType::from(instruction))),
        0b0100011 => Ok(DecodedInstr::S(SType::from(instruction))),
        0b1100011 => Ok(DecodedInstr::B(BType::from(instruction))),
        0b1101111 => Ok(DecodedInstr::J(JType::from(instruction))),
        0b1100111 => Ok(DecodedInstr::I(IType::from(instruction))),
        0b0110111 => Ok(DecodedInstr::U(UType::from(instruction))),
        0b0010111 => Ok(DecodedInstr::U(UType::from(instruction))),
        0b1110011 => Ok(DecodedInstr::I(IType::from(instruction))),
        0b0001111 => Ok(DecodedInstr::I(IType::from(instruction))),
        0b1111111 => Err(DecodeError::EndOfProgram),
        _ => Err(DecodeError::UnknownOpcode(opcode)),
    }
}

/// The width of a memory access.
#[derive(Debug, PartialEq, Eq, Structural, Clone, Copy)]
pub enum MemSize {
    Byte,
    Half,
    Word,
    Double,
}

/// A store the CPU must perform: `data` holds the value already
/// truncated to the access width.
#[derive(Debug, PartialEq, Eq, Structural, Clone, Copy)]
pub struct WriteMem {
    pub address: u32,
    pub data: u64,
    pub size: MemSize,
}

/// A load the CPU must perform, with the destination register that
/// receives the loaded value.
#[derive(Debug, PartialEq, Eq, Structural, Clone, Copy)]
pub struct ReadMem {
    pub address: u32,
    pub size: MemSize,
    pub rd: u8,
    pub signed: bool,
}

/// A register write-back the CPU must perform.
#[derive(Debug, PartialEq, Eq, Structural, Clone, Copy)]
pub struct WriteBack {
    pub rd: u8,
    pub value: u32,
}

/// Everything an instruction does, described rather than performed:
/// an optional load, an optional store, an optional write-back and
/// an optional branch target. With all four absent the instruction
/// retires with no effect beyond the program counter advancing.
pub struct ExecuteResult {
    pub read_mem: Option<ReadMem>,
    pub write_mem: Option<WriteMem>,
    pub write_back: Option<WriteBack>,
    pub branch_addr: Option<u32>,
}

impl Default for ExecuteResult {
    /// The empty effect.
    fn default() -> (r: Self)
        ensures
            r == empty_result(),
    {
        ExecuteResult { read_mem: None, write_mem: None, write_back: None, branch_addr: None }
    }
}

/// The effect of an instruction with no side effects at all.
pub open spec fn empty_result() -> ExecuteResult {
    ExecuteResult { read_mem: None, write_mem: None, write_back: None, branch_addr: None }
}

impl ExecuteResult {
    pub fn with_read_mem(self, read_mem: ReadMem) -> (r: Self)
        ensures
            r == (ExecuteResult { read_mem: Some(read_mem), ..self }),
    {
        ExecuteResult { read_mem: Some(read_mem), ..self }
    }

    pub fn with_write_mem(self, write_mem: WriteMem) -> (r: Self)
        ensures
            r == (ExecuteResult { write_mem: Some(write_mem), ..self }),
    {
        ExecuteResult { write_mem: Some(write_mem), ..self }
    }

    pub fn with_write_back(self, write_back: WriteBack) -> (r: Self)
        ensures
            r == (ExecuteResult { write_back: Some(write_back), ..self }),
    {
        ExecuteResult { write_back: Some(write_back), ..self }
    }

    pub fn with_branch(self, branch: u32) -> (r: Self)
        ensures
            r == (ExecuteResult { branch_addr: Some(branch), ..self }),
    {
        ExecuteResult { branch_addr: Some(branch), ..self }
    }
}

/// An effect consisting of a single write-back.
pub open spec fn write_back_result(rd: u8, value: u32) -> ExecuteResult {
    ExecuteResult {
        read_mem: None,
        write_mem: None,
        write_back: Some(WriteBack { rd, value }),
        branch_addr: None,
    }
}

/// The value a register-register ALU instruction writes, selected by
/// `func7` and `func3`, or `None` for a combination outside the base
/// ISA. Addition and subtraction wrap at 32 bits; shifts use only
/// the low five bits of the count; SLT compares two's-complement
/// values, SLTU unsigned ones.
pub open spec fn alu_value(func7: u8, func3: u8, a: u32, b: u32) -> Option<u32> {
    if func7 == 0x00 && func3 == 0x0 {
        Some(a.wrapping_add(b))
    } else if func7 == 0x20 && func3 == 0x0 {
        Some(a.wrapping_sub(b))
    } else if func7 == 0x00 && func3 == 0x1 {
        Some(a << (b % 32))
    } else if func7 == 0x00 && func3 == 0x2 {
        Some(if (a as i32) < (b as i32) { 1u32 } else { 0u32 })
    } else if func7 == 0x00 && func3 == 0x3 {
        Some(if a < b { 1u32 } else { 0u32 })
    } else if func7 == 0x00 && func3 == 0x4 {
        Some(a ^ b)
    } else if func7 == 0x00 && func3 == 0x5 {
        Some(a >> (b % 32))
    } else if func7 == 0x20 && func3 == 0x5 {
        Some(((a as i32) >> (b % 32)) as u32)
    } else if func7 == 0x00 && func3 == 0x6 {
        Some(a | b)
    } else if func7 == 0x00 && func3 == 0x7 {
        Some(a & b)
    } else {
        None
    }
}

/// The effect of an R-type instruction: a write-back of the ALU
/// value computed from the low 32 bits of the source registers.
pub open spec fn r_effect(r: RType, rs1_val: i64, rs2_val: i64) -> Option<ExecuteResult> {
    if r.opcode == 0x33 {
        match alu_value(r.func7, r.func3, rs1_val as u32, rs2_val as u32) {
            Some(v) => Some(write_back_result(r.rd, v)),
            None => None,
        }
    } else {
        None
    }
}

/// Execute a register-register instruction.
pub fn execute_r(r: &RType, rs1_val: i64, rs2_val: i64) -> (res: Option<ExecuteResult>)
    ensures
        res == r_effect(*r, rs1_val, rs2_val),
{
    if r.opcode != 0b0110011 {
        return None;
    }
    let a = rs1_val as u32;
    let b = rs2_val as u32;
    match (r.func7, r.func3) {
        (0x00, 0x0) => Some(
            ExecuteResult::default().with_write_back(
                WriteBack { rd: r.rd, value: a.wrapping_add(b) },
            ),
        ),
        (0x20, 0x0) => Some(
            ExecuteResult::default().with_write_back(
                WriteBack { rd: r.rd, value: a.wrapping_sub(b) },
            ),
        ),
        (0x00, 0x1) => Some(
            ExecuteResult::default().with_write_back(WriteBack { rd: r.rd, value: a << (b % 32) }),
        ),
        (0x00, 0x2) => Some(
            ExecuteResult::default().with_write_back(
                WriteBack { rd: r.rd, value: if (a as i32) < (b as i32) { 1 } else { 0 } },
            ),
        ),
        (0x00, 0x3) => Some(
            ExecuteResult::default().with_write_back(
                WriteBack { rd: r.rd, value: if a < b { 1 } else { 0 } },
            ),
        ),
        (0x00, 0x4) => Some(
            ExecuteResult::default().with_write_back(WriteBack { rd: r.rd, value: a ^ b }),
        ),
        (0x00, 0x5) => Some(
            ExecuteResult::default().with_write_back(WriteBack { rd: r.rd, value: a >> (b % 32) }),
        ),
        (0x20, 0x5) => Some(
            ExecuteResult::default().with_write_back(
                WriteBack { rd: r.rd, value: ((a as i32) >> (b % 32)) as u32 },
            ),
        ),
        (0x00, 0x6) => Some(
            ExecuteResult::default().with_write_back(WriteBack { rd: r.rd, value: a | b }),
        ),
        (0x00, 0x7) => Some(
            ExecuteResult::default().with_write_back(WriteBack { rd: r.rd, value: a & b }),
        ),
        _ => None,
    }
}

/// The load an I-type load instruction issues, selected by `func3`:
/// the access width and whether the loaded value is sign-extended.
pub open spec fn load_request(func3: u8) -> Option<(MemSize, bool)> {
    if func3 == 0x0 {
        Some((MemSize::Byte, true))
    } else if func3 == 0x1 {
        Some((MemSize::Half, true))
    } else if func3 == 0x2 {
        Some((MemSize::Word, true))
    } else if func3 == 0x3 {
        Some((MemSize::Double, true))
    } else if func3 == 0x4 {
        Some((MemSize::Byte, false))
    } else if func3 == 0x5 {
        Some((MemSize::Half, false))
    } else {
        None
    }
}

/// The value a register-immediate ALU instruction writes, or `None`
/// for a combination outside the base ISA. Shift-immediates take
/// their count from `shamt` and select SRLI against SRAI by the top
/// seven bits of the raw immediate.
pub open spec fn imm_alu_value(i: IType, a: u32) -> Option<u32> {
    if i.func3 == 0x0 {
        Some(a.wrapping_add(i.imm as u32))
    } else if i.func3 == 0x2 {
        Some(if (a as i32) < i.imm { 1u32 } else { 0u32 })
    } else if i.func3 == 0x3 {
        Some(if a < (i.imm as u32) { 1u32 } else { 0u32 })
    } else if i.func3 == 0x4 {
        Some(a ^ (i.imm as u32))
    } else if i.func3 == 0x6 {
        Some(a | (i.imm as u32))
    } else if i.func3 == 0x7 {
        Some(a & (i.imm as u32))
    } else if i.func3 == 0x1 {
        Some(a << ((i.shamt % 32) as u32))
    } else if i.func3 == 0x5 && i.func7 == 0x00 {
        Some(a >> ((i.shamt % 32) as u32))
    } else if i.func3 == 0x5 && i.func7 == 0x20 {
        Some(((a as i32) >> ((i.shamt % 32) as u32)) as u32)
    } else {
        None
    }
}

/// The effect of an I-type instruction: JALR links and branches to
/// `(rs1 + imm) & !1`, loads issue a memory read at `rs1 + imm`,
/// register-immediate arithmetic writes back an ALU value, and the
/// FENCE and SYSTEM groups are left unimplemented.
pub open spec fn i_effect(i: IType, rs1_val: i64, pc: u32) -> Option<ExecuteResult> {
    let a = rs1_val as u32;
    if i.opcode == 0x67 {
        Some(
            ExecuteResult {
                read_mem: None,
                write_mem: None,
                write_back: Some(WriteBack { rd: i.rd, value: pc.wrapping_add(4) }),
                branch_addr: Some(a.wrapping_add(i.imm as u32) & !1u32),
            },
        )
    } else if i.opcode == 0x03 {
        match load_request(i.func3) {
            Some(req) => Some(
                ExecuteResult {
                    read_mem: Some(
                        ReadMem {
                            address: a.wrapping_add(i.imm as u32),
                            size: req.0,
                            rd: i.rd,
                            signed: req.1,
                        },
                    ),
                    write_mem: None,
                    write_back: None,
                    branch_addr: None,
                },
            ),
            None => None,
        }
    } else if i.opcode == 0x13 {
        match imm_alu_value(i, a) {
            Some(v) => Some(write_back_result(i.rd, v)),
            None => None,
        }
    } else {
        None
    }
}

/// Execute an I-type instruction.
pub fn execute_i(i: &IType, rs1_val: i64, pc: u32) -> (res: Option<ExecuteResult>)
    ensures
        res == i_effect(*i, rs1_val, pc),
{
    let a = rs1_val as u32;
    match i.opcode {
        0b1100111 => {
            // JALR
            Some(
                ExecuteResult::default().with_write_back(
                    WriteBack { rd: i.rd, value: pc.wrapping_add(4) },
                ).with_branch(a.wrapping_add(i.imm as u32) & !1u32),
            )
        },
        0b0000011 => {
            let addr = a.wrapping_add(i.imm as u32);
            match i.func3 {
                0x0 => Some(
                    ExecuteResult::default().with_read_mem(
                        ReadMem { address: addr, size: MemSize::Byte, rd: i.rd, signed: true },
                    ),
                ),
                0x1 => Some(
                    ExecuteResult::default().with_read_mem(
                        ReadMem { address: addr, size: MemSize::Half, rd: i.rd, signed: true },
                    ),
                ),
                0x2 => Some(
                    ExecuteResult::default().with_read_mem(
                        ReadMem { address: addr, size: MemSize::Word, rd: i.rd, signed: true },
                    ),
                ),
                0x3 => Some(
                    ExecuteResult::default().with_read_mem(
                        ReadMem { address: addr, size: MemSize::Double, rd: i.rd, signed: true },
                    ),
                ),
                0x4 => Some(
                    ExecuteResult::default().with_read_mem(
                        ReadMem { address: addr, size: MemSize::Byte, rd: i.rd, signed: false },
                    ),
                ),
                0x5 => Some(
                    ExecuteResult::default().with_read_mem(
                        ReadMem { address: addr, size: MemSize::Half, rd: i.rd, signed: false },
                    ),
                ),
                _ => None,
            }
        },
        0b0010011 => {
            let value: Option<u32> = match i.func3 {
                0x0 => Some(a.wrapping_add(i.imm as u32)),
                0x2 => Some(if (a as i32) < i.imm { 1 } else { 0 }),
                0x3 => Some(if a < (i.imm as u32) { 1 } else { 0 }),
                0x4 => Some(a ^ (i.imm as u32)),
                0x6 => Some(a | (i.imm as u32)),
                0x7 => Some(a & (i.imm as u32)),
                0x1 => Some(a << ((i.shamt % 32) as u32)),
                0x5 => {
                    match i.func7 {
                        0x00 => Some(a >> ((i.shamt % 32) as u32)),
                        0x20 => Some(((a as i32) >> ((i.shamt % 32) as u32)) as u32),
                        _ => None,
                    }
                },
                _ => None,
            };
            match value {
                Some(v) => Some(
                    ExecuteResult::default().with_write_back(WriteBack { rd: i.rd, value: v }),
                ),
                None => None,
            }
        },
        _ => None,
    }
}

/// The effect of an S-type instruction: a store of the low bits of
/// `rs2` at `rs1 + imm`, at the width `func` selects.
pub open spec fn s_effect(s: SType, rs1_val: i64, rs2_val: i64) -> Option<ExecuteResult> {
    let addr = (rs1_val as u32).wrapping_add(s.imm as u32);
    if s.opcode == 0x23 {
        let request: Option<(u64, MemSize)> = if s.func == 0x0 {
            Some((((rs2_val as u64) % 0x100) as u64, MemSize::Byte))
        } else if s.func == 0x1 {
            Some((((rs2_val as u64) % 0x1_0000) as u64, MemSize::Half))
        } else if s.func == 0x2 {
            Some((((rs2_val as u64) % 0x1_0000_0000) as u64, MemSize::Word))
        } else if s.func == 0x3 {
            Some(((rs2_val as u64) as u64, MemSize::Double))
        } else {
            None
        };
        match request {
            Some(req) => Some(
                ExecuteResult {
                    read_mem: None,
                    write_mem: Some(WriteMem { address: addr, data: req.0, size: req.1 }),
                    write_back: None,
                    branch_addr: None,
                },
            ),
            None => None,
        }
    } else {
        None
    }
}

/// Execute an S-type instruction.
pub fn execute_s(s: &SType, rs1_val: i64, rs2_val: i64) -> (res: Option<ExecuteResult>)
    ensures
        res == s_effect(*s, rs1_val, rs2_val),
{
    if s.opcode != 0b0100011 {
        return None;
    }
    let addr = (rs1_val as u32).wrapping_add(s.imm as u32);
    let value = rs2_val as u64;
    match s.func {
        0x0 => Some(
            ExecuteResult::default().with_write_mem(
                WriteMem { address: addr, data: value % 0x100, size: MemSize::Byte },
            ),
        ),
        0x1 => Some(
            ExecuteResult::default().with_write_mem(
                WriteMem { address: addr, data: value % 0x1_0000, size: MemSize::Half },
            ),
        ),
        0x2 => Some(
            ExecuteResult::default().with_write_mem(
                WriteMem { address: addr, data: value % 0x1_0000_0000, size: MemSize::Word },
            ),
        ),
        0x3 => Some(
            ExecuteResult::default().with_write_mem(
                WriteMem { address: addr, data: value, size: MemSize::Double },
            ),
        ),
        _ => None,
    }
}

/// Whether a B-type branch is taken: equality and BLT/BGE compare
/// the low 32 register bits as two's-complement values, BLTU/BGEU as
/// unsigned ones; `None` for a `func` outside the base ISA.
pub open spec fn branch_taken(func: u16, a: u32, b: u32) -> Option<bool> {
    if func == 0x0 {
        Some(a == b)
    } else if func == 0x1 {
        Some(a != b)
    } else if func == 0x4 {
        Some((a as i32) < (b as i32))
    } else if func == 0x5 {
        Some((a as i32) >= (b as i32))
    } else if func == 0x6 {
        Some(a < b)
    } else if func == 0x7 {
        Some(a >= b)
    } else {
        None
    }
}

/// The effect of a B-type instruction: a branch to `pc + imm` when
/// the comparison holds, and no effect at all when it does not.
pub open spec fn b_effect(b: BType, rs1_val: i64, rs2_val: i64, pc: u32) -> Option<ExecuteResult> {
    if b.opcode == 0x63 {
        match branch_taken(b.func, rs1_val as u32, rs2_val as u32) {
            Some(taken) => Some(
                if taken {
                    ExecuteResult {
                        read_mem: None,
                        write_mem: None,
                        write_back: None,
                        branch_addr: Some(pc.wrapping_add(b.imm as u32)),
                    }
                } else {
                    empty_result()
                },
            ),
            None => None,
        }
    } else {
        None
    }
}

/// Execute a B-type instruction.
pub fn execute_b(b: &BType, rs1_val: i64, rs2_val: i64, pc: u32) -> (res: Option<ExecuteResult>)
    ensures
        res == b_effect(*b, rs1_val, rs2_val, pc),
{
    if b.opcode != 0b1100011 {
        return None;
    }
    let x = rs1_val as u32;
    let y = rs2_val as u32;
    let taken: Option<bool> = match b.func {
        0x0 => Some(x == y),
        0x1 => Some(x != y),
        0x4 => Some((x as i32) < (y as i32)),
        0x5 => Some((x as i32) >= (y as i32)),
        0x6 => Some(x < y),
        0x7 => Some(x >= y),
        _ => None,
    };
    match taken {
        Some(true) => Some(ExecuteResult::default().with_branch(pc.wrapping_add(b.imm as u32))),
        Some(false) => Some(ExecuteResult::default()),
        None => None,
    }
}

/// The effect of a U-type instruction: LUI writes the immediate
/// (already shifted into the upper bits), AUIPC writes `pc + imm`.
pub open spec fn u_effect(u: UType, pc: u32) -> Option<ExecuteResult> {
    if u.opcode == 0x37 {
        Some(write_back_result(u.rd, u.imm as u32))
    } else if u.opcode == 0x17 {
        Some(write_back_result(u.rd, pc.wrapping_add(u.imm as u32)))
    } else {
        None
    }
}

/// Execute a U-type instruction.
pub fn execute_u(u: &UType, pc: u32) -> (res: Option<ExecuteResult>)
    ensures
        res == u_effect(*u, pc),
{
    match u.opcode {
        0b0110111 => Some(
            ExecuteResult::default().with_write_back(WriteBack { rd: u.rd, value: u.imm as u32 }),
        ),
        0b0010111 => Some(
            ExecuteResult::default().with_write_back(
                WriteBack { rd: u.rd, value: pc.wrapping_add(u.imm as u32) },
            ),
        ),
        _ => None,
    }
}

/// The effect of a J-type instruction: JAL links `pc + 4` and
/// branches to `pc + imm`.
pub open spec fn j_effect(j: JType, pc: u32) -> Option<ExecuteResult> {
    if j.opcode == 0x6F {
        Some(
            ExecuteResult {
                read_mem: None,
                write_mem: None,
                write_back: Some(WriteBack { rd: j.rd, value: pc.wrapping_add(4) }),
                branch_addr: Some(pc.wrapping_add(j.imm as u32)),
            },
        )
    } else {
        None
    }
}

/// Execute a J-type instruction.
pub fn execute_j(j: &JType, pc: u32) -> (res: Option<ExecuteResult>)
    ensures
        res == j_effect(*j, pc),
{
    match j.opcode {
        0b1101111 => Some(
            ExecuteResult::default().with_write_back(
                WriteBack { rd: j.rd, value: pc.wrapping_add(4) },
            ).with_branch(pc.wrapping_add(j.imm as u32)),
        ),
        _ => None,
    }
}

/// An instruction the executor refuses.
#[derive(Debug)]
pub enum ExecuteError {
    /// The opcode is known to the decoder but its semantics are not
    /// implemented: the SYSTEM and FENCE groups and reserved
    /// `func3`/`func7` combinations.
    UnimplementedInstruction { instr_type: String, instruction: DecodedInstr },
}

/// The effect of any decoded instruction, or `None` where the
/// executor reports it unimplemented. U- and J-type instructions
/// read no source register, so their effect ignores both values.
pub open spec fn effect_of(d: DecodedInstr, rs1_val: i64, rs2_val: i64, pc: u32) -> Option<
    ExecuteResult,
> {
    match d {
        DecodedInstr::R(r) => r_effect(r, rs1_val, rs2_val),
        DecodedInstr::I(i) => i_effect(i, rs1_val, pc),
        DecodedInstr::S(s) => s_effect(s, rs1_val, rs2_val),
        DecodedInstr::B(b) => b_effect(b, rs1_val, rs2_val, pc),
        DecodedInstr::U(u) => u_effect(u, pc),
        DecodedInstr::J(j) => j_effect(j, pc),
    }
}

/// The one-letter name of the format of `d`.
pub open spec fn format_letter(d: DecodedInstr) -> Seq<char> {
    match d {
        DecodedInstr::R(_) => "R"@,
        DecodedInstr::I(_) => "I"@,
        DecodedInstr::S(_) => "S"@,
        DecodedInstr::B(_) => "B"@,
        DecodedInstr::U(_) => "U"@,
        DecodedInstr::J(_) => "J"@,
    }
}

/// Execute a decoded instruction over the two source-register values
/// and the current program counter. The executor mutates nothing:
/// the effect it returns is a pure function of its inputs.
pub fn execute(instruction: &DecodedInstr, rs1_val: i64, rs2_val: i64, pc: u32) -> (r: Result<
    ExecuteResult,
    ExecuteError,
>)
    ensures
        (match r {
            Ok(effect) => effect_of(*instruction, rs1_val, rs2_val, pc) == Some(effect),
            Err(e) => effect_of(*instruction, rs1_val, rs2_val, pc) is None && (
            e matches ExecuteError::UnimplementedInstruction { instr_type, instruction: instr }
                && instr == *instruction && instr_type@ == format_letter(*instruction)),
        }),
{
    let effect = match instruction {
        DecodedInstr::R(r) => execute_r(r, rs1_val, rs2_val),
        DecodedInstr::I(i) => execute_i(i, rs1_val, pc),
        DecodedInstr::S(s) => execute_s(s, rs1_val, rs2_val),
        DecodedInstr::B(b) => execute_b(b, rs1_val, rs2_val, pc),
        DecodedInstr::U(u) => execute_u(u, pc),
        DecodedInstr::J(j) => execute_j(j, pc),
    };
    match effect {
        Some(effect) => Ok(effect),
        None => {
            let instr_type = match instruction {
                DecodedInstr::R(_) => "R".to_string(),
                DecodedInstr::I(_) => "I".to_string(),
                DecodedInstr::S(_) => "S".to_string(),
                DecodedInstr::B(_) => "B".to_string(),
                DecodedInstr::U(_) => "U".to_string(),
                DecodedInstr::J(_) => "J".to_string(),
            };
            Err(
                ExecuteError::UnimplementedInstruction {
                    instr_type,
                    instruction: instruction.clone(),
                },
            )
        },
    }
}

/// Decode totality: each opcode of the base ISA decodes to its
/// format variant, the all-ones sentinel reports end of program,
/// and every other low-seven-bit pattern is an unknown opcode.
pub proof fn lemma_decode_totality(w: u32)
    ensures
        bit_field(w, 6, 0) == 0x33 ==> decode_of(w) == Ok::<DecodedInstr, DecodeError>(
            DecodedInstr::R(r_type_of(w)),
        ),
        (bit_field(w, 6, 0) == 0x13 || bit_field(w, 6, 0) == 0x03 || bit_field(w, 6, 0) == 0x67
            || bit_field(w, 6, 0) == 0x73 || bit_field(w, 6, 0) == 0x0F) ==> decode_of(w)
            == Ok::<DecodedInstr, DecodeError>(DecodedInstr::I(i_type_of(w))),
        bit_field(w, 6, 0) == 0x23 ==> decode_of(w) == Ok::<DecodedInstr, DecodeError>(
            DecodedInstr::S(s_type_of(w)),
        ),
        bit_field(w, 6, 0) == 0x63 ==> decode_of(w) == Ok::<DecodedInstr, DecodeError>(
            DecodedInstr::B(b_type_of(w)),
        ),
        (bit_field(w, 6, 0) == 0x37 || bit_field(w, 6, 0) == 0x17) ==> decode_of(w) == Ok::<
            DecodedInstr,
            DecodeError,
        >(DecodedInstr::U(u_type_of(w))),
        bit_field(w, 6, 0) == 0x6F ==> decode_of(w) == Ok::<DecodedInstr, DecodeError>(
            DecodedInstr::J(j_type_of(w)),
        ),
        bit_field(w, 6, 0) == 0x7F ==> decode_of(w) == Err::<DecodedInstr, DecodeError>(
            DecodeError::EndOfProgram,
        ),
        !(bit_field(w, 6, 0) == 0x33 || bit_field(w, 6, 0) == 0x13 || bit_field(w, 6, 0) == 0x03
            || bit_field(w, 6, 0) == 0x67 || bit_field(w, 6, 0) == 0x73 || bit_field(w, 6, 0)
            == 0x0F || bit_field(w, 6, 0) == 0x23 || bit_field(w, 6, 0) == 0x63 || bit_field(
            w,
            6,
            0,
        ) == 0x37 || bit_field(w, 6, 0) == 0x17 || bit_field(w, 6, 0) == 0x6F || bit_field(w, 6, 0)
            == 0x7F) ==> decode_of(w) == Err::<DecodedInstr, DecodeError>(
            DecodeError::UnknownOpcode(bit_field(w, 6, 0) as u8),
        ),
{
    crate::util::lemma_bit_field_ranges(w);
}

/// Round trip for the R format: a word encoded from any valid field
/// assignment decodes back to exactly that assignment.
pub proof fn lemma_r_type_round_trip(rd: u8, func3: u8, rs1: u8, rs2: u8, func7: u8)
    requires
        rd < 0x20,
        func3 < 0x8,
        rs1 < 0x20,
        rs2 < 0x20,
        func7 < 0x80,
    ensures
        decode_of(encode_r(0x33, rd, func3, rs1, rs2, func7)) == Ok::<DecodedInstr, DecodeError>(
            DecodedInstr::R(
                RType { opcode: 0x33, rd, func3, rs1, rs2, func7, func: (func7 * 8 + func3) as u16 },
            ),
        ),
{
    let w = encode_r(0x33, rd, func3, rs1, rs2, func7);
    assert(bit_field(w, 6, 0) == 0x33 && bit_field(w, 11, 7) == rd as u32 && bit_field(w, 14, 12)
        == func3 as u32 && bit_field(w, 19, 15) == rs1 as u32 && bit_field(w, 24, 20)
        == rs2 as u32 && bit_field(w, 31, 25) == func7 as u32) by (bit_vector)
        requires
            w == encode_r(0x33, rd, func3, rs1, rs2, func7),
            rd < 0x20,
            func3 < 0x8,
            rs1 < 0x20,
            rs2 < 0x20,
            func7 < 0x80,
    ;
}

/// Round trip for the I format, for each opcode that decodes to it.
pub proof fn lemma_i_type_round_trip(opcode: u8, rd: u8, func3: u8, rs1: u8, imm: i32)
    requires
        opcode == 0x13 || opcode == 0x03 || opcode == 0x67 || opcode == 0x73 || opcode == 0x0F,
        rd < 0x20,
        func3 < 0x8,
        rs1 < 0x20,
        -0x800 <= imm < 0x800,
    ensures
        decode_of(encode_i(opcode, rd, func3, rs1, imm)) == Ok::<DecodedInstr, DecodeError>(
            DecodedInstr::I(
                IType {
                    opcode,
                    rd,
                    func3,
                    rs1,
                    imm,
                    shamt: (imm_bits_12(imm) % 0x20) as u8,
                    func7: (imm_bits_12(imm) / 0x20) as u8,
                },
            ),
        ),
{
    let w = encode_i(opcode, rd, func3, rs1, imm);
    assert(bit_field(w, 6, 0) == opcode as u32 && bit_field(w, 11, 7) == rd as u32 && bit_field(
        w,
        14,
        12,
    ) == func3 as u32 && bit_field(w, 19, 15) == rs1 as u32 && bit_field(w, 31, 20) == imm_bits_12(
        imm,
    )) by (bit_vector)
        requires
            w == encode_i(opcode, rd, func3, rs1, imm),
            opcode < 0x80,
            rd < 0x20,
            func3 < 0x8,
            rs1 < 0x20,
            -0x800 <= imm < 0x800,
    ;
}

/// Round trip for the S format.
pub proof fn lemma_s_type_round_trip(func: u16, rs1: u8, rs2: u8, imm: i32)
    requires
        func < 0x8,
        rs1 < 0x20,
        rs2 < 0x20,
        -0x800 <= imm < 0x800,
    ensures
        decode_of(encode_s(0x23, func, rs1, rs2, imm)) == Ok::<DecodedInstr, DecodeError>(
            DecodedInstr::S(SType { opcode: 0x23, imm, func, rs1, rs2 }),
        ),
{
    let w = encode_s(0x23, func, rs1, rs2, imm);
    assert(bit_field(w, 6, 0) == 0x23 && bit_field(w, 14, 12) == func as u32 && bit_field(
        w,
        19,
        15,
    ) == rs1 as u32 && bit_field(w, 24, 20) == rs2 as u32 && s_imm_raw(w) == imm_bits_12(imm))
        by (bit_vector)
        requires
            w == encode_s(0x23, func, rs1, rs2, imm),
            func < 0x8,
            rs1 < 0x20,
            rs2 < 0x20,
            -0x800 <= imm < 0x800,
    ;
}

/// Round trip for the B format. The immediate must be even: its bit
/// zero is not encoded.
pub proof fn lemma_b_type_round_trip(func: u16, rs1: u8, rs2: u8, imm: i32)
    requires
        func < 0x8,
        rs1 < 0x20,
        rs2 < 0x20,
        -0x1000 <= imm < 0x1000,
        imm % 2 == 0,
    ensures
        decode_of(encode_b(0x63, func, rs1, rs2, imm)) == Ok::<DecodedInstr, DecodeError>(
            DecodedInstr::B(BType { opcode: 0x63, imm, func, rs1, rs2 }),
        ),
{
    let w = encode_b(0x63, func, rs1, rs2, imm);
    let raw: u32 = imm_bits_13(imm) as u32;
    crate::util::lemma_even_low_bit(raw);
    assert(bit_field(w, 6, 0) == 0x63 && bit_field(w, 14, 12) == func as u32 && bit_field(
        w,
        19,
        15,
    ) == rs1 as u32 && bit_field(w, 24, 20) == rs2 as u32 && b_imm_raw(w) == raw) by (bit_vector)
        requires
            w == encode_b(0x63, func, rs1, rs2, imm),
            raw == imm_bits_13(imm),
            raw & 1 == 0,
            func < 0x8,
            rs1 < 0x20,
            rs2 < 0x20,
            -0x1000 <= imm < 0x1000,
    ;
}

/// Round trip for the U format, for each opcode that decodes to it.
/// The low twelve bits of the immediate are not encoded and must be
/// zero.
pub proof fn lemma_u_type_round_trip(opcode: u8, rd: u8, imm: i32)
    requires
        opcode == 0x37 || opcode == 0x17,
        rd < 0x20,
        imm % 0x1000 == 0,
    ensures
        decode_of(encode_u(opcode, rd, imm)) == Ok::<DecodedInstr, DecodeError>(
            DecodedInstr::U(UType { opcode, rd, imm }),
        ),
{
    let w = encode_u(opcode, rd, imm);
    let hi: u32 = if imm >= 0 {
        (imm / 0x1000) as u32
    } else {
        ((imm + 0x1_0000_0000) / 0x1000) as u32
    };
    assert(bit_field(w, 6, 0) == opcode as u32 && bit_field(w, 11, 7) == rd as u32 && bit_field(
        w,
        31,
        12,
    ) == hi) by (bit_vector)
        requires
            w == (opcode + rd * 0x80 + hi * 0x1000) as u32,
            opcode < 0x80,
            rd < 0x20,
            hi < 0x100000,
    ;
}

/// Round trip for the J format. The immediate must be even: its bit
/// zero is not encoded.
pub proof fn lemma_j_type_round_trip(rd: u8, imm: i32)
    requires
        rd < 0x20,
        -0x100000 <= imm < 0x100000,
        imm % 2 == 0,
    ensures
        decode_of(encode_j(0x6F, rd, imm)) == Ok::<DecodedInstr, DecodeError>(
            DecodedInstr::J(JType { opcode: 0x6F, rd, imm }),
        ),
{
    let w = encode_j(0x6F, rd, imm);
    let raw: u32 = imm_bits_21(imm) as u32;
    crate::util::lemma_even_low_bit(raw);
    assert(bit_field(w, 6, 0) == 0x6F && bit_field(w, 11, 7) == rd as u32 && j_imm_raw(w) == raw)
        by (bit_vector)
        requires
            w == encode_j(0x6F, rd, imm),
            raw == imm_bits_21(imm),
            raw & 1 == 0,
            rd < 0x20,
            -0x100000 <= imm < 0x100000,
    ;
}

/// Register arithmetic wraps at 32 bits: addition and subtraction,
/// register-register or register-immediate, are two's-complement
/// arithmetic modulo `0x1_0000_0000`, never a checked trap.
pub proof fn lemma_arithmetic_wraps(a: u32, b: u32, i: IType)
    requires
        i.func3 == 0,
    ensures
        alu_value(0x00, 0x0, a, b) == Some((((a + b) % 0x1_0000_0000) as u32)),
        alu_value(0x20, 0x0, a, b) == Some(((((a - b) + 0x1_0000_0000) % 0x1_0000_0000) as u32)),
        imm_alu_value(i, a) == Some((((a + (i.imm as u32)) % 0x1_0000_0000) as u32)),
{
}

/// Every branch target a JALR produces has bit zero clear: the
/// executor masks the low bit of `rs1 + imm`.
pub proof fn lemma_jalr_target_even(i: IType, rs1_val: i64, pc: u32)
    requires
        i.opcode == 0x67,
    ensures
        (i_effect(i, rs1_val, pc) matches Some(effect) && effect.branch_addr matches Some(t) && t
            % 2 == 0),
{
    let x = (rs1_val as u32).wrapping_add(i.imm as u32);
    assert((x & !1u32) % 2 == 0) by (bit_vector);
}

} // verus!
