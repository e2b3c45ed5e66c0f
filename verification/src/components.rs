use vstd::prelude::*;

use crate::stages::{decode_instruction, execute, fetch_instruction};
use crate::stages::{decode_of, effect_of, format_letter};
use crate::stages::{DecodeError, DecodedInstr, ExecuteError, ExecuteResult, MemSize};
use crate::util::lemma_bit_field_ranges;

verus! {

/// The program counter: the address of the instruction to execute
/// next. Arithmetic on it wraps at the 32-bit register width.
pub struct ProgramCounter {
    pub address: u32,
}

impl Default for ProgramCounter {
    /// A program counter starting at address zero.
    fn default() -> (r: Self)
        ensures
            r.address == 0,
    {
        ProgramCounter { address: 0 }
    }
}

impl ProgramCounter {
    /// Advance past the current four-byte instruction word.
    pub fn increment(&mut self)
        ensures
            final(self).address == old(self).address.wrapping_add(4),
    {
        self.address = self.address.wrapping_add(4);
    }

    /// Redirect the program counter, as a taken branch or jump does.
    pub fn set(&mut self, value: u32)
        ensures
            final(self).address == value,
    {
        self.address = value;
    }
}

/// A failed memory access.
#[derive(Debug)]
pub enum MemoryError {
    /// The access would touch a byte at or beyond `max`, the size of
    /// the memory; `address` is the first byte the access asked for.
    OutOfBounds { address: usize, max: usize },
}

/// The little-endian value of the `width` bytes of `s` starting at
/// byte address `addr`.
pub open spec fn le_value(s: Seq<u8>, addr: int, width: nat) -> int
    decreases width,
{
    if width == 0 {
        0
    } else {
        s[addr] + 0x100 * le_value(s, addr + 1, (width - 1) as nat)
    }
}

/// `s` with the low `width` bytes of `val` stored little-endian at
/// byte address `addr`.
pub open spec fn store_le(s: Seq<u8>, addr: int, val: u64, width: nat) -> Seq<u8>
    decreases width,
{
    if width == 0 {
        s
    } else {
        store_le(s.update(addr, (val % 0x100) as u8), addr + 1, val / 0x100, (width - 1) as nat)
    }
}

/// Sign-extend a byte to the 32-bit register width; the result is
/// carried zero-extended in a `u64`.
pub open spec fn sign_extend_byte(b: u8) -> u64 {
    if b < 0x80 {
        b as u64
    } else {
        (b + 0xFFFF_FF00) as u64
    }
}

/// Sign-extend a half-word value to the 32-bit register width; the
/// result is carried zero-extended in a `u64`.
pub open spec fn sign_extend_half(h: int) -> u64
    recommends
        0 <= h < 0x10000,
{
    if h < 0x8000 {
        h as u64
    } else {
        (h + 0xFFFF_0000) as u64
    }
}

/// A flat, byte-addressable, zero-initialized memory with typed
/// little-endian accessors. Accesses are never required to be
/// aligned; an access fails exactly when its last byte would lie
/// beyond the end of the array.
pub struct Memory {
    pub data: Vec<u8>,
}

impl Default for Memory {
    /// A memory of size zero.
    fn default() -> (r: Self)
        ensures
            r.data@ =~= Seq::<u8>::empty(),
    {
        Memory { data: Vec::new() }
    }
}

impl Memory {
    /// A zero-filled memory of `size` bytes.
    pub fn new(size: usize) -> (r: Self)
        ensures
            r.data@.len() == size,
            forall|i: int| 0 <= i < size ==> r.data@[i] == 0u8,
    {
        let mut data: Vec<u8> = Vec::new();
        while data.len() < size
            invariant
                data@.len() <= size,
                forall|i: int| 0 <= i < data@.len() ==> data@[i] == 0u8,
            decreases size - data@.len(),
        {
            data.push(0);
        }
        Memory { data }
    }

    /// Read the byte at `addr`, zero-extended, or sign-extended to
    /// the register width when `signed` is set.
    pub fn read_byte(&self, addr: usize, signed: bool) -> (r: Result<u64, MemoryError>)
        ensures
            (match r {
                Ok(v) => addr + 1 <= self.data@.len() && v == (if signed {
                    sign_extend_byte(self.data@[addr as int])
                } else {
                    self.data@[addr as int] as u64
                }),
                Err(e) => addr + 1 > self.data@.len() && (e matches MemoryError::OutOfBounds {
                    address,
                    max,
                } && address == addr && max == self.data@.len()),
            }),
    {
        if addr >= self.data.len() {
            return Err(MemoryError::OutOfBounds { address: addr, max: self.data.len() });
        }
        let byte = self.data[addr];
        if signed {
            if byte >= 0x80 {
                Ok((byte as u64) + 0xFFFF_FF00)
            } else {
                Ok(byte as u64)
            }
        } else {
            Ok(byte as u64)
        }
    }

    /// Read the little-endian half-word at `addr`, zero-extended, or
    /// sign-extended to the register width when `signed` is set.
    pub fn read_half_word(&self, addr: usize, signed: bool) -> (r: Result<u64, MemoryError>)
        ensures
            (match r {
                Ok(v) => addr + 2 <= self.data@.len() && v == (if signed {
                    sign_extend_half(le_value(self.data@, addr as int, 2))
                } else {
                    le_value(self.data@, addr as int, 2) as u64
                }),
                Err(e) => addr + 2 > self.data@.len() && (e matches MemoryError::OutOfBounds {
                    address,
                    max,
                } && address == addr && max == self.data@.len()),
            }),
    {
        if addr >= self.data.len() || self.data.len() - addr < 2 {
            return Err(MemoryError::OutOfBounds { address: addr, max: self.data.len() });
        }
        let b0 = self.data[addr];
        let b1 = self.data[addr + 1];
        let half: u64 = (b0 as u64) + 0x100 * (b1 as u64);
        proof {
            reveal_with_fuel(le_value, 3);
        }
        if signed {
            if half >= 0x8000 {
                Ok(half + 0xFFFF_0000)
            } else {
                Ok(half)
            }
        } else {
            Ok(half)
        }
    }

    /// Read the little-endian word at `addr`.
    pub fn read_word(&self, addr: usize) -> (r: Result<u64, MemoryError>)
        ensures
            (match r {
                Ok(v) => addr + 4 <= self.data@.len() && v == le_value(
                    self.data@,
                    addr as int,
                    4,
                ) && v < 0x1_0000_0000,
                Err(e) => addr + 4 > self.data@.len() && (e matches MemoryError::OutOfBounds {
                    address,
                    max,
                } && address == addr && max == self.data@.len()),
            }),
    {
        if addr >= self.data.len() || self.data.len() - addr < 4 {
            return Err(MemoryError::OutOfBounds { address: addr, max: self.data.len() });
        }
        let b0 = self.data[addr];
        let b1 = self.data[addr + 1];
        let b2 = self.data[addr + 2];
        let b3 = self.data[addr + 3];
        proof {
            reveal_with_fuel(le_value, 5);
        }
        Ok((b0 as u64) + 0x100 * (b1 as u64) + 0x1_0000 * (b2 as u64) + 0x100_0000 * (b3 as u64))
    }

    /// Read the little-endian double word at `addr`.
    pub fn read_double_word(&self, addr: usize) -> (r: Result<u64, MemoryError>)
        ensures
            (match r {
                Ok(v) => addr + 8 <= self.data@.len() && v == le_value(self.data@, addr as int, 8),
                Err(e) => addr + 8 > self.data@.len() && (e matches MemoryError::OutOfBounds {
                    address,
                    max,
                } && address == addr && max == self.data@.len()),
            }),
    {
        if addr >= self.data.len() || self.data.len() - addr < 8 {
            return Err(MemoryError::OutOfBounds { address: addr, max: self.data.len() });
        }
        let mut value: u64 = 0;
        let b0 = self.data[addr];
        let b1 = self.data[addr + 1];
        let b2 = self.data[addr + 2];
        let b3 = self.data[addr + 3];
        let b4 = self.data[addr + 4];
        let b5 = self.data[addr + 5];
        let b6 = self.data[addr + 6];
        let b7 = self.data[addr + 7];
        proof {
            reveal_with_fuel(le_value, 9);
        }
        value = (b0 as u64) + 0x100 * (b1 as u64) + 0x1_0000 * (b2 as u64) + 0x100_0000 * (
        b3 as u64) + 0x1_0000_0000 * (b4 as u64) + 0x100_0000_0000 * (b5 as u64)
            + 0x1_0000_0000_0000 * (b6 as u64) + 0x100_0000_0000_0000 * (b7 as u64);
        Ok(value)
    }

    /// Store the low byte of `val` at `addr`.
    pub fn write_byte(&mut self, addr: usize, val: u64) -> (r: Result<(), MemoryError>)
        ensures
            (match r {
                Ok(()) => addr + 1 <= old(self).data@.len() && final(self).data@ == store_le(
                    old(self).data@,
                    addr as int,
                    val,
                    1,
                ),
                Err(e) => addr + 1 > old(self).data@.len() && *final(self) == *old(self) && (
                e matches MemoryError::OutOfBounds { address, max } && address == addr && max == old(
                    self,
                ).data@.len()),
            }),
    {
        if addr >= self.data.len() {
            return Err(MemoryError::OutOfBounds { address: addr, max: self.data.len() });
        }
        self.data[addr] = (val % 0x100) as u8;
        proof {
            reveal_with_fuel(store_le, 2);
        }
        Ok(())
    }

    /// Store the low half-word of `val` little-endian at `addr`.
    pub fn write_half_word(&mut self, addr: usize, val: u64) -> (r: Result<(), MemoryError>)
        ensures
            (match r {
                Ok(()) => addr + 2 <= old(self).data@.len() && final(self).data@ == store_le(
                    old(self).data@,
                    addr as int,
                    val,
                    2,
                ),
                Err(e) => addr + 2 > old(self).data@.len() && *final(self) == *old(self) && (
                e matches MemoryError::OutOfBounds { address, max } && address == addr && max == old(
                    self,
                ).data@.len()),
            }),
    {
        if addr >= self.data.len() || self.data.len() - addr < 2 {
            return Err(MemoryError::OutOfBounds { address: addr, max: self.data.len() });
        }
        self.data[addr] = (val % 0x100) as u8;
        self.data[addr + 1] = ((val / 0x100) % 0x100) as u8;
        proof {
            reveal_with_fuel(store_le, 3);
        }
        Ok(())
    }

    /// Store the low word of `val` little-endian at `addr`.
    pub fn write_word(&mut self, addr: usize, val: u64) -> (r: Result<(), MemoryError>)
        ensures
            (match r {
                Ok(()) => addr + 4 <= old(self).data@.len() && final(self).data@ == store_le(
                    old(self).data@,
                    addr as int,
                    val,
                    4,
                ),
                Err(e) => addr + 4 > old(self).data@.len() && *final(self) == *old(self) && (
                e matches MemoryError::OutOfBounds { address, max } && address == addr && max == old(
                    self,
                ).data@.len()),
            }),
    {
        if addr >= self.data.len() || self.data.len() - addr < 4 {
            return Err(MemoryError::OutOfBounds { address: addr, max: self.data.len() });
        }
        self.data[addr] = (val % 0x100) as u8;
        self.data[addr + 1] = ((val / 0x100) % 0x100) as u8;
        self.data[addr + 2] = ((val / 0x1_0000) % 0x100) as u8;
        self.data[addr + 3] = ((val / 0x100_0000) % 0x100) as u8;
        proof {
            reveal_with_fuel(store_le, 5);
        }
        Ok(())
    }

    /// Store all eight bytes of `val` little-endian at `addr`.
    pub fn write_double_word(&mut self, addr: usize, val: u64) -> (r: Result<(), MemoryError>)
        ensures
            (match r {
                Ok(()) => addr + 8 <= old(self).data@.len() && final(self).data@ == store_le(
                    old(self).data@,
                    addr as int,
                    val,
                    8,
                ),
                Err(e) => addr + 8 > old(self).data@.len() && *final(self) == *old(self) && (
                e matches MemoryError::OutOfBounds { address, max } && address == addr && max == old(
                    self,
                ).data@.len()),
            }),
    {
        if addr >= self.data.len() || self.data.len() - addr < 8 {
            return Err(MemoryError::OutOfBounds { address: addr, max: self.data.len() });
        }
        self.data[addr] = (val % 0x100) as u8;
        self.data[addr + 1] = ((val / 0x100) % 0x100) as u8;
        self.data[addr + 2] = ((val / 0x1_0000) % 0x100) as u8;
        self.data[addr + 3] = ((val / 0x100_0000) % 0x100) as u8;
        self.data[addr + 4] = ((val / 0x1_0000_0000) % 0x100) as u8;
        self.data[addr + 5] = ((val / 0x100_0000_0000) % 0x100) as u8;
        self.data[addr + 6] = ((val / 0x1_0000_0000_0000) % 0x100) as u8;
        self.data[addr + 7] = ((val / 0x100_0000_0000_0000) % 0x100) as u8;
        proof {
            reveal_with_fuel(store_le, 9);
        }
        Ok(())
    }
}

/// An error of the simulator, carrying the program counter at which
/// it occurred.
#[derive(Debug)]
#[allow(inconsistent_fields)]
pub enum CPUError {
    /// The ELF image could not be parsed, or a segment lies outside
    /// the image.
    ElfParseError,
    /// A loadable segment does not fit into the simulated memory.
    ElfTooLittleMemoryError,
    /// The ELF image holds nothing to load.
    ElfNoTextSection,
    /// The instruction word at the program counter could not be read.
    FetchError { source: MemoryError, pc: u32 },
    /// A load or store issued by an instruction failed.
    MemoryError { source: MemoryError, pc: u32 },
    /// The fetched word decodes to no instruction.
    DecodeError { source: DecodeError, pc: u32 },
    /// The instruction decodes but its semantics are unimplemented.
    ExecuteError { source: ExecuteError, pc: u32 },
}

/// The number of bytes a memory access of size `s` touches.
pub open spec fn mem_size_width(s: MemSize) -> int {
    match s {
        MemSize::Byte => 1,
        MemSize::Half => 2,
        MemSize::Word => 4,
        MemSize::Double => 8,
    }
}

/// The value a load of size `s` at `addr` returns, zero- or
/// sign-extended to the register width (double-word loads return
/// all eight bytes).
pub open spec fn read_value(mem: Seq<u8>, addr: int, size: MemSize, signed: bool) -> u64 {
    match size {
        MemSize::Byte => if signed {
            sign_extend_byte(mem[addr])
        } else {
            mem[addr] as u64
        },
        MemSize::Half => if signed {
            sign_extend_half(le_value(mem, addr, 2))
        } else {
            le_value(mem, addr, 2) as u64
        },
        MemSize::Word => le_value(mem, addr, 4) as u64,
        MemSize::Double => le_value(mem, addr, 8) as u64,
    }
}

/// A register value reinterpreted as a two's-complement number, as
/// the executor receives it.
pub open spec fn sign_extend_word(x: u32) -> i64 {
    if x < 0x8000_0000 {
        x as i64
    } else {
        (x - 0x1_0000_0000) as i64
    }
}

/// The first source value handed to the executor: the sign-extended
/// `rs1` register of the formats that carry one, zero for U and J.
pub open spec fn rs1_value(d: DecodedInstr, regs: Seq<u32>) -> i64 {
    match d {
        DecodedInstr::R(r) => sign_extend_word(regs[r.rs1 as int]),
        DecodedInstr::I(i) => sign_extend_word(regs[i.rs1 as int]),
        DecodedInstr::S(s) => sign_extend_word(regs[s.rs1 as int]),
        DecodedInstr::B(b) => sign_extend_word(regs[b.rs1 as int]),
        DecodedInstr::U(_) => 0,
        DecodedInstr::J(_) => 0,
    }
}

/// The second source value handed to the executor: the sign-extended
/// `rs2` register of the formats that carry one, zero otherwise.
pub open spec fn rs2_value(d: DecodedInstr, regs: Seq<u32>) -> i64 {
    match d {
        DecodedInstr::R(r) => sign_extend_word(regs[r.rs2 as int]),
        DecodedInstr::I(_) => 0,
        DecodedInstr::S(s) => sign_extend_word(regs[s.rs2 as int]),
        DecodedInstr::B(b) => sign_extend_word(regs[b.rs2 as int]),
        DecodedInstr::U(_) => 0,
        DecodedInstr::J(_) => 0,
    }
}

/// A cycle that stopped with an error before touching anything:
/// only the last-store record has been cleared.
pub open spec fn unchanged_but_last_store(pre: CPU, post: CPU) -> bool {
    &&& post.pc.address == pre.pc.address
    &&& post.mem.data@ == pre.mem.data@
    &&& post.regs@ == pre.regs@
    &&& post.last_store is None
}

/// The write-back, store-record and program-counter steps of a
/// cycle, entered with `regs1`, the register file after the load
/// step, and `mem1` and `ls`, the memory and store record after the
/// store step.
pub open spec fn cycle_finish(
    pre: CPU,
    post: CPU,
    r: Result<(), CPUError>,
    effect: ExecuteResult,
    regs1: Seq<u32>,
    mem1: Seq<u8>,
    ls: Option<(u64, u64)>,
) -> bool {
    let regs2 = match effect.write_back {
        Some(wb) => if wb.rd != 0 {
            regs1.update(wb.rd as int, wb.value)
        } else {
            regs1
        },
        None => regs1,
    };
    let next_pc = match effect.branch_addr {
        Some(target) => target,
        None => pre.pc.address.wrapping_add(4),
    };
    &&& r == Ok::<(), CPUError>(())
    &&& post.pc.address == next_pc
    &&& post.mem.data@ == mem1
    &&& post.regs@ == regs2
    &&& post.last_store == ls
}

/// The store step of a cycle and what follows it, entered with
/// `regs1`, the register file after the load step.
pub open spec fn cycle_after_read(
    pre: CPU,
    post: CPU,
    r: Result<(), CPUError>,
    effect: ExecuteResult,
    regs1: Seq<u32>,
) -> bool {
    let pc = pre.pc.address;
    let mem = pre.mem.data@;
    match effect.write_mem {
        Some(wm) => {
            if wm.address + mem_size_width(wm.size) > mem.len() {
                &&& r == Err::<(), CPUError>(
                    CPUError::MemoryError {
                        source: MemoryError::OutOfBounds {
                            address: wm.address as usize,
                            max: mem.len() as usize,
                        },
                        pc,
                    },
                )
                &&& post.pc.address == pc
                &&& post.mem.data@ == mem
                &&& post.regs@ == regs1
                &&& post.last_store is None
            } else {
                cycle_finish(
                    pre,
                    post,
                    r,
                    effect,
                    regs1,
                    store_le(mem, wm.address as int, wm.data, mem_size_width(wm.size) as nat),
                    Some((wm.address as u64, wm.data)),
                )
            }
        },
        None => cycle_finish(pre, post, r, effect, regs1, mem, None),
    }
}

/// How a cycle applies an effect, in order: the load, the store, the
/// write-back, then the program counter. Writes to register zero are
/// discarded. A failed access stops the cycle where it stands.
pub open spec fn cycle_apply(
    pre: CPU,
    post: CPU,
    r: Result<(), CPUError>,
    effect: ExecuteResult,
) -> bool {
    let pc = pre.pc.address;
    let mem = pre.mem.data@;
    let regs = pre.regs@;
    match effect.read_mem {
        Some(rm) => {
            if rm.address + mem_size_width(rm.size) > mem.len() {
                &&& r == Err::<(), CPUError>(
                    CPUError::MemoryError {
                        source: MemoryError::OutOfBounds {
                            address: rm.address as usize,
                            max: mem.len() as usize,
                        },
                        pc,
                    },
                )
                &&& unchanged_but_last_store(pre, post)
            } else {
                let data = read_value(mem, rm.address as int, rm.size, rm.signed);
                let regs1 = if rm.rd != 0 {
                    regs.update(rm.rd as int, data as u32)
                } else {
                    regs
                };
                cycle_after_read(pre, post, r, effect, regs1)
            }
        },
        None => cycle_after_read(pre, post, r, effect, regs),
    }
}

/// The full contract of one cycle: fetch the word at the program
/// counter, decode it, execute it over the source registers, then
/// apply the effect. Each failure is reported with the program
/// counter at which it happened, leaving the machine as the steps
/// already taken had left it.
pub open spec fn cycle_spec(pre: CPU, post: CPU, r: Result<(), CPUError>) -> bool {
    let pc = pre.pc.address;
    let mem = pre.mem.data@;
    if pc + 4 > mem.len() {
        &&& r == Err::<(), CPUError>(
            CPUError::FetchError {
                source: MemoryError::OutOfBounds { address: pc as usize, max: mem.len() as usize },
                pc,
            },
        )
        &&& unchanged_but_last_store(pre, post)
    } else {
        let w = le_value(mem, pc as int, 4) as u32;
        match decode_of(w) {
            Err(e) => {
                &&& r == Err::<(), CPUError>(CPUError::DecodeError { source: e, pc })
                &&& unchanged_but_last_store(pre, post)
            },
            Ok(d) => {
                let rs1 = rs1_value(d, pre.regs@);
                let rs2 = rs2_value(d, pre.regs@);
                match effect_of(d, rs1, rs2, pc) {
                    None => {
                        &&& (r matches Err(CPUError::ExecuteError { source, pc: err_pc })
                            && err_pc == pc && (
                        source matches ExecuteError::UnimplementedInstruction {
                            instr_type,
                            instruction,
                        } && instruction == d && instr_type@ == format_letter(d)))
                        &&& unchanged_but_last_store(pre, post)
                    },
                    Some(effect) => cycle_apply(pre, post, r, effect),
                }
            },
        }
    }
}

/// The simulated machine: the register file, the program counter,
/// the memory and the record of the last store, for a driver's TTY
/// convention. Register zero is hard-wired to zero: every write to
/// it is discarded.
pub struct CPU {
    pub pc: ProgramCounter,
    pub mem: Memory,
    pub regs: [u32; 32],
    pub last_store: Option<(u64, u64)>,
}

/// Sign-extend a register value to the 64-bit carrier the executor
/// takes its source values in.
fn sign_extend_reg(x: u32) -> (r: i64)
    ensures
        r == sign_extend_word(x),
{
    if x >= 0x8000_0000 {
        (x as i64) - 0x1_0000_0000
    } else {
        x as i64
    }
}

impl CPU {
    /// A machine with `mem_size` bytes of zeroed memory, all
    /// registers zero and the program counter at zero.
    pub fn new(mem_size: usize) -> (r: Self)
        ensures
            r.pc.address == 0,
            r.mem.data@.len() == mem_size,
            forall|i: int| 0 <= i < mem_size ==> r.mem.data@[i] == 0u8,
            forall|i: int| 0 <= i < 32 ==> r.regs@[i] == 0u32,
            r.last_store is None,
    {
        CPU {
            pc: ProgramCounter::default(),
            mem: Memory::new(mem_size),
            regs: [0u32; 32],
            last_store: None,
        }
    }

    /// Run one instruction: fetch, decode, execute, then apply the
    /// effect to the memory, the register file and the program
    /// counter, in that order.
    pub fn cycle(&mut self) -> (r: Result<(), CPUError>)
        ensures
            cycle_spec(*old(self), *final(self), r),
            final(self).regs@[0] == old(self).regs@[0],
            old(self).regs@[0] == 0 ==> final(self).regs@[0] == 0,
    {
        self.last_store = None;
        let instruction = match fetch_instruction(&self.pc, &self.mem) {
            Ok(w) => w,
            Err(e) => {
                return Err(CPUError::FetchError { source: e, pc: self.pc.address });
            },
        };
        let decoded_instruction = match decode_instruction(instruction) {
            Ok(d) => d,
            Err(e) => {
                return Err(CPUError::DecodeError { source: e, pc: self.pc.address });
            },
        };
        proof {
            lemma_bit_field_ranges(instruction);
        }
        let rs1_val: i64 = match &decoded_instruction {
            DecodedInstr::R(r) => sign_extend_reg(self.regs[r.rs1 as usize]),
            DecodedInstr::I(i) => sign_extend_reg(self.regs[i.rs1 as usize]),
            DecodedInstr::S(s) => sign_extend_reg(self.regs[s.rs1 as usize]),
            DecodedInstr::B(b) => sign_extend_reg(self.regs[b.rs1 as usize]),
            DecodedInstr::U(_) => 0,
            DecodedInstr::J(_) => 0,
        };
        let rs2_val: i64 = match &decoded_instruction {
            DecodedInstr::R(r) => sign_extend_reg(self.regs[r.rs2 as usize]),
            DecodedInstr::I(_) => 0,
            DecodedInstr::S(s) => sign_extend_reg(self.regs[s.rs2 as usize]),
            DecodedInstr::B(b) => sign_extend_reg(self.regs[b.rs2 as usize]),
            DecodedInstr::U(_) => 0,
            DecodedInstr::J(_) => 0,
        };
        let execute_result = match execute(&decoded_instruction, rs1_val, rs2_val, self.pc.address)
            {
            Ok(er) => er,
            Err(e) => {
                return Err(CPUError::ExecuteError { source: e, pc: self.pc.address });
            },
        };
        if let Some(read_mem) = execute_result.read_mem {
            let read = match read_mem.size {
                MemSize::Byte => self.mem.read_byte(read_mem.address as usize, read_mem.signed),
                MemSize::Half => self.mem.read_half_word(
                    read_mem.address as usize,
                    read_mem.signed,
                ),
                MemSize::Word => self.mem.read_word(read_mem.address as usize),
                MemSize::Double => self.mem.read_double_word(read_mem.address as usize),
            };
            let data = match read {
                Ok(v) => v,
                Err(e) => {
                    return Err(CPUError::MemoryError { source: e, pc: self.pc.address });
                },
            };
            if read_mem.rd != 0 {
                self.regs[read_mem.rd as usize] = data as u32;
            }
        }
        if let Some(write_mem) = execute_result.write_mem {
            let written = match write_mem.size {
                MemSize::Byte => self.mem.write_byte(write_mem.address as usize, write_mem.data),
                MemSize::Half => self.mem.write_half_word(
                    write_mem.address as usize,
                    write_mem.data,
                ),
                MemSize::Word => self.mem.write_word(write_mem.address as usize, write_mem.data),
                MemSize::Double => self.mem.write_double_word(
                    write_mem.address as usize,
                    write_mem.data,
                ),
            };
            match written {
                Ok(()) => {},
                Err(e) => {
                    return Err(CPUError::MemoryError { source: e, pc: self.pc.address });
                },
            }
            self.last_store = Some((write_mem.address as u64, write_mem.data));
        }
        if let Some(write_back) = execute_result.write_back {
            if write_back.rd != 0 {
                self.regs[write_back.rd as usize] = write_back.value;
            }
        }
        if let Some(branch_addr) = execute_result.branch_addr {
            self.pc.set(branch_addr);
        } else {
            self.pc.increment();
        }
        Ok(())
    }
}

} // verus!
