use vstd::prelude::*;

use crate::components::{CPU, CPUError};

verus! {

/// The program-header type of a loadable segment.
pub const PT_LOAD: u32 = 1;

/// One ELF program header, reduced to the plain values the loader
/// consumes.
#[derive(Debug, PartialEq, Eq, Structural, Clone, Copy)]
pub struct ElfSegment {
    /// The segment type; only `PT_LOAD` segments are loaded.
    pub p_type: u32,
    /// The virtual address the segment is mapped at.
    pub vaddr: u64,
    /// The offset of the segment's bytes within the image.
    pub offset: u64,
    /// How many bytes the image provides.
    pub filesz: u64,
    /// How many bytes the segment occupies in memory; the tail past
    /// `filesz` is zero-filled.
    pub memsz: u64,
}

/// What goblin's ELF parser returns for an image: the entry point
/// and the program headers, or `None` where the bytes do not parse
/// as ELF. The result depends on the bytes alone.
pub uninterp spec fn elf_parse_of(bytes: Seq<u8>) -> Option<(u64, Seq<ElfSegment>)>;

/// Relies on goblin's ELF parser (`goblin::elf::Elf::parse`): hands
/// back the entry point and the program headers of the image as
/// plain values, or `None` where the bytes do not parse as ELF.
#[verifier::external_body]
fn parse_elf(bytes: &[u8]) -> (r: Option<(u64, Vec<ElfSegment>)>)
    ensures
        (match r {
            Some(parsed) => elf_parse_of(bytes@) == Some((parsed.0, parsed.1@)),
            None => elf_parse_of(bytes@) is None,
        }),
{
    match goblin::elf::Elf::parse(bytes) {
        Ok(elf) => {
            let segments = elf.program_headers.iter().map(
                |ph| ElfSegment {
                    p_type: ph.p_type,
                    vaddr: ph.p_vaddr,
                    offset: ph.p_offset,
                    filesz: ph.p_filesz,
                    memsz: ph.p_memsz,
                },
            ).collect();
            Some((elf.entry, segments))
        },
        Err(_) => None,
    }
}

/// `mem` after loading one segment: `filesz` bytes copied from the
/// image at `offset`, the rest of the segment's `memsz` bytes
/// zero-filled, everything else untouched.
pub open spec fn load_segment(mem: Seq<u8>, seg: ElfSegment, bytes: Seq<u8>) -> Seq<u8> {
    Seq::new(
        mem.len(),
        |i: int|
            if seg.vaddr <= i < seg.vaddr + seg.filesz {
                bytes[seg.offset + (i - seg.vaddr)]
            } else if seg.vaddr + seg.filesz <= i < seg.vaddr + seg.memsz {
                0u8
            } else {
                mem[i]
            },
    )
}

/// The first reason loading `segs` must fail, or `None` where every
/// loadable segment fits the memory and lies inside the image.
pub open spec fn first_load_error(segs: Seq<ElfSegment>, mem_len: int, bytes_len: int) -> Option<
    CPUError,
>
    decreases segs.len(),
{
    if segs.len() == 0 {
        None
    } else {
        let seg = segs[0];
        if seg.p_type != PT_LOAD {
            first_load_error(segs.subrange(1, segs.len() as int), mem_len, bytes_len)
        } else if seg.vaddr + seg.memsz > mem_len {
            Some(CPUError::ElfTooLittleMemoryError)
        } else if seg.filesz > seg.memsz || seg.offset + seg.filesz > bytes_len {
            Some(CPUError::ElfParseError)
        } else {
            first_load_error(segs.subrange(1, segs.len() as int), mem_len, bytes_len)
        }
    }
}

/// `mem` after loading every loadable segment of `segs` in order.
pub open spec fn apply_segments(mem: Seq<u8>, segs: Seq<ElfSegment>, bytes: Seq<u8>) -> Seq<u8>
    decreases segs.len(),
{
    if segs.len() == 0 {
        mem
    } else {
        let seg = segs[0];
        if seg.p_type != PT_LOAD {
            apply_segments(mem, segs.subrange(1, segs.len() as int), bytes)
        } else {
            apply_segments(
                load_segment(mem, seg, bytes),
                segs.subrange(1, segs.len() as int),
                bytes,
            )
        }
    }
}

impl CPU {
    /// Load a parsed ELF image: copy every `PT_LOAD` segment of
    /// `segments` into memory at its virtual address, zero-fill its
    /// tail, and set the program counter to `entry`. An image whose
    /// entry point does not fit the 32-bit program counter, whose
    /// segment bytes lie outside the image, or whose file size
    /// exceeds its memory size is rejected; a segment beyond the end
    /// of memory reports `ElfTooLittleMemoryError`. On an error
    /// nothing has been changed.
    pub fn load_image(&mut self, entry: u64, segments: &Vec<ElfSegment>, elf_bytes: &[u8]) -> (r:
        Result<(), CPUError>)
        ensures
            final(self).regs@ == old(self).regs@,
            final(self).last_store == old(self).last_store,
            (if entry > 0xFFFF_FFFF {
                &&& r == Err::<(), CPUError>(CPUError::ElfParseError)
                &&& final(self).mem.data@ == old(self).mem.data@
                &&& final(self).pc.address == old(self).pc.address
            } else {
                match first_load_error(
                    segments@,
                    old(self).mem.data@.len() as int,
                    elf_bytes@.len() as int,
                ) {
                    Some(e) => {
                        &&& r == Err::<(), CPUError>(e)
                        &&& final(self).mem.data@ == old(self).mem.data@
                        &&& final(self).pc.address == old(self).pc.address
                    },
                    None => {
                        &&& r == Ok::<(), CPUError>(())
                        &&& final(self).mem.data@ == apply_segments(
                            old(self).mem.data@,
                            segments@,
                            elf_bytes@,
                        )
                        &&& final(self).pc.address == entry
                    },
                }
            }),
    {
        if entry > 0xFFFF_FFFF {
            return Err(CPUError::ElfParseError);
        }
        let mem_len = self.mem.data.len();
        let bytes_len = elf_bytes.len();
        let ghost all = segments@;
        proof {
            assert(all.subrange(0, all.len() as int) =~= all);
        }
        // First pass: find the first segment that cannot be loaded,
        // so that a rejected image leaves the memory untouched.
        let mut idx: usize = 0;
        while idx < segments.len()
            invariant
                idx <= all.len(),
                all == segments@,
                entry <= 0xFFFF_FFFF,
                *self == *old(self),
                mem_len == self.mem.data@.len(),
                bytes_len == elf_bytes@.len(),
                first_load_error(all, mem_len as int, bytes_len as int) == first_load_error(
                    all.subrange(idx as int, all.len() as int),
                    mem_len as int,
                    bytes_len as int,
                ),
            decreases all.len() - idx,
        {
            let seg = segments[idx];
            proof {
                let tail = all.subrange(idx as int, all.len() as int);
                assert(tail[0] == all[idx as int]);
                assert(tail.subrange(1, tail.len() as int) =~= all.subrange(
                    idx as int + 1,
                    all.len() as int,
                ));
            }
            if seg.p_type == PT_LOAD {
                if seg.memsz > mem_len as u64 || seg.vaddr > (mem_len as u64) - seg.memsz {
                    proof {
                        let tail = all.subrange(idx as int, all.len() as int);
                        assert(first_load_error(tail, mem_len as int, bytes_len as int) == Some(
                            CPUError::ElfTooLittleMemoryError,
                        ));
                    }
                    return Err(CPUError::ElfTooLittleMemoryError);
                }
                if seg.filesz > seg.memsz || seg.filesz > bytes_len as u64 || seg.offset > (
                bytes_len as u64) - seg.filesz {
                    proof {
                        let tail = all.subrange(idx as int, all.len() as int);
                        assert(first_load_error(tail, mem_len as int, bytes_len as int) == Some(
                            CPUError::ElfParseError,
                        ));
                    }
                    return Err(CPUError::ElfParseError);
                }
            }
            idx = idx + 1;
        }
        proof {
            assert(all.subrange(all.len() as int, all.len() as int).len() == 0);
        }
        // Second pass: every segment fits; copy and zero-fill.
        let ghost mem0 = self.mem.data@;
        let mut idx: usize = 0;
        while idx < segments.len()
            invariant
                idx <= all.len(),
                all == segments@,
                entry <= 0xFFFF_FFFF,
                mem_len == self.mem.data@.len(),
                bytes_len == elf_bytes@.len(),
                self.pc == old(self).pc,
                self.regs == old(self).regs,
                self.last_store == old(self).last_store,
                first_load_error(
                    all.subrange(idx as int, all.len() as int),
                    mem_len as int,
                    bytes_len as int,
                ) is None,
                apply_segments(mem0, all, elf_bytes@) == apply_segments(
                    self.mem.data@,
                    all.subrange(idx as int, all.len() as int),
                    elf_bytes@,
                ),
            decreases all.len() - idx,
        {
            let seg = segments[idx];
            proof {
                let tail = all.subrange(idx as int, all.len() as int);
                assert(tail[0] == all[idx as int]);
                assert(tail.subrange(1, tail.len() as int) =~= all.subrange(
                    idx as int + 1,
                    all.len() as int,
                ));
            }
            if seg.p_type == PT_LOAD {
                proof {
                    let tail = all.subrange(idx as int, all.len() as int);
                    assert(first_load_error(tail, mem_len as int, bytes_len as int) is None);
                    assert(seg.vaddr + seg.memsz <= mem_len);
                    assert(seg.filesz <= seg.memsz);
                    assert(seg.offset + seg.filesz <= bytes_len);
                }
                let ghost before = self.mem.data@;
                let vaddr = seg.vaddr as usize;
                let offset = seg.offset as usize;
                let filesz = seg.filesz as usize;
                let memsz = seg.memsz as usize;
                let mut k: usize = 0;
                while k < filesz
                    invariant
                        k <= filesz,
                        seg.vaddr == vaddr as u64,
                        seg.offset == offset as u64,
                        seg.filesz == filesz as u64,
                        seg.memsz == memsz as u64,
                        filesz <= memsz,
                        mem_len == self.mem.data@.len(),
                        bytes_len == elf_bytes@.len(),
                        vaddr + memsz <= self.mem.data@.len(),
                        offset + filesz <= elf_bytes@.len(),
                        self.mem.data@.len() == before.len(),
                        self.pc == old(self).pc,
                        self.regs == old(self).regs,
                        self.last_store == old(self).last_store,
                        forall|j: int|
                            0 <= j < before.len() && !(vaddr <= j < vaddr + k)
                                ==> self.mem.data@[j] == before[j],
                        forall|j: int|
                            vaddr <= j < vaddr + k ==> self.mem.data@[j] == elf_bytes@[
                                offset + (j - vaddr)
                            ],
                    decreases filesz - k,
                {
                    self.mem.data[vaddr + k] = elf_bytes[offset + k];
                    k = k + 1;
                }
                let mut k: usize = filesz;
                while k < memsz
                    invariant
                        filesz <= k <= memsz,
                        seg.vaddr == vaddr as u64,
                        seg.offset == offset as u64,
                        seg.filesz == filesz as u64,
                        seg.memsz == memsz as u64,
                        mem_len == self.mem.data@.len(),
                        bytes_len == elf_bytes@.len(),
                        vaddr + memsz <= self.mem.data@.len(),
                        offset + filesz <= elf_bytes@.len(),
                        self.mem.data@.len() == before.len(),
                        self.pc == old(self).pc,
                        self.regs == old(self).regs,
                        self.last_store == old(self).last_store,
                        forall|j: int|
                            0 <= j < before.len() && !(vaddr <= j < vaddr + k)
                                ==> self.mem.data@[j] == before[j],
                        forall|j: int|
                            vaddr <= j < vaddr + filesz ==> self.mem.data@[j] == elf_bytes@[
                                offset + (j - vaddr)
                            ],
                        forall|j: int|
                            vaddr + filesz <= j < vaddr + k ==> self.mem.data@[j] == 0u8,
                    decreases memsz - k,
                {
                    self.mem.data[vaddr + k] = 0;
                    k = k + 1;
                }
                proof {
                    assert(self.mem.data@ =~= load_segment(before, seg, elf_bytes@));
                }
            }
            idx = idx + 1;
        }
        proof {
            assert(all.subrange(all.len() as int, all.len() as int).len() == 0);
        }
        self.pc.set(entry as u32);
        Ok(())
    }

    /// Parse `elf_bytes` as an ELF image and load it: every
    /// `PT_LOAD` segment is copied to its virtual address with its
    /// tail zero-filled, and the program counter is set to the entry
    /// point. An image the parser rejects reports `ElfParseError`,
    /// as does one whose entry point does not fit the 32-bit program
    /// counter. The register file and the store record are never
    /// touched, and a rejected image leaves the memory and the
    /// program counter as they were.
    pub fn load_elf(&mut self, elf_bytes: &[u8]) -> (r: Result<(), CPUError>)
        ensures
            final(self).regs@ == old(self).regs@,
            final(self).last_store == old(self).last_store,
            (match elf_parse_of(elf_bytes@) {
                None => {
                    &&& r == Err::<(), CPUError>(CPUError::ElfParseError)
                    &&& final(self).mem.data@ == old(self).mem.data@
                    &&& final(self).pc.address == old(self).pc.address
                },
                Some(parsed) => {
                    if parsed.0 > 0xFFFF_FFFF {
                        &&& r == Err::<(), CPUError>(CPUError::ElfParseError)
                        &&& final(self).mem.data@ == old(self).mem.data@
                        &&& final(self).pc.address == old(self).pc.address
                    } else {
                        match first_load_error(
                            parsed.1,
                            old(self).mem.data@.len() as int,
                            elf_bytes@.len() as int,
                        ) {
                            Some(e) => {
                                &&& r == Err::<(), CPUError>(e)
                                &&& final(self).mem.data@ == old(self).mem.data@
                                &&& final(self).pc.address == old(self).pc.address
                            },
                            None => {
                                &&& r == Ok::<(), CPUError>(())
                                &&& final(self).mem.data@ == apply_segments(
                                    old(self).mem.data@,
                                    parsed.1,
                                    elf_bytes@,
                                )
                                &&& final(self).pc.address == parsed.0
                            },
                        }
                    }
                },
            }),
    {
        match parse_elf(elf_bytes) {
            Some(parsed) => {
                let (entry, segments) = parsed;
                self.load_image(entry, &segments, elf_bytes)
            },
            None => Err(CPUError::ElfParseError),
        }
    }
}

} // verus!
