//! What a debugger needs of an x86-64 guest: its registers in the
//! debugger's layout, and the translation of its virtual addresses.

use vstd::prelude::*;
use crate::x86_64::{Error, Result};

verus! {

/// The general registers of a virtual CPU.
#[derive(Clone, Copy, Debug, PartialEq, Eq, Structural)]
pub struct Regs {
    pub rax: u64,
    pub rbx: u64,
    pub rcx: u64,
    pub rdx: u64,
    pub rsi: u64,
    pub rdi: u64,
    pub rsp: u64,
    pub rbp: u64,
    pub r8: u64,
    pub r9: u64,
    pub r10: u64,
    pub r11: u64,
    pub r12: u64,
    pub r13: u64,
    pub r14: u64,
    pub r15: u64,
    pub rip: u64,
    pub rflags: u64,
}

/// The selectors of the segment registers.
#[derive(Clone, Copy, Debug, PartialEq, Eq, Structural)]
pub struct SegmentSelectors {
    pub cs: u16,
    pub ss: u16,
    pub ds: u16,
    pub es: u16,
    pub fs: u16,
    pub gs: u16,
}

/// The special registers of a virtual CPU, as far as a debugger reads or
/// writes them.
#[derive(Clone, Copy, Debug, PartialEq, Eq, Structural)]
pub struct Sregs {
    pub selectors: SegmentSelectors,
    pub cr0: u64,
    pub cr3: u64,
    pub cr4: u64,
    pub efer: u64,
}

/// The segment registers in the debugger's layout.
#[derive(Clone, Copy, Debug, PartialEq, Eq, Structural)]
pub struct X86SegmentRegs {
    pub cs: u32,
    pub ss: u32,
    pub ds: u32,
    pub es: u32,
    pub fs: u32,
    pub gs: u32,
}

/// The core registers in the debugger's layout: the sixteen general
/// registers in the order RAX, RBX, RCX, RDX, RSI, RDI, RBP, RSP, R8 to R15,
/// the low half of the flags, the instruction pointer and the segments.
#[derive(Clone, Copy, Debug, PartialEq, Eq)]
pub struct X86_64CoreRegs {
    pub regs: [u64; 16],
    pub eflags: u32,
    pub rip: u64,
    pub segments: X86SegmentRegs,
}

/// The general registers in the debugger's order.
pub open spec fn general_registers(gregs: Regs) -> Seq<u64> {
    seq![
        gregs.rax,
        gregs.rbx,
        gregs.rcx,
        gregs.rdx,
        gregs.rsi,
        gregs.rdi,
        gregs.rbp,
        gregs.rsp,
        gregs.r8,
        gregs.r9,
        gregs.r10,
        gregs.r11,
        gregs.r12,
        gregs.r13,
        gregs.r14,
        gregs.r15,
    ]
}

/// The flags register with its low half replaced by `eflags`.
pub open spec fn merged_flags(rflags: u64, eflags: u32) -> u64 {
    (rflags & 0xffff_ffff_0000_0000) | (eflags as u64)
}

/// The low 16 bits of a segment value of the debugger.
pub open spec fn selector_of(segment: u32) -> u16 {
    (segment & 0xffff) as u16
}

/// The registers of a virtual CPU in the debugger's layout.
pub fn debug_read_registers(gregs: &Regs, sregs: &Sregs) -> (core: X86_64CoreRegs)
    ensures
        core.regs@ == general_registers(*gregs),
        core.eflags == (gregs.rflags & 0xffff_ffff) as u32,
        core.rip == gregs.rip,
        core.segments == (X86SegmentRegs {
            cs: sregs.selectors.cs as u32,
            ss: sregs.selectors.ss as u32,
            ds: sregs.selectors.ds as u32,
            es: sregs.selectors.es as u32,
            fs: sregs.selectors.fs as u32,
            gs: sregs.selectors.gs as u32,
        }),
{
    let regs: [u64; 16] = [
        gregs.rax,
        gregs.rbx,
        gregs.rcx,
        gregs.rdx,
        gregs.rsi,
        gregs.rdi,
        gregs.rbp,
        gregs.rsp,
        gregs.r8,
        gregs.r9,
        gregs.r10,
        gregs.r11,
        gregs.r12,
        gregs.r13,
        gregs.r14,
        gregs.r15,
    ];
    assert(regs@ =~= general_registers(*gregs));
    let rflags: u64 = gregs.rflags;
    assert((rflags & 0xffff_ffff) <= 0xffff_ffff) by (bit_vector);
    let eflags: u32 = (rflags & 0xffff_ffff) as u32;
    let segments = X86SegmentRegs {
        cs: sregs.selectors.cs as u32,
        ss: sregs.selectors.ss as u32,
        ds: sregs.selectors.ds as u32,
        es: sregs.selectors.es as u32,
        fs: sregs.selectors.fs as u32,
        gs: sregs.selectors.gs as u32,
    };
    X86_64CoreRegs { regs, eflags, rip: gregs.rip, segments }
}

/// Returns the low 16 bits of a segment value of the debugger.
fn selector(segment: u32) -> (s: u16)
    ensures
        s == selector_of(segment),
{
    assert((segment & 0xffff) <= 0xffff) by (bit_vector);
    (segment & 0xffff) as u16
}

/// The general registers to write to a virtual CPU for the debugger's
/// `regs`: the registers and the instruction pointer as given, and the
/// flags with their high half as the virtual CPU has it in `orig_gregs`.
pub fn debug_write_registers(orig_gregs: &Regs, regs: &X86_64CoreRegs) -> (gregs: Regs)
    ensures
        general_registers(gregs) == regs.regs@,
        gregs.rip == regs.rip,
        gregs.rflags == merged_flags(orig_gregs.rflags, regs.eflags),
{
    let gregs = Regs {
        rax: regs.regs[0],
        rbx: regs.regs[1],
        rcx: regs.regs[2],
        rdx: regs.regs[3],
        rsi: regs.regs[4],
        rdi: regs.regs[5],
        rbp: regs.regs[6],
        rsp: regs.regs[7],
        r8: regs.regs[8],
        r9: regs.regs[9],
        r10: regs.regs[10],
        r11: regs.regs[11],
        r12: regs.regs[12],
        r13: regs.regs[13],
        r14: regs.regs[14],
        r15: regs.regs[15],
        rip: regs.rip,
        rflags: (orig_gregs.rflags & 0xffff_ffff_0000_0000) | (regs.eflags as u64),
    };
    assert(general_registers(gregs) =~= regs.regs@);
    gregs
}

/// The special registers to write to a virtual CPU for the debugger's
/// `regs`: those that the virtual CPU has in `orig_sregs`, with the
/// selectors of `regs`.
pub fn debug_write_segments(orig_sregs: &Sregs, regs: &X86_64CoreRegs) -> (sregs: Sregs)
    ensures
        sregs == (Sregs {
            selectors: SegmentSelectors {
                cs: selector_of(regs.segments.cs),
                ss: selector_of(regs.segments.ss),
                ds: selector_of(regs.segments.ds),
                es: selector_of(regs.segments.es),
                fs: selector_of(regs.segments.fs),
                gs: selector_of(regs.segments.gs),
            },
            ..*orig_sregs
        }),
{
    Sregs {
        selectors: SegmentSelectors {
            cs: selector(regs.segments.cs),
            ss: selector(regs.segments.ss),
            ds: selector(regs.segments.ds),
            es: selector(regs.segments.es),
            fs: selector(regs.segments.fs),
            gs: selector(regs.segments.gs),
        },
        cr0: orig_sregs.cr0,
        cr3: orig_sregs.cr3,
        cr4: orig_sregs.cr4,
        efer: orig_sregs.efer,
    }
}

/// Control register 0: paging is on.
pub const CR0_PG_MASK: u64 = 0x8000_0000;

/// Control register 4: physical address extension is on.
pub const CR4_PAE_MASK: u64 = 0x20;

/// Extended feature register: long mode is active.
pub const MSR_EFER_LMA: u64 = 0x400;

/// The bits of a page table entry that hold an address: bits 12 to 51.
pub const PTE_ADDR_MASK: u64 = 0x000f_ffff_ffff_f000;

/// Page table entry: the page is present.
pub const PAGE_PRESENT: u64 = 0x1;

/// Page table entry: the entry maps a large page.
pub const PAGE_PSE_MASK: u64 = 0x80;

pub const PAGE_SIZE_4K: u64 = 0x1000;

pub const PAGE_SIZE_2M: u64 = 0x20_0000;

pub const PAGE_SIZE_1G: u64 = 0x4000_0000;

/// A step of the translation of a virtual address.
#[derive(Clone, Copy, Debug, PartialEq, Eq, Structural)]
pub enum PageWalk {
    /// The page table entry at this guest physical address is to be read;
    /// it belongs to the paging level given, from 4 down to 1.
    Read { addr: u64, level: u8 },
    /// The address is translated: it lies at the physical address `paddr`,
    /// in a page of `page_size` bytes.
    Done { paddr: u64, page_size: u64 },
}

/// The byte offset of the entry for `addr` in a page table of the level
/// `level`: nine bits of the address, counted in entries of eight bytes.
pub open spec fn page_table_offset(addr: u64, level: u8) -> u64 {
    ((addr >> ((((level - 1) * 9 + 12) as u64))) & 0x1ff) << 3
}

/// The guest physical address of the entry for `vaddr` in the page table
/// that `table` points to.
pub open spec fn page_table_entry_addr(table: u64, vaddr: u64, level: u8) -> u64 {
    ((table & PTE_ADDR_MASK) + page_table_offset(vaddr, level)) as u64
}

/// The physical address that a final page table entry gives for `vaddr`:
/// the page that the entry points to, and the offset of `vaddr` in a page
/// of `page_size` bytes.
pub open spec fn page_address(entry: u64, vaddr: u64, page_size: u64) -> u64 {
    (entry & PTE_ADDR_MASK) | (vaddr & ((page_size - 1) as u64))
}

/// How the translation of `vaddr` starts under the special registers
/// `sregs`: without paging the address is physical as it is; with it, only
/// four-level paging in long mode is translated, from the table in control
/// register 3 on, and anything else fails with `TranslatingVirtAddr`.
pub open spec fn walk_start(vaddr: u64, sregs: Sregs) -> Result<PageWalk> {
    if sregs.cr0 & CR0_PG_MASK == 0 {
        Ok(PageWalk::Done { paddr: vaddr, page_size: PAGE_SIZE_4K })
    } else if sregs.cr4 & CR4_PAE_MASK == 0 {
        Err(Error::TranslatingVirtAddr)
    } else if sregs.efer & MSR_EFER_LMA != 0 {
        Ok(PageWalk::Read { addr: page_table_entry_addr(sregs.cr3, vaddr, 4), level: 4 })
    } else {
        Err(Error::TranslatingVirtAddr)
    }
}

/// How the translation of `vaddr` goes on once the entry of the level
/// `level` was read, or could not be read (`None`). An entry that could not
/// be read fails with `TranslatingVirtAddr`, one that is not present with
/// `PageNotPresent`. An entry of level 3 or 2 that maps a large page ends
/// the translation, as the entry of level 1 always does; any other leads to
/// the table of the next level.
pub open spec fn walk_next(vaddr: u64, level: u8, entry: Option<u64>) -> Result<PageWalk> {
    match entry {
        None => Err(Error::TranslatingVirtAddr),
        Some(ent) => if ent & PAGE_PRESENT == 0 {
            Err(Error::PageNotPresent)
        } else if level == 3 && ent & PAGE_PSE_MASK != 0 {
            Ok(
                PageWalk::Done {
                    paddr: page_address(ent, vaddr, PAGE_SIZE_1G),
                    page_size: PAGE_SIZE_1G,
                },
            )
        } else if level == 2 && ent & PAGE_PSE_MASK != 0 {
            Ok(
                PageWalk::Done {
                    paddr: page_address(ent, vaddr, PAGE_SIZE_2M),
                    page_size: PAGE_SIZE_2M,
                },
            )
        } else if level == 1 {
            Ok(
                PageWalk::Done {
                    paddr: page_address(ent, vaddr, PAGE_SIZE_4K),
                    page_size: PAGE_SIZE_4K,
                },
            )
        } else {
            Ok(
                PageWalk::Read {
                    addr: page_table_entry_addr(ent, vaddr, (level - 1) as u8),
                    level: (level - 1) as u8,
                },
            )
        },
    }
}

/// Returns the guest physical address of the entry for `vaddr` in the page
/// table that `table` points to.
fn next_pte_addr(table: u64, vaddr: u64, level: u8) -> (addr: u64)
    requires
        1 <= level <= 4,
    ensures
        addr == page_table_entry_addr(table, vaddr, level),
{
    let shift: u64 = ((level - 1) as u64) * 9 + 12;
    let offset: u64 = ((vaddr >> shift) & 0x1ff) << 3;
    assert((table & 0x000f_ffff_ffff_f000) <= 0x000f_ffff_ffff_f000) by (bit_vector);
    assert((((vaddr >> shift) & 0x1ff) << 3) <= 0xff8) by (bit_vector)
        requires
            shift < 64,
    ;
    (table & PTE_ADDR_MASK) + offset
}

/// Starts the translation of the virtual address `vaddr` of a virtual CPU
/// with the special registers `sregs`.
pub fn phys_addr(vaddr: u64, sregs: &Sregs) -> (r: Result<PageWalk>)
    ensures
        r == walk_start(vaddr, *sregs),
{
    if sregs.cr0 & CR0_PG_MASK == 0 {
        return Ok(PageWalk::Done { paddr: vaddr, page_size: PAGE_SIZE_4K });
    }
    if sregs.cr4 & CR4_PAE_MASK == 0 {
        return Err(Error::TranslatingVirtAddr);
    }
    if sregs.efer & MSR_EFER_LMA != 0 {
        return Ok(PageWalk::Read { addr: next_pte_addr(sregs.cr3, vaddr, 4), level: 4 });
    }
    Err(Error::TranslatingVirtAddr)
}

/// Goes on with the translation of `vaddr` after the page table entry of
/// the level `level` was read from guest memory; `entry` is what was read,
/// or nothing where the read failed.
pub fn next_pte(vaddr: u64, level: u8, entry: Option<u64>) -> (r: Result<PageWalk>)
    requires
        1 <= level <= 4,
    ensures
        r == walk_next(vaddr, level, entry),
        r matches Ok(PageWalk::Read { level: next, .. }) ==> 1 <= next < level,
{
    let ent: u64 = match entry {
        Some(ent) => ent,
        None => {
            return Err(Error::TranslatingVirtAddr);
        },
    };
    if ent & PAGE_PRESENT == 0 {
        return Err(Error::PageNotPresent);
    }
    if level == 3 && ent & PAGE_PSE_MASK != 0 {
        let paddr: u64 = ent & PTE_ADDR_MASK | (vaddr & (PAGE_SIZE_1G - 1));
        return Ok(PageWalk::Done { paddr, page_size: PAGE_SIZE_1G });
    }
    if level == 2 && ent & PAGE_PSE_MASK != 0 {
        let paddr: u64 = ent & PTE_ADDR_MASK | (vaddr & (PAGE_SIZE_2M - 1));
        return Ok(PageWalk::Done { paddr, page_size: PAGE_SIZE_2M });
    }
    if level == 1 {
        let paddr: u64 = ent & PTE_ADDR_MASK | (vaddr & (PAGE_SIZE_4K - 1));
        return Ok(PageWalk::Done { paddr, page_size: PAGE_SIZE_4K });
    }
    Ok(PageWalk::Read { addr: next_pte_addr(ent, vaddr, level - 1), level: level - 1 })
}

/// Number of bytes of a transfer of `remaining` bytes that lie in the page
/// of `page_size` bytes around the physical address `paddr`, from `paddr`
/// to the end of the page.
pub open spec fn bytes_in_page(remaining: u64, paddr: u64, page_size: u64) -> u64 {
    let to_end = (page_size - (paddr & ((page_size - 1) as u64))) as u64;
    if remaining < to_end {
        remaining
    } else {
        to_end
    }
}

/// Returns how many bytes of a transfer of `remaining` bytes go to the page
/// around `paddr`, so that the transfer does not cross into the next page.
pub fn page_chunk_len(remaining: u64, paddr: u64, page_size: u64) -> (len: u64)
    requires
        page_size > 0,
    ensures
        len == bytes_in_page(remaining, paddr, page_size),
        remaining > 0 ==> len > 0,
{
    let mask: u64 = page_size - 1;
    assert((paddr & mask) <= mask) by (bit_vector);
    let to_end: u64 = page_size - (paddr & mask);
    if remaining < to_end {
        remaining
    } else {
        to_end
    }
}

} // verus!
