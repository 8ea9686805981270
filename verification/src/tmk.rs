//! Boot state of a test microkernel (TMK) image: where it is loaded, and
//! the page tables, GDT and registers that an x86-64 boot processor starts
//! with.
use vstd::prelude::*;

verus! {

/// Guest address that a TMK image is loaded at when no offset is given.
pub const DEFAULT_TMK_LOAD_ADDRESS: u64 = 0x9800_0000;

/// Shift from a guest address to its 4 KiB page number.
pub const PAGE_SHIFT: u64 = 12;

/// CR0.PE: protected mode.
pub const X64_CR0_PE: u64 = 0x1;

/// CR0.PG: paging.
pub const X64_CR0_PG: u64 = 0x8000_0000;

/// CR4.PAE: physical address extension.
pub const X64_CR4_PAE: u64 = 0x20;

/// EFER.SCE: system call extensions.
pub const X64_EFER_SCE: u64 = 0x1;

/// EFER.LME: long mode enable.
pub const X64_EFER_LME: u64 = 0x100;

/// EFER.LMA: long mode active.
pub const X64_EFER_LMA: u64 = 0x400;

/// EFER.NXE: no-execute enable.
pub const X64_EFER_NXE: u64 = 0x800;

/// The guest address that a TMK image is loaded at: `offset_addr` where
/// given, else the default load address.
pub fn tmk_load_address(offset_addr: Option<u64>) -> (r: u64)
    ensures
        r == match offset_addr {
            Some(a) => a,
            None => DEFAULT_TMK_LOAD_ADDRESS,
        },
{
    match offset_addr {
        Some(a) => a,
        None => DEFAULT_TMK_LOAD_ADDRESS,
    }
}

/// Where the identity-mapping page tables and the GDT of an x86-64 TMK go,
/// and the registers that the boot processor starts with.
#[derive(Clone, Copy, Debug, PartialEq, Eq, Structural)]
pub struct X86BootPlan {
    /// First page of the page tables.
    pub page_table_page: u64,
    /// Number of pages of the page tables.
    pub page_table_page_count: u64,
    /// Page of the GDT, right after the page tables.
    pub gdt_page: u64,
    /// CR0: protected mode with paging.
    pub cr0: u64,
    /// CR3: the page tables.
    pub cr3: u64,
    /// CR4: PAE.
    pub cr4: u64,
    /// EFER: long mode with system calls and no-execute.
    pub efer: u64,
    /// RIP: the image's entry point.
    pub rip: u64,
}

/// The boot plan of an image loaded below `next_available_address`, with
/// `page_tables_len` bytes of page tables built at that address, entered at
/// `entrypoint`. The page tables start at the first free address and the
/// GDT follows them.
pub fn x86_boot_plan(next_available_address: u64, page_tables_len: u64, entrypoint: u64) -> (r:
    X86BootPlan)
    requires
        next_available_address + page_tables_len <= u64::MAX,
    ensures
        r.page_table_page == next_available_address >> 12u64,
        r.page_table_page_count == page_tables_len >> 12u64,
        r.gdt_page == ((next_available_address + page_tables_len) as u64) >> 12u64,
        r.cr0 == X64_CR0_PG | X64_CR0_PE,
        r.cr3 == next_available_address,
        r.cr4 == X64_CR4_PAE,
        r.efer == X64_EFER_SCE | X64_EFER_LME | X64_EFER_LMA | X64_EFER_NXE,
        r.rip == entrypoint,
{
    let page_table_base = next_available_address;
    let gdt_base = page_table_base + page_tables_len;
    X86BootPlan {
        page_table_page: page_table_base >> PAGE_SHIFT,
        page_table_page_count: page_tables_len >> PAGE_SHIFT,
        gdt_page: gdt_base >> PAGE_SHIFT,
        cr0: X64_CR0_PG | X64_CR0_PE,
        cr3: page_table_base,
        cr4: X64_CR4_PAE,
        efer: X64_EFER_SCE | X64_EFER_LME | X64_EFER_LMA | X64_EFER_NXE,
        rip: entrypoint,
    }
}

} // verus!
