//! The arithmetic of guest memory backing: finding the physical frame of a
//! virtual address through an entry of `/proc/self/pagemap`, and the size checks of a
//! hugetlbfs mapping. Reading the pagemap and mapping the memory are left
//! to the caller.
use vstd::prelude::*;

verus! {

/// Number of bits of the physical frame number in a pagemap entry.
pub const PFN_BITS: u64 = 55;

/// Mask of the physical frame number in a pagemap entry: bits 0..55.
pub const PFN_MASK: u64 = 0x007f_ffff_ffff_ffff;

/// Bit 63 of a pagemap entry: the page is present in RAM.
pub const PAGE_PRESENT_BIT: u64 = 0x8000_0000_0000_0000;

/// Size of one pagemap entry in bytes.
pub const PAGEMAP_ENTRY_SIZE: u64 = 8;

/// Why a virtual address could not be translated.
#[derive(Clone, Copy, Debug, PartialEq, Eq, Structural)]
pub enum PagemapError {
    /// The system page size is zero.
    PageSizeUnknown,
    /// The page is not present in RAM (swapped out or not mapped).
    NotPresent,
}

/// Offset in the pagemap file of the entry of the page that holds `vaddr`:
/// the virtual page number times the entry size. Fails with
/// `PageSizeUnknown` where the page size is zero.
pub fn pagemap_offset(vaddr: u64, page_size: u64) -> (r: Result<u64, PagemapError>)
    requires
        page_size == 0 || (vaddr / page_size) * PAGEMAP_ENTRY_SIZE <= u64::MAX,
    ensures
        page_size == 0 ==> r == Err::<u64, PagemapError>(PagemapError::PageSizeUnknown),
        page_size != 0 ==> r == Ok::<u64, PagemapError>(
            ((vaddr / page_size) * PAGEMAP_ENTRY_SIZE) as u64,
        ),
{
    if page_size == 0 {
        return Err(PagemapError::PageSizeUnknown);
    }
    Ok((vaddr / page_size) * PAGEMAP_ENTRY_SIZE)
}

/// Whether the pagemap entry `entry` marks its page present.
pub open spec fn entry_present(entry: u64) -> bool {
    entry & PAGE_PRESENT_BIT != 0
}

/// Physical frame number (PFN) of the page that the pagemap entry `entry`
/// describes: its bits 0..55. Fails with `NotPresent` where bit 63 is
/// clear, for then those bits are not a frame number (they may hold swap
/// information).
pub fn pagemap_entry_pfn(entry: u64) -> (r: Result<u64, PagemapError>)
    ensures
        !entry_present(entry) ==> r == Err::<u64, PagemapError>(PagemapError::NotPresent),
        entry_present(entry) ==> r == Ok::<u64, PagemapError>(entry & PFN_MASK),
{
    if (entry & PAGE_PRESENT_BIT) == 0 {
        return Err(PagemapError::NotPresent);
    }
    Ok(entry & PFN_MASK)
}

/// Why a hugetlbfs mapping of some size cannot be made.
#[derive(Clone, Copy, Debug, PartialEq, Eq, Structural)]
pub enum HugetlbfsSizeError {
    /// A mapping of size 0 is not permitted.
    ZeroSize,
    /// The size does not fit the platform's address space.
    TooLargeForAddressSpace,
    /// The size does not fit an i64 file offset.
    TooLargeForOffset,
    /// The huge page size is zero or larger than the mapping.
    InvalidBlockSize,
}

/// Checks the size of a mapping: it must be nonzero, fit a `usize`, and fit
/// an `i64` file offset, checked in that order.
pub fn check_mapping_size(size: u64) -> (r: Result<(), HugetlbfsSizeError>)
    ensures
        size == 0 ==> r == Err::<(), HugetlbfsSizeError>(HugetlbfsSizeError::ZeroSize),
        size != 0 && size > usize::MAX ==> r == Err::<(), HugetlbfsSizeError>(
            HugetlbfsSizeError::TooLargeForAddressSpace,
        ),
        size != 0 && size <= usize::MAX && size > i64::MAX ==> r == Err::<(), HugetlbfsSizeError>(
            HugetlbfsSizeError::TooLargeForOffset,
        ),
        0 < size <= usize::MAX && size <= i64::MAX ==> r == Ok::<(), HugetlbfsSizeError>(()),
{
    if size == 0 {
        return Err(HugetlbfsSizeError::ZeroSize);
    }
    if size > usize::MAX as u64 {
        return Err(HugetlbfsSizeError::TooLargeForAddressSpace);
    }
    if size > i64::MAX as u64 {
        return Err(HugetlbfsSizeError::TooLargeForOffset);
    }
    Ok(())
}

/// Checks the huge page size `block_size` of the filesystem against the
/// mapping size: it must be nonzero and no larger than the mapping.
pub fn check_block_size(block_size: u64, size: u64) -> (r: Result<(), HugetlbfsSizeError>)
    ensures
        (block_size == 0 || block_size > size) ==> r == Err::<(), HugetlbfsSizeError>(
            HugetlbfsSizeError::InvalidBlockSize,
        ),
        (0 < block_size <= size) ==> r == Ok::<(), HugetlbfsSizeError>(()),
{
    if block_size == 0 || block_size > size {
        return Err(HugetlbfsSizeError::InvalidBlockSize);
    }
    Ok(())
}

} // verus!
