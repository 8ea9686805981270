use cca_rsi::tmk::{tmk_load_address, x86_boot_plan};
use cca_rsi::guest_device::{CCA_CMD_GET_REPORT0_IOC_TYPE, CCA_REPORT_SIZE};
use cca_rsi::pagemap::{
    check_block_size, check_mapping_size, pagemap_entry_pfn, pagemap_offset,
    HugetlbfsSizeError, PagemapError, PFN_MASK,
};

#[test]
fn pagemap_offset_is_page_number_times_entry_size() {
    assert_eq!(pagemap_offset(0x5000, 0x1000), Ok(0x28));
    assert_eq!(pagemap_offset(0x5fff, 0x1000), Ok(0x28));
    assert_eq!(pagemap_offset(0x5000, 0), Err(PagemapError::PageSizeUnknown));
}

#[test]
fn pagemap_entry_gives_frame_number() {
    let entry = (1u64 << 63) | (1 << 60) | 0x1234;
    assert_eq!(pagemap_entry_pfn(entry), Ok(0x1234));
    assert_eq!(pagemap_entry_pfn((1u64 << 63) | 1), Ok(1));
    assert_eq!(pagemap_entry_pfn(0x1234), Err(PagemapError::NotPresent));
    assert_eq!(pagemap_entry_pfn((1u64 << 63) | (0xff << 55)), Ok(0));
    assert_eq!(PFN_MASK, (1 << 55) - 1);
}

#[test]
fn hugetlbfs_size_checks() {
    assert_eq!(check_mapping_size(0), Err(HugetlbfsSizeError::ZeroSize));
    assert_eq!(check_mapping_size(1 << 63), Err(HugetlbfsSizeError::TooLargeForOffset));
    assert_eq!(check_mapping_size(0x20_0000), Ok(()));
    assert_eq!(check_block_size(0, 10), Err(HugetlbfsSizeError::InvalidBlockSize));
    assert_eq!(check_block_size(11, 10), Err(HugetlbfsSizeError::InvalidBlockSize));
    assert_eq!(check_block_size(10, 10), Ok(()));
}

#[test]
fn guest_device_constants() {
    assert_eq!(CCA_CMD_GET_REPORT0_IOC_TYPE, b'T');
    assert_eq!(CCA_REPORT_SIZE, 0x400);
}

#[test]
fn tmk_load_address_defaults() {
    assert_eq!(tmk_load_address(None), 0x9800_0000);
    assert_eq!(tmk_load_address(Some(0x4000)), 0x4000);
}

#[test]
fn x86_boot_plan_places_gdt_after_page_tables() {
    let plan = x86_boot_plan(0x20_0000, 0x6000, 0x9800_1000);
    assert_eq!(plan.page_table_page, 0x200);
    assert_eq!(plan.page_table_page_count, 6);
    assert_eq!(plan.gdt_page, 0x206);
    assert_eq!(plan.cr0, 0x8000_0001);
    assert_eq!(plan.cr3, 0x20_0000);
    assert_eq!(plan.cr4, 0x20);
    assert_eq!(plan.efer, 0xd01);
    assert_eq!(plan.rip, 0x9800_1000);
}
