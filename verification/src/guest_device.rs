//! Definitions of the CCA guest attestation device.
use vstd::prelude::*;

verus! {

/// Ioctl type defined by Linux for the CCA guest device ('T').
pub const CCA_CMD_GET_REPORT0_IOC_TYPE: u8 = 0x54;

/// Size of the CCA attestation report.
pub const CCA_REPORT_SIZE: usize = 0x400;

} // verus!
