//! ARM CCA Realm Service Interface (RSI), with verified contracts.
//!
//! The RSI is the interface through which Realm software talks to the
//! Realm Management Monitor (RMM). High-level operations such as
//! `rsi_version` and `rsi_realm_config` are built on the `RsiClient` trait,
//! which kernel-backed and mock clients implement.
//!
//! | Command                  | Full SMC ID   | Function number |
//! |--------------------------|---------------|-----------------|
//! | `RSI_VERSION`            | `0xC400_0190` | `0x190`         |
//! | `RSI_FEATURES`           | `0xC400_0191` | `0x191`         |
//! | `RSI_REALM_CONFIG`       | `0xC400_0196` | `0x196`         |
//! | `RSI_IPA_STATE_SET`      | `0xC400_0197` | `0x197`         |
//! | `RSI_IPA_STATE_GET`      | `0xC400_0198` | `0x198`         |
//! | `RSI_HOST_CALL`          | `0xC400_0199` | `0x199`         |
//! | `RSI_MEM_GET_PERM_VALUE` | `0xC400_01A0` | `0x1A0`         |
//! | `RSI_MEM_SET_PERM_INDEX` | `0xC400_01A1` | `0x1A1`         |
//! | `RSI_MEM_SET_PERM_VALUE` | `0xC400_01A2` | `0x1A2`         |
//! | `RSI_PLANE_ENTER`        | `0xC400_01A3` | `0x1A3`         |
//! | `RSI_PLANE_SYSREG_READ`  | `0xC400_01AE` | `0x1AE`         |
//! | `RSI_PLANE_SYSREG_WRITE` | `0xC400_01AF` | `0x1AF`         |
//!
//! Besides the RSI itself the crate holds the MSHV ioctl client
//! (`hcl_cca`), the lower-plane run loop (`protocol`, `run_loop`,
//! `vp_state`, `exceptions`), and the memory and boot arithmetic of the
//! test VMM (`pagemap`, `tmk`).
pub mod abi;
pub mod client;
pub mod exceptions;
pub mod guest_device;
pub mod hcl_cca;
pub mod ops;
pub mod pagemap;
pub mod protocol;
pub mod run_loop;
pub mod smc;
pub mod tmk;
pub mod vp_state;

pub use abi::{HashAlgorithm, IpaState, RealmConfig, RsiError, RsiInput, RsiOutput, RsiReturnCode};
pub use client::RsiClient;
pub use ops::{
    rsi_features, rsi_host_call, rsi_ipa_state_get, rsi_ipa_state_set, rsi_mem_get_perm_value,
    rsi_mem_set_perm_index, rsi_mem_set_perm_value, rsi_plane_enter, rsi_plane_sysreg_read,
    rsi_plane_sysreg_write, rsi_realm_config, rsi_version,
};
pub use smc::{RsiCommand, SmcFunctionId};
