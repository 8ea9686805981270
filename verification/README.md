# cca_rsi

The ARM CCA Realm Service Interface as seen from a realm, with contracts
proved by Verus.

- `src/smc.rs`: SMCCC function identifiers and the RSI command set.
- `src/abi.rs`: return codes, the register images of a call, errors, realm
  configuration.
- `src/client.rs`, `src/ops.rs`: the `RsiClient` trait and the high-level
  RSI operations, each split into argument checks, one call, and a public
  decoder of the reply.
- `src/hcl_cca.rs`: the client that forwards calls through the MSHV ioctl.
- `src/protocol.rs`, `src/run_loop.rs`, `src/vp_state.rs`,
  `src/exceptions.rs`: the lower-plane run loop, the VP state it keeps, and
  MMIO emulation of data aborts.
- `src/pagemap.rs`, `src/tmk.rs`, `src/guest_device.rs`: memory and boot
  arithmetic of the test VMM, and guest device constants.
- `app/`: the ioctl itself, hugetlbfs mapping and pagemap reading, and the
  error types that derive `thiserror::Error`.

Three functions of the test VMM have no counterpart here: `load_x86`,
`load_aarch64` (with `load_binary`) and `run_paravisor_vmm` (with
`start_vp`). They are plumbing over crates of the original project's own
workspace (`loader`, `vm_loader`, `page_table`, `virt`, `virt_mshv_vtl`,
`underhill_mem`, `openhcl_dma_manager`, `pal_uring`, ...), which this crate
cannot depend on. What they compute stands in `src/`: the load address and
the x86-64 boot registers and page numbers in `tmk.rs`, and the VTOM mask as
`RealmConfig::vtom_mask`.
