//! The plane_run structure shared with the RMM by RSI_PLANE_ENTER: what the
//! lower plane is entered with, and what it exits with.
#![allow(non_camel_case_types)]
use vstd::prelude::*;

verus! {

/// Number of general purpose registers X0..X30 in a plane_run structure.
pub const PLANE_GPR_COUNT: usize = 31;

/// Number of GICv3 list registers in a plane_run structure.
pub const PLANE_GIC_LR_COUNT: usize = 16;

/// A sequence of `n` zeros.
pub open spec fn zeros(n: nat) -> Seq<u64> {
    Seq::new(n, |i: int| 0u64)
}

/// State that the lower plane is entered with.
#[derive(Clone, Copy, Debug)]
pub struct cca_rsi_plane_entry {
    /// Entry flags.
    pub flags: u64,
    /// Program counter.
    pub pc: u64,
    /// General purpose registers X0..X30.
    pub gprs: [u64; 31],
    /// GICv3 hypervisor control register.
    pub gicv3_hcr: u64,
    /// GICv3 list registers.
    pub gicv3_lrs: [u64; 16],
}

/// State that the lower plane exits with.
#[derive(Clone, Copy, Debug)]
pub struct cca_rsi_plane_exit {
    /// Why the plane exited.
    pub exit_reason: u64,
    /// Exception syndrome.
    pub esr_el2: u64,
    /// Fault address.
    pub far_el2: u64,
    /// Fault IPA page (bits 4 and up hold IPA bits 12 and up).
    pub hpfar_el2: u64,
    /// General purpose registers X0..X30.
    pub gprs: [u64; 31],
    /// GICv3 hypervisor control register.
    pub gicv3_hcr: u64,
    /// GICv3 list registers.
    pub gicv3_lrs: [u64; 16],
}

/// The shared plane_run structure.
#[derive(Clone, Copy, Debug)]
pub struct cca_rsi_plane_run {
    /// Entry state, written before RSI_PLANE_ENTER.
    pub entry: cca_rsi_plane_entry,
    /// Exit state, written by the RMM.
    pub exit: cca_rsi_plane_exit,
}

/// Exit reasons of a plane exit.
#[derive(Clone, Copy, Debug, PartialEq, Eq, Structural)]
pub enum cca_rsi_plane_exit_reason {
    /// Synchronous exception (0).
    SYNC,
    /// IRQ (1).
    IRQ,
    /// FIQ (2).
    FIQ,
    /// Any other reason.
    Other(u64),
}

/// The exit reason that the number `v` stands for.
pub open spec fn exit_reason_of(v: u64) -> cca_rsi_plane_exit_reason {
    if v == 0 {
        cca_rsi_plane_exit_reason::SYNC
    } else if v == 1 {
        cca_rsi_plane_exit_reason::IRQ
    } else if v == 2 {
        cca_rsi_plane_exit_reason::FIQ
    } else {
        cca_rsi_plane_exit_reason::Other(v)
    }
}

impl cca_rsi_plane_exit {
    /// Why the plane exited.
    pub fn reason(&self) -> (r: cca_rsi_plane_exit_reason)
        ensures
            r == exit_reason_of(self.exit_reason),
    {
        let v = self.exit_reason;
        if v == 0 {
            cca_rsi_plane_exit_reason::SYNC
        } else if v == 1 {
            cca_rsi_plane_exit_reason::IRQ
        } else if v == 2 {
            cca_rsi_plane_exit_reason::FIQ
        } else {
            cca_rsi_plane_exit_reason::Other(v)
        }
    }
}

/// Whether every field of `e` is zero.
pub open spec fn entry_is_zero(e: cca_rsi_plane_entry) -> bool {
    &&& e.flags == 0
    &&& e.pc == 0
    &&& e.gprs@ == zeros(31)
    &&& e.gicv3_hcr == 0
    &&& e.gicv3_lrs@ == zeros(16)
}

/// Whether every field of `x` is zero.
pub open spec fn exit_is_zero(x: cca_rsi_plane_exit) -> bool {
    &&& x.exit_reason == 0
    &&& x.esr_el2 == 0
    &&& x.far_el2 == 0
    &&& x.hpfar_el2 == 0
    &&& x.gprs@ == zeros(31)
    &&& x.gicv3_hcr == 0
    &&& x.gicv3_lrs@ == zeros(16)
}

impl Default for cca_rsi_plane_entry {
    fn default() -> (r: Self)
        ensures
            entry_is_zero(r),
    {
        let r = cca_rsi_plane_entry {
            flags: 0,
            pc: 0,
            gprs: [0u64; 31],
            gicv3_hcr: 0,
            gicv3_lrs: [0u64; 16],
        };
        assert(r.gprs@ =~= zeros(31));
        assert(r.gicv3_lrs@ =~= zeros(16));
        r
    }
}

impl Default for cca_rsi_plane_exit {
    fn default() -> (r: Self)
        ensures
            exit_is_zero(r),
    {
        let r = cca_rsi_plane_exit {
            exit_reason: 0,
            esr_el2: 0,
            far_el2: 0,
            hpfar_el2: 0,
            gprs: [0u64; 31],
            gicv3_hcr: 0,
            gicv3_lrs: [0u64; 16],
        };
        assert(r.gprs@ =~= zeros(31));
        assert(r.gicv3_lrs@ =~= zeros(16));
        r
    }
}

impl Default for cca_rsi_plane_run {
    fn default() -> (r: Self)
        ensures
            entry_is_zero(r.entry),
            exit_is_zero(r.exit),
    {
        cca_rsi_plane_run { entry: cca_rsi_plane_entry::default(), exit: cca_rsi_plane_exit::default() }
    }
}

} // verus!
