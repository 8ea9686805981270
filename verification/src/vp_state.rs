//! VP state that persists across plane transitions.
use vstd::prelude::*;
use crate::protocol::{cca_rsi_plane_entry, cca_rsi_plane_exit, zeros};
use crate::run_loop::CcaRunLoopError;

verus! {

/// The message of the error for an entry PC that is not
/// instruction-aligned.
pub open spec fn unaligned_pc_message() -> &'static str {
    "unaligned entry PC"
}

/// Whether the lower-plane PC `pc` is instruction-aligned (bit 0 clear).
pub open spec fn pc_is_aligned(pc: u64) -> bool {
    pc & 1 == 0
}

/// The verdict on an entry whose PC is `pc`: accepted where the PC is
/// aligned, else an `InvalidState` error.
pub open spec fn entry_verdict(pc: u64) -> Result<(), CcaRunLoopError> {
    if pc_is_aligned(pc) {
        Ok(())
    } else {
        Err(CcaRunLoopError::InvalidState(unaligned_pc_message()))
    }
}

/// Contents of a `CcaVpState`.
pub struct VpStateView {
    /// Whether any state has been captured.
    pub initialized: bool,
    /// Saved program counter.
    pub pc: u64,
    /// Saved general purpose registers X0..X30.
    pub gprs: Seq<u64>,
    /// Saved GICv3 hypervisor control register.
    pub gicv3_hcr: u64,
    /// Saved GICv3 list registers.
    pub gicv3_lrs: Seq<u64>,
}

/// Whether `after` is `before` once the saved state `s` is restored into
/// it: unchanged where nothing was captured, else with the saved PC,
/// registers and GIC state, and `before`'s flags.
pub open spec fn restored_into(
    s: VpStateView,
    before: cca_rsi_plane_entry,
    after: cca_rsi_plane_entry,
) -> bool {
    if !s.initialized {
        after == before
    } else {
        &&& after.flags == before.flags
        &&& after.pc == s.pc
        &&& after.gprs@ == s.gprs
        &&& after.gicv3_hcr == s.gicv3_hcr
        &&& after.gicv3_lrs@ == s.gicv3_lrs
    }
}

/// The state after capturing the exit state `x` into `s`: registers and
/// GIC state from the exit, the saved PC kept.
pub open spec fn captured_exit(s: VpStateView, x: cca_rsi_plane_exit) -> VpStateView {
    VpStateView {
        initialized: true,
        pc: s.pc,
        gprs: x.gprs@,
        gicv3_hcr: x.gicv3_hcr,
        gicv3_lrs: x.gicv3_lrs@,
    }
}

/// The state after capturing the accepted entry `e`: everything from the
/// entry.
pub open spec fn captured_entry(e: cca_rsi_plane_entry) -> VpStateView {
    VpStateView {
        initialized: true,
        pc: e.pc,
        gprs: e.gprs@,
        gicv3_hcr: e.gicv3_hcr,
        gicv3_lrs: e.gicv3_lrs@,
    }
}

/// Minimal CCA VP state persisted across plane transitions.
#[derive(Debug)]
pub struct CcaVpState {
    initialized: bool,
    pc: u64,
    gprs: [u64; 31],
    gicv3_hcr: u64,
    gicv3_lrs: [u64; 16],
}

impl CcaVpState {
    /// The saved PC is always instruction-aligned: the default state saves
    /// PC 0, an exit capture keeps the saved PC, and an entry capture saves
    /// only a PC that it accepted.
    #[verifier::type_invariant]
    spec fn saved_pc_aligned(self) -> bool {
        pc_is_aligned(self.pc)
    }
}

impl Clone for CcaVpState {
    /// A copy with the same contents.
    fn clone(&self) -> (r: Self)
        ensures
            r@ == self@,
    {
        proof {
            use_type_invariant(self);
        }
        CcaVpState {
            initialized: self.initialized,
            pc: self.pc,
            gprs: self.gprs,
            gicv3_hcr: self.gicv3_hcr,
            gicv3_lrs: self.gicv3_lrs,
        }
    }
}

impl View for CcaVpState {
    type V = VpStateView;

    closed spec fn view(&self) -> VpStateView {
        VpStateView {
            initialized: self.initialized,
            pc: self.pc,
            gprs: self.gprs@,
            gicv3_hcr: self.gicv3_hcr,
            gicv3_lrs: self.gicv3_lrs@,
        }
    }
}

impl Default for CcaVpState {
    /// A state with nothing captured and every register zero.
    fn default() -> (r: Self)
        ensures
            !r@.initialized,
            r@.pc == 0,
            r@.gprs == zeros(31),
            r@.gicv3_hcr == 0,
            r@.gicv3_lrs == zeros(16),
    {
        assert(0u64 & 1 == 0) by (bit_vector);
        let r = CcaVpState {
            initialized: false,
            pc: 0,
            gprs: [0u64; 31],
            gicv3_hcr: 0,
            gicv3_lrs: [0u64; 16],
        };
        assert(r.gprs@ =~= zeros(31));
        assert(r.gicv3_lrs@ =~= zeros(16));
        r
    }
}

impl CcaVpState {
    /// Restores the persisted state into the next plane entry payload, then
    /// checks the entry. Where nothing has been captured yet, the entry is
    /// left alone. The saved PC is always aligned, so the restored entry is
    /// always accepted.
    pub fn restore_for_entry(&self, entry: &mut cca_rsi_plane_entry) -> (r: Result<
        (),
        CcaRunLoopError,
    >)
        ensures
            restored_into(self@, *old(entry), *final(entry)),
            pc_is_aligned(self@.pc),
            r == Ok::<(), CcaRunLoopError>(()),
    {
        proof {
            use_type_invariant(self);
        }
        if !self.initialized {
            return Ok(());
        }
        entry.pc = self.pc;
        entry.gprs = self.gprs;
        entry.gicv3_hcr = self.gicv3_hcr;
        entry.gicv3_lrs = self.gicv3_lrs;
        self.validate_entry(entry)
    }

    /// Captures guest register and GIC state from a plane exit.
    pub fn capture_from_exit(&mut self, exit: &cca_rsi_plane_exit)
        ensures
            final(self)@ == captured_exit(old(self)@, *exit),
            pc_is_aligned(final(self)@.pc),
    {
        proof {
            use_type_invariant(&*self);
        }
        self.gprs = exit.gprs;
        self.gicv3_hcr = exit.gicv3_hcr;
        self.gicv3_lrs = exit.gicv3_lrs;
        self.initialized = true;
    }

    /// Captures the next-entry state after exit dispatch handling. An entry
    /// whose PC is not instruction-aligned is refused and nothing changes.
    pub fn capture_from_entry(&mut self, entry: &cca_rsi_plane_entry) -> (r: Result<
        (),
        CcaRunLoopError,
    >)
        ensures
            r == entry_verdict(entry.pc),
            r is Ok ==> final(self)@ == captured_entry(*entry),
            r is Err ==> final(self)@ == old(self)@,
            pc_is_aligned(final(self)@.pc),
    {
        proof {
            use_type_invariant(&*self);
        }
        match self.validate_entry(entry) {
            Err(e) => return Err(e),
            Ok(()) => {},
        }
        self.pc = entry.pc;
        self.gprs = entry.gprs;
        self.gicv3_hcr = entry.gicv3_hcr;
        self.gicv3_lrs = entry.gicv3_lrs;
        self.initialized = true;
        Ok(())
    }

    /// Checks an entry: the lower-plane PC must stay instruction-aligned.
    fn validate_entry(&self, entry: &cca_rsi_plane_entry) -> (r: Result<(), CcaRunLoopError>)
        ensures
            r == entry_verdict(entry.pc),
    {
        if (entry.pc & 1) != 0 {
            return Err(CcaRunLoopError::InvalidState("unaligned entry PC"));
        }
        Ok(())
    }
}

/// An accepted entry that is captured and then restored into any entry
/// payload comes back whole: the same PC, registers and GIC state, the
/// payload's own flags, and the restore accepts it.
pub proof fn lemma_entry_capture_restore(
    e: cca_rsi_plane_entry,
    before: cca_rsi_plane_entry,
    after: cca_rsi_plane_entry,
)
    requires
        entry_verdict(e.pc) is Ok,
        restored_into(captured_entry(e), before, after),
    ensures
        after.pc == e.pc,
        after.gprs == e.gprs,
        after.gicv3_hcr == e.gicv3_hcr,
        after.gicv3_lrs == e.gicv3_lrs,
        after.flags == before.flags,
        entry_verdict(captured_entry(e).pc) is Ok,
{
    assert(after.gprs@ =~= e.gprs@);
    assert(after.gicv3_lrs@ =~= e.gicv3_lrs@);
    assert(after.gprs =~= e.gprs);
    assert(after.gicv3_lrs =~= e.gicv3_lrs);
}

/// Capturing an exit keeps the saved PC and takes the exit's registers and
/// GIC state: restoring afterwards puts the exit's registers into the entry
/// at the PC that was saved before.
pub proof fn lemma_exit_capture_restore(
    s: VpStateView,
    x: cca_rsi_plane_exit,
    before: cca_rsi_plane_entry,
    after: cca_rsi_plane_entry,
)
    requires
        restored_into(captured_exit(s, x), before, after),
    ensures
        after.pc == s.pc,
        after.gprs == x.gprs,
        after.gicv3_hcr == x.gicv3_hcr,
        after.gicv3_lrs == x.gicv3_lrs,
        after.flags == before.flags,
{
    assert(after.gprs =~= x.gprs);
    assert(after.gicv3_lrs =~= x.gicv3_lrs);
}

/// An entry is refused exactly when bit 0 of its PC is set.
pub proof fn lemma_refusal_is_unaligned_pc(pc: u64)
    ensures
        entry_verdict(pc) is Err <==> pc & 1 == 1,
{
    assert(pc & 1 == 0 || pc & 1 == 1) by (bit_vector);
}

/// Each step that can change the saved state keeps its PC aligned: an exit
/// capture keeps the saved PC, an accepted entry capture saves an aligned
/// PC, and a refused one changes nothing. So from the default state, after
/// any sequence of captures, the saved PC is aligned and a restore is
/// accepted.
pub proof fn lemma_saved_pc_stays_aligned(s: VpStateView, x: cca_rsi_plane_exit, e: cca_rsi_plane_entry)
    ensures
        pc_is_aligned(0),
        pc_is_aligned(s.pc) ==> pc_is_aligned(captured_exit(s, x).pc),
        entry_verdict(e.pc) is Ok ==> pc_is_aligned(captured_entry(e).pc),
        pc_is_aligned(s.pc) ==> entry_verdict(s.pc) is Ok,
{
    assert(0u64 & 1 == 0) by (bit_vector);
}

} // verus!
