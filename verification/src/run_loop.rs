//! ARM CCA processor run loop: `prepare_entry -> plane_enter -> dispatch_exit`.
use vstd::prelude::*;
use crate::protocol::{
    cca_rsi_plane_exit, cca_rsi_plane_exit_reason, cca_rsi_plane_run, entry_is_zero, exit_is_zero,
    exit_reason_of,
};

verus! {

/// Errors of the CCA run loop.
#[derive(Clone, Copy, Debug, PartialEq, Eq)]
pub enum CcaRunLoopError {
    /// Plane entry failed.
    PlaneEnter,
    /// The exit reason of a plane entry was not recognized.
    UnexpectedExitReason(u64),
    /// Saved or restored VP state is not valid.
    InvalidState(&'static str),
    /// A data abort reported an access size that MMIO emulation does not
    /// handle.
    UnsupportedMmioAccessSize(u8),
    /// The exception syndrome is not a valid data abort syndrome.
    InvalidDataAbortSyndrome,
}

/// Enters the lower plane.
pub trait PlaneEnterBackend {
    /// What an implementation promises of one plane entry that starts from
    /// `before`, leaves `after`, and reports `result`. By default it
    /// promises nothing.
    open spec fn enters(
        &self,
        before: cca_rsi_plane_run,
        after: cca_rsi_plane_run,
        result: Result<(), CcaRunLoopError>,
    ) -> bool {
        true
    }

    /// Performs one plane entry and updates `run.exit` on return.
    fn plane_enter(&mut self, run: &mut cca_rsi_plane_run) -> (result: Result<(), CcaRunLoopError>)
        ensures
            old(self).enters(*old(run), *final(run), result),
    ;
}

/// Result of dispatching a CCA plane exit.
#[derive(Clone, Copy, Debug, PartialEq, Eq, Structural)]
pub enum DispatchExit {
    /// Synchronous exit that exception dispatch must handle.
    Sync(SyncExit),
    /// IRQ exit.
    Irq,
    /// FIQ exit.
    Fiq,
}

/// Syndrome registers of a synchronous exit.
#[derive(Clone, Copy, Debug, PartialEq, Eq, Structural)]
pub struct SyncExit {
    /// Exception syndrome.
    pub esr_el2: u64,
    /// Fault address.
    pub far_el2: u64,
    /// Fault IPA page.
    pub hpfar_el2: u64,
}

/// What dispatching the exit state `x` gives: the syndrome of a
/// synchronous exit, IRQ, FIQ, or an error for any other exit reason.
pub open spec fn dispatch_outcome(x: cca_rsi_plane_exit) -> Result<DispatchExit, CcaRunLoopError> {
    match exit_reason_of(x.exit_reason) {
        cca_rsi_plane_exit_reason::SYNC => Ok(
            DispatchExit::Sync(
                SyncExit { esr_el2: x.esr_el2, far_el2: x.far_el2, hpfar_el2: x.hpfar_el2 },
            ),
        ),
        cca_rsi_plane_exit_reason::IRQ => Ok(DispatchExit::Irq),
        cca_rsi_plane_exit_reason::FIQ => Ok(DispatchExit::Fiq),
        cca_rsi_plane_exit_reason::Other(_) => Err(
            CcaRunLoopError::UnexpectedExitReason(x.exit_reason),
        ),
    }
}

/// `run` made ready for entry: its entry flags cleared.
pub open spec fn prepared(run: cca_rsi_plane_run) -> cca_rsi_plane_run {
    cca_rsi_plane_run { entry: crate::protocol::cca_rsi_plane_entry { flags: 0, ..run.entry }, ..run }
}

/// CCA run-loop state.
pub struct CcaRunLoop<B: PlaneEnterBackend> {
    backend: B,
    run: cca_rsi_plane_run,
}

impl<B: PlaneEnterBackend> CcaRunLoop<B> {
    /// The shared run structure.
    pub closed spec fn run_view(&self) -> cca_rsi_plane_run {
        self.run
    }

    /// The backend that enters the plane.
    pub closed spec fn backend_view(&self) -> B {
        self.backend
    }

    /// Creates a run loop over `backend`, with a zeroed run structure.
    pub fn new(backend: B) -> (r: Self)
        ensures
            r.backend_view() == backend,
            entry_is_zero(r.run_view().entry),
            exit_is_zero(r.run_view().exit),
    {
        CcaRunLoop { backend, run: cca_rsi_plane_run::default() }
    }

    /// Executes one iteration: prepares the entry, enters the plane, and
    /// dispatches the exit. A failed plane entry is returned as is; after a
    /// successful one the result is the dispatch of the exit state that the
    /// backend left.
    pub fn run_once(&mut self) -> (r: Result<DispatchExit, CcaRunLoopError>)
        ensures
            exists|result: Result<(), CcaRunLoopError>|
                {
                    &&& #[trigger] old(self).backend_view().enters(
                        prepared(old(self).run_view()),
                        final(self).run_view(),
                        result,
                    )
                    &&& r == match result {
                        Err(e) => Err(e),
                        Ok(()) => dispatch_outcome(final(self).run_view().exit),
                    }
                },
    {
        self.prepare_entry();
        let ghost before = self.run;
        let entered = self.plane_enter();
        assert(old(self).backend_view().enters(before, self.run, entered));
        match entered {
            Err(e) => Err(e),
            Ok(()) => self.dispatch_exit(),
        }
    }

    /// Mutable access to the shared run structure.
    pub fn run_state_mut(&mut self) -> (r: &mut cca_rsi_plane_run)
        ensures
            *r == old(self).run_view(),
            final(self).run_view() == *final(r),
            final(self).backend_view() == old(self).backend_view(),
    {
        &mut self.run
    }

    /// Immutable access to the shared run structure.
    pub fn run_state(&self) -> (r: &cca_rsi_plane_run)
        ensures
            *r == self.run_view(),
    {
        &self.run
    }

    /// Clears the entry flags.
    fn prepare_entry(&mut self)
        ensures
            final(self).run_view() == prepared(old(self).run_view()),
            final(self).run_view().entry.flags == 0,
            final(self).run_view().entry.pc == old(self).run_view().entry.pc,
            final(self).run_view().entry.gprs == old(self).run_view().entry.gprs,
            final(self).run_view().entry.gicv3_hcr == old(self).run_view().entry.gicv3_hcr,
            final(self).run_view().entry.gicv3_lrs == old(self).run_view().entry.gicv3_lrs,
            final(self).run_view().exit == old(self).run_view().exit,
            final(self).backend_view() == old(self).backend_view(),
    {
        self.run.entry.flags = 0;
    }

    /// Enters the plane through the backend.
    fn plane_enter(&mut self) -> (r: Result<(), CcaRunLoopError>)
        ensures
            old(self).backend_view().enters(old(self).run_view(), final(self).run_view(), r),
    {
        self.backend.plane_enter(&mut self.run)
    }

    /// Dispatches the exit state of the run structure.
    fn dispatch_exit(&self) -> (r: Result<DispatchExit, CcaRunLoopError>)
        ensures
            r == dispatch_outcome(self.run_view().exit),
    {
        match self.run.exit.reason() {
            cca_rsi_plane_exit_reason::SYNC => Ok(
                DispatchExit::Sync(
                    SyncExit {
                        esr_el2: self.run.exit.esr_el2,
                        far_el2: self.run.exit.far_el2,
                        hpfar_el2: self.run.exit.hpfar_el2,
                    },
                ),
            ),
            cca_rsi_plane_exit_reason::IRQ => Ok(DispatchExit::Irq),
            cca_rsi_plane_exit_reason::FIQ => Ok(DispatchExit::Fiq),
            cca_rsi_plane_exit_reason::Other(_) => Err(
                CcaRunLoopError::UnexpectedExitReason(self.run.exit.exit_reason),
            ),
        }
    }
}


/// Preparing an entry clears its flags and nothing else: the PC, the
/// registers, the GIC state and the whole exit state are handed to the
/// backend as they were.
pub proof fn lemma_prepared_changes_only_flags(run: cca_rsi_plane_run)
    ensures
        prepared(run).entry.flags == 0,
        prepared(run).entry.pc == run.entry.pc,
        prepared(run).entry.gprs == run.entry.gprs,
        prepared(run).entry.gicv3_hcr == run.entry.gicv3_hcr,
        prepared(run).entry.gicv3_lrs == run.entry.gicv3_lrs,
        prepared(run).exit == run.exit,
        run.entry.flags == 0 ==> prepared(run) == run,
{
}

/// Dispatch by exit reason number: 0 is a synchronous exit that carries the
/// exit's own ESR, FAR and HPFAR; 1 is IRQ; 2 is FIQ; every other number is
/// refused with that number.
pub proof fn lemma_dispatch_by_reason(x: cca_rsi_plane_exit)
    ensures
        x.exit_reason == 0 ==> (dispatch_outcome(x) matches Ok(DispatchExit::Sync(s)) && s.esr_el2
            == x.esr_el2 && s.far_el2 == x.far_el2 && s.hpfar_el2 == x.hpfar_el2),
        x.exit_reason == 1 ==> dispatch_outcome(x) == Ok::<DispatchExit, CcaRunLoopError>(
            DispatchExit::Irq,
        ),
        x.exit_reason == 2 ==> dispatch_outcome(x) == Ok::<DispatchExit, CcaRunLoopError>(
            DispatchExit::Fiq,
        ),
        x.exit_reason > 2 ==> dispatch_outcome(x) == Err::<DispatchExit, CcaRunLoopError>(
            CcaRunLoopError::UnexpectedExitReason(x.exit_reason),
        ),
{
}

} // verus!
