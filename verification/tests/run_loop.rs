use cca_rsi::protocol::{cca_rsi_plane_entry, cca_rsi_plane_exit, cca_rsi_plane_exit_reason, cca_rsi_plane_run};
use cca_rsi::run_loop::{CcaRunLoop, CcaRunLoopError, DispatchExit, PlaneEnterBackend, SyncExit};
use cca_rsi::vp_state::CcaVpState;

struct ScriptedBackend {
    exit_reason: u64,
    fail: bool,
    seen_flags: Vec<u64>,
}

impl PlaneEnterBackend for ScriptedBackend {
    fn plane_enter(&mut self, run: &mut cca_rsi_plane_run) -> Result<(), CcaRunLoopError> {
        self.seen_flags.push(run.entry.flags);
        if self.fail {
            return Err(CcaRunLoopError::PlaneEnter);
        }
        run.exit.exit_reason = self.exit_reason;
        run.exit.esr_el2 = 0x9200_0046;
        run.exit.far_el2 = 0x1234;
        run.exit.hpfar_el2 = 0x50;
        Ok(())
    }
}

fn backend(exit_reason: u64) -> ScriptedBackend {
    ScriptedBackend {
        exit_reason,
        fail: false,
        seen_flags: Vec::new(),
    }
}

#[test]
fn sync_exit_reports_syndrome() {
    let mut rl = CcaRunLoop::new(backend(0));
    rl.run_state_mut().entry.flags = 0xff;
    let r = rl.run_once().unwrap();
    assert_eq!(
        r,
        DispatchExit::Sync(SyncExit {
            esr_el2: 0x9200_0046,
            far_el2: 0x1234,
            hpfar_el2: 0x50,
        })
    );
    assert_eq!(rl.run_state().entry.flags, 0);
}

#[test]
fn irq_and_fiq_exits() {
    assert_eq!(CcaRunLoop::new(backend(1)).run_once(), Ok(DispatchExit::Irq));
    assert_eq!(CcaRunLoop::new(backend(2)).run_once(), Ok(DispatchExit::Fiq));
}

#[test]
fn unknown_exit_reason_is_an_error() {
    assert_eq!(
        CcaRunLoop::new(backend(0x77)).run_once(),
        Err(CcaRunLoopError::UnexpectedExitReason(0x77))
    );
}

#[test]
fn plane_enter_failure_is_returned() {
    let mut b = backend(0);
    b.fail = true;
    let mut rl = CcaRunLoop::new(b);
    assert_eq!(rl.run_once(), Err(CcaRunLoopError::PlaneEnter));
}

#[test]
fn new_run_structure_is_zeroed() {
    let rl = CcaRunLoop::new(backend(0));
    let run = rl.run_state();
    assert_eq!(run.entry.pc, 0);
    assert_eq!(run.entry.gprs, [0; 31]);
    assert_eq!(run.exit.exit_reason, 0);
    assert_eq!(run.exit.reason(), cca_rsi_plane_exit_reason::SYNC);
}

fn entry_with(pc: u64, fill: u64) -> cca_rsi_plane_entry {
    cca_rsi_plane_entry {
        flags: 3,
        pc,
        gprs: [fill; 31],
        gicv3_hcr: fill + 1,
        gicv3_lrs: [fill + 2; 16],
    }
}

#[test]
fn vp_state_restores_captured_entry() {
    let mut state = CcaVpState::default();
    let mut target = entry_with(0x500, 1);
    assert_eq!(state.restore_for_entry(&mut target), Ok(()));
    assert_eq!(target.pc, 0x500);
    assert_eq!(target.gprs, [1; 31]);

    let saved = entry_with(0x8000, 7);
    assert_eq!(state.capture_from_entry(&saved), Ok(()));
    let mut next = entry_with(0x10, 0);
    assert_eq!(state.restore_for_entry(&mut next), Ok(()));
    assert_eq!(next.pc, 0x8000);
    assert_eq!(next.gprs, [7; 31]);
    assert_eq!(next.gicv3_hcr, 8);
    assert_eq!(next.gicv3_lrs, [9; 16]);
    assert_eq!(next.flags, 3);
}

#[test]
fn vp_state_refuses_unaligned_pc() {
    let mut state = CcaVpState::default();
    assert_eq!(
        state.capture_from_entry(&entry_with(0x8001, 7)),
        Err(CcaRunLoopError::InvalidState("unaligned entry PC"))
    );
    let mut target = entry_with(0x500, 1);
    assert_eq!(state.restore_for_entry(&mut target), Ok(()));
    assert_eq!(target.gprs, [1; 31]);
}

#[test]
fn vp_state_capture_from_exit_keeps_pc() {
    let mut state = CcaVpState::default();
    state.capture_from_entry(&entry_with(0x2000, 1)).unwrap();
    let mut exit = cca_rsi_plane_exit::default();
    exit.gprs = [5; 31];
    exit.gicv3_hcr = 6;
    exit.gicv3_lrs = [8; 16];
    state.capture_from_exit(&exit);
    let mut next = entry_with(0, 0);
    assert_eq!(state.restore_for_entry(&mut next), Ok(()));
    assert_eq!(next.pc, 0x2000);
    assert_eq!(next.gprs, [5; 31]);
    assert_eq!(next.gicv3_hcr, 6);
    assert_eq!(next.gicv3_lrs, [8; 16]);
}

#[test]
fn exit_capture_before_any_pc_restores_zero_pc() {
    let mut state = CcaVpState::default();
    let mut exit = cca_rsi_plane_exit::default();
    exit.gprs = [2; 31];
    state.capture_from_exit(&exit);
    let mut next = entry_with(0x44, 0);
    assert_eq!(state.restore_for_entry(&mut next), Ok(()));
    assert_eq!(next.pc, 0);
    assert_eq!(next.gprs, [2; 31]);
}

#[test]
fn restore_is_accepted_after_any_captures() {
    let mut state = CcaVpState::default();
    let _ = state.capture_from_entry(&entry_with(0x3001, 1));
    state.capture_from_exit(&cca_rsi_plane_exit::default());
    let _ = state.capture_from_entry(&entry_with(0x4000, 2));
    let _ = state.capture_from_entry(&entry_with(0x5005, 3));
    let copy = state.clone();
    let mut next = entry_with(0, 0);
    assert_eq!(copy.restore_for_entry(&mut next), Ok(()));
    assert_eq!(next.pc, 0x4000);
}
