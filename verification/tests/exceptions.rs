use cca_rsi::exceptions::{
    access_size_bytes, decode_data_abort, decode_fault_ipa, dispatch_sync_exit, EsrEl2,
    IssDataAbort, MmioBus, SyncExitOutcome,
};
use cca_rsi::protocol::cca_rsi_plane_run;
use cca_rsi::run_loop::CcaRunLoopError;

#[derive(Default)]
struct RecordingBus {
    writes: Vec<(u64, Vec<u8>)>,
    reads: Vec<(u64, usize)>,
    read_data: Vec<u8>,
}

impl MmioBus for RecordingBus {
    fn mmio_write(&mut self, address: u64, data: &[u8]) {
        self.writes.push((address, data.to_vec()));
    }

    fn mmio_read(&mut self, address: u64, data: &mut [u8]) {
        self.reads.push((address, data.len()));
        for (i, b) in data.iter_mut().enumerate() {
            *b = self.read_data[i];
        }
    }
}

fn run_with(esr: u64, far: u64, hpfar: u64) -> cca_rsi_plane_run {
    let mut run = cca_rsi_plane_run::default();
    run.exit.esr_el2 = esr;
    run.exit.far_el2 = far;
    run.exit.hpfar_el2 = hpfar;
    run.entry.pc = 0x1000;
    for i in 0..31 {
        run.exit.gprs[i] = 0x100 + i as u64;
    }
    run
}

#[test]
fn write_abort_stores_low_bytes_of_register() {
    let mut run = run_with(0x9385_0040, 0x1234, 0x50);
    run.exit.gprs[5] = 0x1122_3344_5566_7788;
    let mut bus = RecordingBus::default();
    let r = dispatch_sync_exit(&mut run, &mut bus).unwrap();
    assert_eq!(
        r,
        SyncExitOutcome::DataAbortMmio {
            address: 0x5234,
            size: 4,
            is_write: true,
            register_index: 5,
        }
    );
    assert_eq!(bus.writes, vec![(0x5234, vec![0x88, 0x77, 0x66, 0x55])]);
    assert_eq!(run.entry.pc, 0x1004);
    assert_eq!(run.entry.gprs, run.exit.gprs);
}

#[test]
fn read_abort_loads_register_zero_extended() {
    let mut run = run_with(0x9143_0000, 0x1234, 0);
    let mut bus = RecordingBus {
        read_data: vec![0xcd, 0xab],
        ..Default::default()
    };
    let r = dispatch_sync_exit(&mut run, &mut bus).unwrap();
    assert_eq!(
        r,
        SyncExitOutcome::DataAbortMmio {
            address: 0x1234,
            size: 2,
            is_write: false,
            register_index: 3,
        }
    );
    assert_eq!(bus.reads, vec![(0x1234, 2)]);
    assert_eq!(run.entry.gprs[3], 0xabcd);
    assert_eq!(run.entry.gprs[4], 0x104);
    assert_eq!(run.entry.pc, 0x1002);
}

#[test]
fn zero_register_writes_zero_and_discards_reads() {
    let mut run = run_with(0x939f_0040, 0x10, 0);
    let mut bus = RecordingBus::default();
    dispatch_sync_exit(&mut run, &mut bus).unwrap();
    assert_eq!(bus.writes, vec![(0x10, vec![0, 0, 0, 0])]);

    let mut run = run_with(0x93df_0000, 0x10, 0);
    let mut bus = RecordingBus {
        read_data: vec![1, 2, 3, 4, 5, 6, 7, 8],
        ..Default::default()
    };
    let r = dispatch_sync_exit(&mut run, &mut bus).unwrap();
    assert_eq!(
        r,
        SyncExitOutcome::DataAbortMmio {
            address: 0x10,
            size: 8,
            is_write: false,
            register_index: 31,
        }
    );
    assert_eq!(run.entry.gprs, run.exit.gprs);
}

#[test]
fn other_exception_classes_are_unhandled() {
    let mut run = run_with(0x5800_0000, 0x44, 0x55);
    let before = run;
    let mut bus = RecordingBus::default();
    let r = dispatch_sync_exit(&mut run, &mut bus).unwrap();
    assert_eq!(
        r,
        SyncExitOutcome::Unhandled {
            esr_el2: 0x5800_0000,
            far_el2: 0x44,
            hpfar_el2: 0x55,
        }
    );
    assert_eq!(run.entry.pc, before.entry.pc);
    assert!(bus.writes.is_empty() && bus.reads.is_empty());
}

#[test]
fn data_abort_without_valid_syndrome_is_refused() {
    let mut run = run_with(0x9200_0000, 0, 0);
    let mut bus = RecordingBus::default();
    assert_eq!(
        dispatch_sync_exit(&mut run, &mut bus),
        Err(CcaRunLoopError::InvalidDataAbortSyndrome)
    );
    assert_eq!(run.entry.pc, 0x1000);
    assert_eq!(run.entry.gprs, [0; 31]);
}

#[test]
fn access_sizes() {
    assert_eq!(access_size_bytes(0), Ok(1));
    assert_eq!(access_size_bytes(1), Ok(2));
    assert_eq!(access_size_bytes(2), Ok(4));
    assert_eq!(access_size_bytes(3), Ok(8));
    assert_eq!(
        access_size_bytes(4),
        Err(CcaRunLoopError::UnsupportedMmioAccessSize(4))
    );
}

#[test]
fn fault_ipa_prefers_hpfar_page() {
    assert_eq!(decode_fault_ipa(0xffff_1234, 0x50), 0x5234);
    assert_eq!(decode_fault_ipa(0xffff_1234, 0), 0xffff_1234);
    assert_eq!(decode_fault_ipa(0xabc, 0x0100_0000_0000_0010), 0x1abc);
}

#[test]
fn data_abort_decoding() {
    let (iss, len) = decode_data_abort(0x9385_0040).unwrap();
    assert_eq!(len, 4);
    assert!(iss.isv());
    assert_eq!(iss.sas(), 2);
    assert_eq!(iss.srt(), 5);
    assert!(iss.wnr());
    let (_, len) = decode_data_abort(0x9543_0000).unwrap();
    assert_eq!(len, 2);
    assert_eq!(
        decode_data_abort(0x5800_0000).err(),
        Some(CcaRunLoopError::InvalidDataAbortSyndrome)
    );
    let esr = EsrEl2(0x9385_0040);
    assert_eq!(esr.ec(), 0x24);
    assert!(esr.il());
    assert_eq!(esr.iss(), 0x0185_0040);
    assert!(!IssDataAbort(0).isv());
}

#[test]
fn full_width_store_then_load_round_trips() {
    // Store x1 with an 8-byte write, then load the same bytes into x2.
    let mut run = run_with(0x93c1_0040, 0x2000, 0);
    run.exit.gprs[1] = 0x0102_0304_0506_0708;
    let mut bus = RecordingBus::default();
    dispatch_sync_exit(&mut run, &mut bus).unwrap();
    let stored = bus.writes[0].1.clone();
    assert_eq!(stored.len(), 8);

    let mut run = run_with(0x93c2_0000, 0x2000, 0);
    let mut bus = RecordingBus {
        read_data: stored,
        ..Default::default()
    };
    dispatch_sync_exit(&mut run, &mut bus).unwrap();
    assert_eq!(run.entry.gprs[2], 0x0102_0304_0506_0708);
}
