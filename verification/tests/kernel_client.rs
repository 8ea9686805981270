use cca_rsi::hcl_cca::{
    output_from_payload, query_realm_config_via, CcaQueryError, KernelRsiClient, MshvRsiCall,
    RealmConfig, RsiIoctlBackend,
};
use cca_rsi::{RsiClient, RsiCommand, RsiError, RsiInput, RsiReturnCode};
use std::sync::{Arc, Mutex};

#[derive(Default)]
struct MockBackend {
    captured: Arc<Mutex<Vec<MshvRsiCall>>>,
    result_code: i32,
    results: [u64; 7],
    fail: bool,
}

impl RsiIoctlBackend for MockBackend {
    fn call(&self, _fd: i32, payload: &mut MshvRsiCall) -> Result<(), nix::Error> {
        self.captured.lock().unwrap().push(*payload);
        if self.fail {
            return Err(nix::Error::EINVAL);
        }

        payload.return_code = self.result_code;
        payload.results = self.results;
        Ok(())
    }
}

#[test]
fn packs_rsi_input_into_ioctl_payload() {
    let captured = Arc::new(Mutex::new(Vec::new()));
    let backend = MockBackend {
        captured: captured.clone(),
        result_code: 0,
        results: [0; 7],
        fail: false,
    };
    let client = KernelRsiClient::with_backend(7, 42, backend);

    let input = RsiInput::new(RsiCommand::VERSION).with_arg(0, 0xAA55).unwrap();
    let _ = client.call(input).unwrap();

    let calls = captured.lock().unwrap();
    assert_eq!(calls.len(), 1);
    assert_eq!(calls[0].vp_index, 42);
    assert_eq!(calls[0].command, RsiCommand::VERSION.id().into_bits());
    assert_eq!(calls[0].args[0], 0xAA55);
}

#[test]
fn unpacks_ioctl_results_into_rsi_output() {
    let backend = MockBackend {
        captured: Arc::new(Mutex::new(Vec::new())),
        result_code: RsiReturnCode::INCOMPLETE.code(),
        results: [11, 22, 33, 44, 55, 66, 77],
        fail: false,
    };
    let client = KernelRsiClient::with_backend(3, 1, backend);

    let output = client.call(RsiInput::new(RsiCommand::IPA_STATE_SET)).unwrap();
    assert_eq!(output.return_code, RsiReturnCode::INCOMPLETE);
    assert_eq!(output.results, [11, 22, 33, 44, 55, 66, 77]);
}

#[test]
fn maps_ioctl_error_to_rsi_device_error() {
    let backend = MockBackend {
        captured: Arc::new(Mutex::new(Vec::new())),
        result_code: 0,
        results: [0; 7],
        fail: true,
    };
    let client = KernelRsiClient::with_backend(3, 1, backend);

    let err = client.call(RsiInput::new(RsiCommand::VERSION)).unwrap_err();
    assert_eq!(err, RsiError::RsiError(RsiReturnCode::ERROR_DEVICE));
}

#[test]
fn payload_carries_command_id_and_clears_results() {
    let captured = Arc::new(Mutex::new(Vec::new()));
    let backend = MockBackend {
        captured: captured.clone(),
        result_code: 0,
        results: [1; 7],
        fail: false,
    };
    let client = KernelRsiClient::with_backend(9, 5, backend);
    let payload = client.make_payload(RsiInput::new(RsiCommand::PLANE_SYSREG_WRITE).with_arg(1, 3).unwrap());
    assert_eq!(payload.command, 0xC400_01AF);
    assert_eq!(payload.vp_index, 5);
    assert_eq!(payload.args, [0, 3, 0, 0, 0, 0, 0]);
    assert_eq!(payload.results, [0; 7]);
    assert_eq!(payload.return_code, 0);
}

#[test]
fn unknown_kernel_return_code_is_kept() {
    let payload = MshvRsiCall {
        vp_index: 0,
        command: 0,
        args: [0; 7],
        results: [4; 7],
        return_code: -9,
    };
    let out = output_from_payload(Ok(()), &payload).unwrap();
    assert_eq!(out.return_code, RsiReturnCode::Other(-9));
    assert_eq!(out.results, [4; 7]);
    assert_eq!(
        output_from_payload(Err(nix::Error::EIO), &payload).unwrap_err(),
        RsiError::RsiError(RsiReturnCode::ERROR_DEVICE)
    );
}

#[test]
fn realm_config_query_through_kernel_client() {
    let backend = MockBackend {
        captured: Arc::new(Mutex::new(Vec::new())),
        result_code: 0,
        results: [48, 0, 0, 0, 0, 0, 0],
        fail: false,
    };
    let client = KernelRsiClient::with_backend(3, 0, backend);
    assert_eq!(query_realm_config_via(&client), Ok(RealmConfig { ipa_width: 48 }));

    let failing = KernelRsiClient::with_backend(3, 0, MockBackend {
        fail: true,
        ..MockBackend::default()
    });
    assert_eq!(
        query_realm_config_via(&failing),
        Err(CcaQueryError::Rsi(RsiError::RsiError(RsiReturnCode::ERROR_DEVICE)))
    );
}
