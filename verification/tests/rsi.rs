use cca_rsi::{
    rsi_features, rsi_host_call, rsi_ipa_state_get, rsi_ipa_state_set, rsi_mem_get_perm_value,
    rsi_mem_set_perm_index, rsi_mem_set_perm_value, rsi_plane_enter, rsi_plane_sysreg_read,
    rsi_plane_sysreg_write, rsi_realm_config, rsi_version, HashAlgorithm, IpaState, RsiClient,
    RsiCommand, RsiError, RsiInput, RsiOutput, RsiReturnCode,
};
use std::sync::atomic::{AtomicU64, Ordering};

/// Mock RSI client for testing
struct MockRsiClient {
    version: (u16, u16),
    ipa_width: u8,
    hash_algorithm: u64,
    features_value: u64,
    perm_values: [u64; 16],
    plane_sysreg_value: u64,
    call_count: AtomicU64,
}

impl MockRsiClient {
    fn new() -> Self {
        Self {
            version: (1, 0),
            ipa_width: 40,
            hash_algorithm: 0,
            features_value: 0,
            perm_values: [0; 16],
            plane_sysreg_value: 0,
            call_count: AtomicU64::new(0),
        }
    }
}

impl RsiClient for MockRsiClient {
    fn call(&self, input: RsiInput) -> Result<RsiOutput, RsiError> {
        self.call_count.fetch_add(1, Ordering::Relaxed);

        let mut output = RsiOutput {
            return_code: RsiReturnCode::SUCCESS,
            results: [0; 7],
        };

        match input.command {
            RsiCommand::VERSION => {
                let version = (self.version.0 as u64) | ((self.version.1 as u64) << 16);
                output.results[0] = version;
            }
            RsiCommand::REALM_CONFIG => {
                output.results[0] = self.ipa_width as u64;
                output.results[1] = self.hash_algorithm;
            }
            RsiCommand::FEATURES => {
                output.results[0] = self.features_value;
            }
            RsiCommand::IPA_STATE_SET => {
                output.results[0] = input.args[1]; // Return top
            }
            RsiCommand::HOST_CALL => {
                output.results = input.args;
            }
            RsiCommand::IPA_STATE_GET => {
                output.results[0] = IpaState::Shared as u64;
            }
            RsiCommand::MEM_SET_PERM_INDEX => {
                output.results[0] = input.args[1]; // Return top
            }
            RsiCommand::MEM_GET_PERM_VALUE => {
                let index = input.args[0] as usize;
                if index >= self.perm_values.len() {
                    output.return_code = RsiReturnCode::ERROR_INPUT;
                } else {
                    output.results[0] = self.perm_values[index];
                }
            }
            RsiCommand::MEM_SET_PERM_VALUE => {
                let index = input.args[0] as usize;
                if index >= self.perm_values.len() {
                    output.return_code = RsiReturnCode::ERROR_INPUT;
                } else {
                    output.results[0] = input.args[1];
                }
            }
            RsiCommand::PLANE_ENTER => {}
            RsiCommand::PLANE_SYSREG_READ => {
                output.results[0] = self.plane_sysreg_value;
            }
            RsiCommand::PLANE_SYSREG_WRITE => {}
            _ => {
                output.return_code = RsiReturnCode::ERROR_UNKNOWN;
            }
        }

        Ok(output)
    }
}

#[test]
fn test_rsi_version() {
    let client = MockRsiClient::new();
    let (major, minor) = rsi_version(&client).unwrap();
    assert_eq!(major, 1);
    assert_eq!(minor, 0);
}

#[test]
fn test_realm_config() {
    let client = MockRsiClient::new();
    let config = rsi_realm_config(&client).unwrap();
    assert_eq!(config.ipa_width, 40);
    assert_eq!(config.hash_algorithm, HashAlgorithm::Sha256);
    assert_eq!(config.vtom_bit(), 39);
    assert_eq!(config.vtom_mask(), 1u64 << 39);
}

#[test]
fn test_ipa_state_set() {
    let client = MockRsiClient::new();
    let base = 0x1000;
    let top = 0x2000;
    let result = rsi_ipa_state_set(&client, base, top, IpaState::Shared, 0).unwrap();
    assert_eq!(result, top);
}

#[test]
fn test_features_and_permissions() {
    let mut client = MockRsiClient::new();
    client.features_value = 0xfeed_beef;
    client.perm_values[3] = 0x55aa;

    assert_eq!(rsi_features(&client, 1).unwrap(), 0xfeed_beef);
    assert_eq!(rsi_mem_get_perm_value(&client, 3).unwrap(), 0x55aa);
    rsi_mem_set_perm_value(&client, 3, 0x1234).unwrap();
    let top = rsi_mem_set_perm_index(&client, 0x1000, 0x3000, 3).unwrap();
    assert_eq!(top, 0x3000);
}

#[test]
fn test_host_call_round_trip() {
    let client = MockRsiClient::new();
    let input = [1, 2, 3, 4, 5, 6, 7];
    let output = rsi_host_call(&client, input).unwrap();
    assert_eq!(output, input);
}

#[test]
fn test_ipa_state_get_and_plane_sysreg() {
    let mut client = MockRsiClient::new();
    client.plane_sysreg_value = 0xabcd;

    assert_eq!(rsi_ipa_state_get(&client, 0x1000).unwrap(), IpaState::Shared);
    assert_eq!(rsi_plane_sysreg_read(&client, 0x10).unwrap(), 0xabcd);
    rsi_plane_sysreg_write(&client, 0x10, 0x99).unwrap();
    rsi_plane_enter(&client, 0x10000).unwrap();
}

#[test]
fn test_invalid_inputs() {
    let client = MockRsiClient::new();

    assert!(matches!(
        RsiInput::new(RsiCommand::VERSION).with_arg(7, 1),
        Err(RsiError::InvalidInput)
    ));

    let output = RsiOutput {
        return_code: RsiReturnCode::SUCCESS,
        results: [0; 7],
    };
    assert_eq!(output.result(7), Err(RsiError::InvalidInput));

    assert_eq!(
        rsi_ipa_state_set(&client, 0x2000, 0x1000, IpaState::Shared, 0),
        Err(RsiError::InvalidInput)
    );
    assert_eq!(
        rsi_mem_set_perm_index(&client, 0x1000, 0x2000, 16),
        Err(RsiError::InvalidInput)
    );
    assert_eq!(rsi_mem_get_perm_value(&client, 16), Err(RsiError::InvalidInput));
    assert_eq!(rsi_mem_set_perm_value(&client, 16, 0), Err(RsiError::InvalidInput));
}

#[test]
fn test_realm_config_invalid_values() {
    let mut client = MockRsiClient::new();

    client.ipa_width = 53;
    assert!(matches!(rsi_realm_config(&client), Err(RsiError::InvalidInput)));

    client.ipa_width = 40;
    client.hash_algorithm = 2;
    assert!(matches!(rsi_realm_config(&client), Err(RsiError::InvalidInput)));
}

#[test]
fn invalid_inputs_make_no_call() {
    let client = MockRsiClient::new();
    let _ = rsi_ipa_state_set(&client, 0x2000, 0x2000, IpaState::Empty, 0);
    let _ = rsi_mem_set_perm_index(&client, 0x1000, 0x2000, 16);
    let _ = rsi_mem_get_perm_value(&client, 200);
    let _ = rsi_mem_set_perm_value(&client, 16, 0);
    assert_eq!(client.call_count.load(Ordering::Relaxed), 0);
    let _ = rsi_version(&client);
    assert_eq!(client.call_count.load(Ordering::Relaxed), 1);
}

#[test]
fn highest_permission_index_is_accepted() {
    let mut client = MockRsiClient::new();
    client.perm_values[15] = 0x77;
    assert_eq!(rsi_mem_get_perm_value(&client, 15).unwrap(), 0x77);
    assert_eq!(rsi_mem_set_perm_index(&client, 0, 1, 15).unwrap(), 1);
}

#[test]
fn version_halves_ignore_upper_bits() {
    let mut client = MockRsiClient::new();
    client.version = (0x1234, 0xabcd);
    assert_eq!(rsi_version(&client).unwrap(), (0x1234, 0xabcd));
}

#[test]
fn realm_config_widest_ipa_and_sha512() {
    let mut client = MockRsiClient::new();
    client.ipa_width = 52;
    client.hash_algorithm = 1;
    let config = rsi_realm_config(&client).unwrap();
    assert_eq!(config.ipa_width, 52);
    assert_eq!(config.hash_algorithm, HashAlgorithm::Sha512);
    assert_eq!(config.vtom_mask(), 1u64 << 51);
}

#[test]
fn unknown_permission_index_reports_return_code() {
    struct Failing;
    impl RsiClient for Failing {
        fn call(&self, _input: RsiInput) -> Result<RsiOutput, RsiError> {
            Ok(RsiOutput {
                return_code: RsiReturnCode::ERROR_STATE,
                results: [9; 7],
            })
        }
    }
    assert_eq!(
        rsi_features(&Failing, 0),
        Err(RsiError::RsiError(RsiReturnCode::ERROR_STATE))
    );
    assert_eq!(
        rsi_plane_enter(&Failing, 0),
        Err(RsiError::RsiError(RsiReturnCode::ERROR_STATE))
    );
    assert_eq!(
        rsi_ipa_state_set(&Failing, 0, 1, IpaState::Shared, 0),
        Err(RsiError::RsiError(RsiReturnCode::ERROR_STATE))
    );
}

#[test]
fn operations_accept_trait_objects() {
    let client = MockRsiClient::new();
    let dyn_client: &dyn RsiClient = &client;
    assert_eq!(rsi_version(dyn_client).unwrap(), (1, 0));
    assert_eq!(rsi_realm_config(dyn_client).unwrap().ipa_width, 40);
}
