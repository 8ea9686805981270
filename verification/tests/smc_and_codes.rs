use cca_rsi::abi::RSI_REGISTER_COUNT;
use cca_rsi::smc::{OWNER_MASK, RSI_SERVICE_OWNER};
use cca_rsi::{RsiCommand, RsiError, RsiInput, RsiOutput, RsiReturnCode, SmcFunctionId};

#[test]
fn command_ids_match_the_specification_table() {
    let table = [
        (RsiCommand::VERSION, 0xC400_0190u32),
        (RsiCommand::FEATURES, 0xC400_0191),
        (RsiCommand::REALM_CONFIG, 0xC400_0196),
        (RsiCommand::IPA_STATE_SET, 0xC400_0197),
        (RsiCommand::IPA_STATE_GET, 0xC400_0198),
        (RsiCommand::HOST_CALL, 0xC400_0199),
        (RsiCommand::MEM_GET_PERM_VALUE, 0xC400_01A0),
        (RsiCommand::MEM_SET_PERM_INDEX, 0xC400_01A1),
        (RsiCommand::MEM_SET_PERM_VALUE, 0xC400_01A2),
        (RsiCommand::PLANE_ENTER, 0xC400_01A3),
        (RsiCommand::PLANE_SYSREG_READ, 0xC400_01AE),
        (RsiCommand::PLANE_SYSREG_WRITE, 0xC400_01AF),
    ];
    for (command, bits) in table {
        let id = command.id();
        assert_eq!(id.into_bits(), bits);
        assert!(id.is_fast());
        assert!(id.is_smc64());
        assert_eq!(id.owner(), RSI_SERVICE_OWNER);
        assert_eq!(id.function_num() as u32, bits & 0xffff);
        assert_eq!(RsiCommand::from_id(id), command);
    }
}

#[test]
fn other_command_keeps_its_id() {
    let id = SmcFunctionId::from_bits(0x8400_0000);
    let c = RsiCommand::from_id(id);
    assert_eq!(c, RsiCommand::Other(id));
    assert_eq!(c.id(), id);
}

#[test]
fn bitfield_builders_set_one_field() {
    let id = SmcFunctionId::new()
        .with_owner(0x3F)
        .with_is_fast(true)
        .with_is_smc64(true)
        .with_function_num(0x190);
    assert_eq!(id.into_bits(), 0xFF00_0190);
    assert_eq!(id.owner(), 0x3F);
    let cleared = id.with_is_fast(false);
    assert_eq!(cleared.into_bits(), 0x7F00_0190);
    assert!(!cleared.is_fast());
    assert!(cleared.is_smc64());
    let renumbered = cleared.with_function_num(0xffff);
    assert_eq!(renumbered.function_num(), 0xffff);
    assert_eq!(renumbered.owner(), 0x3F);
    assert_eq!(SmcFunctionId::from_bits(0x00ff_0000).with_is_smc64(false).into_bits(), 0x00ff_0000);
}

#[test]
fn owner_checked_refuses_wide_values() {
    assert_eq!(SmcFunctionId::new().with_owner_checked(OWNER_MASK + 1), Err(()));
    assert_eq!(
        SmcFunctionId::new().with_owner_checked(OWNER_MASK).map(|id| id.into_bits()),
        Ok(0x3F00_0000)
    );
}

#[test]
fn return_codes_round_trip() {
    for v in [0, -1, -2, -3, -4, -5, 1, -6, 77, i32::MIN] {
        assert_eq!(RsiReturnCode::from_code(v).code(), v);
    }
    assert_eq!(RsiReturnCode::from_code(-3), RsiReturnCode::INCOMPLETE);
    assert_eq!(RsiReturnCode::from_code(12), RsiReturnCode::Other(12));
}

#[test]
fn return_code_text() {
    assert_eq!(RsiReturnCode::SUCCESS.to_string(), "SUCCESS");
    assert_eq!(RsiReturnCode::ERROR_INPUT.to_string(), "ERROR_INPUT");
    assert_eq!(RsiReturnCode::ERROR_STATE.to_string(), "ERROR_STATE");
    assert_eq!(RsiReturnCode::INCOMPLETE.to_string(), "INCOMPLETE");
    assert_eq!(RsiReturnCode::ERROR_UNKNOWN.to_string(), "ERROR_UNKNOWN");
    assert_eq!(RsiReturnCode::ERROR_DEVICE.to_string(), "ERROR_DEVICE");
    assert_eq!(RsiReturnCode::Other(-7).to_string(), "Unknown(-7)");
    assert_eq!(RsiReturnCode::Other(42).to_string(), "Unknown(42)");
}

#[test]
fn error_text_and_conversion() {
    let e: RsiError = RsiReturnCode::ERROR_DEVICE.into();
    assert_eq!(e, RsiError::RsiError(RsiReturnCode::ERROR_DEVICE));
    assert_eq!(e.to_string(), "RSI error: ERROR_DEVICE");
    assert_eq!(RsiError::RsiError(RsiReturnCode::Other(9)).to_string(), "RSI error: Unknown(9)");
    assert_eq!(RsiError::InvalidInput.to_string(), "Invalid input");
    assert_eq!(RsiError::NotSupported.to_string(), "Not supported");
}

#[test]
fn input_arguments_and_output_results() {
    let input = RsiInput::new(RsiCommand::HOST_CALL);
    assert_eq!(input.args, [0; 7]);
    let input = input.with_arg(0, 5).unwrap().with_arg(6, 9).unwrap();
    assert_eq!(input.args, [5, 0, 0, 0, 0, 0, 9]);
    assert_eq!(input.command, RsiCommand::HOST_CALL);
    assert!(matches!(input.with_arg(RSI_REGISTER_COUNT, 1), Err(RsiError::InvalidInput)));

    let output = RsiOutput {
        return_code: RsiReturnCode::INCOMPLETE,
        results: [10, 11, 12, 13, 14, 15, 16],
    };
    assert!(!output.is_success());
    assert_eq!(output.result(0), Ok(10));
    assert_eq!(output.result(6), Ok(16));
    assert_eq!(output.result(8), Err(RsiError::InvalidInput));
    let other_zero = RsiOutput {
        return_code: RsiReturnCode::Other(0),
        results: [0; 7],
    };
    assert!(other_zero.is_success());
}

#[test]
fn vtom_mask_is_top_ipa_bit() {
    let config = cca_rsi::RealmConfig {
        ipa_width: 1,
        hash_algorithm: cca_rsi::HashAlgorithm::Sha256,
    };
    assert_eq!(config.vtom_bit(), 0);
    assert_eq!(config.vtom_mask(), 1);
    let config = cca_rsi::RealmConfig {
        ipa_width: 64,
        hash_algorithm: cca_rsi::HashAlgorithm::Sha512,
    };
    assert_eq!(config.vtom_mask(), 1u64 << 63);
    let addr = 0x1234u64;
    let config = cca_rsi::RealmConfig {
        ipa_width: 40,
        hash_algorithm: cca_rsi::HashAlgorithm::Sha256,
    };
    let shared = addr | config.vtom_mask();
    assert_eq!(shared | config.vtom_mask(), shared);
    assert_eq!(shared & config.vtom_mask(), config.vtom_mask());
}

#[test]
fn ipa_state_values() {
    assert_eq!(cca_rsi::IpaState::Empty.value(), 0);
    assert_eq!(cca_rsi::IpaState::Destroyed.value(), 1);
    assert_eq!(cca_rsi::IpaState::Shared.value(), 2);
}

#[test]
fn equality_goes_by_number_and_word() {
    assert_eq!(RsiReturnCode::Other(0), RsiReturnCode::SUCCESS);
    assert_eq!(RsiReturnCode::Other(-3), RsiReturnCode::INCOMPLETE);
    assert_ne!(RsiReturnCode::Other(7), RsiReturnCode::ERROR_INPUT);
    assert_eq!(
        RsiError::RsiError(RsiReturnCode::Other(-1)),
        RsiError::RsiError(RsiReturnCode::ERROR_INPUT)
    );
    assert_ne!(RsiError::InvalidInput, RsiError::NotSupported);
    assert_eq!(
        RsiCommand::Other(SmcFunctionId::from_bits(0xC400_0190)),
        RsiCommand::VERSION
    );
    assert_ne!(RsiCommand::FEATURES, RsiCommand::VERSION);
}

#[test]
fn unknown_code_text_covers_extremes() {
    assert_eq!(RsiReturnCode::Other(i32::MIN).to_string(), "Unknown(-2147483648)");
    assert_eq!(RsiReturnCode::Other(i32::MAX).to_string(), "Unknown(2147483647)");
    assert_eq!(RsiReturnCode::Other(-10).to_string(), "Unknown(-10)");
    assert_eq!(RsiReturnCode::Other(0).to_string(), "SUCCESS");
}
