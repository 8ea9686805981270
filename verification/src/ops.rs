//! High-level RSI operations.
//!
//! Each operation checks its arguments, hands one call to an `RsiClient`,
//! and decodes the reply. The decoding of each kind of reply is a public
//! function of its own, so that it can be checked on any reply.
use vstd::prelude::*;
use crate::abi::{
    args_with, carries, hash_algorithm_of, ipa_state_of, ipa_state_value, return_code_value, HashAlgorithm,
    IpaState, RealmConfig, RsiError, RsiInput, RsiOutput, RsiReturnCode,
};
use crate::client::{answered, RsiClient};
use crate::smc::RsiCommand;

verus! {

/// Widest IPA space that a realm configuration may report, in bits.
pub const MAX_IPA_WIDTH: u64 = 52;

/// Highest memory permission index.
pub const MAX_PERM_INDEX: u8 = 15;

/// A reply that must report `SUCCESS`: the output, or the error that the
/// call or its return code stands for.
pub open spec fn successful(o: Result<RsiOutput, RsiError>) -> Result<RsiOutput, RsiError> {
    match o {
        Err(e) => Err(e),
        Ok(out) => if return_code_value(out.return_code) == 0 {
            Ok(out)
        } else {
            Err(RsiError::RsiError(out.return_code))
        },
    }
}

/// A reply that must report `SUCCESS` or `INCOMPLETE`.
pub open spec fn progressed(o: Result<RsiOutput, RsiError>) -> Result<RsiOutput, RsiError> {
    match o {
        Err(e) => Err(e),
        Ok(out) => if return_code_value(out.return_code) == 0 || return_code_value(
            out.return_code,
        ) == -3 {
            Ok(out)
        } else {
            Err(RsiError::RsiError(out.return_code))
        },
    }
}

/// The (lower, higher) version halves of the word `v`.
pub open spec fn version_halves(v: u64) -> (u16, u16) {
    ((v & 0xffff) as u16, ((v >> 16u64) & 0xffff) as u16)
}

/// Decoded reply of RSI_VERSION.
pub open spec fn version_outcome(o: Result<RsiOutput, RsiError>) -> Result<(u16, u16), RsiError> {
    match successful(o) {
        Err(e) => Err(e),
        Ok(out) => Ok(version_halves(out.results[0])),
    }
}

/// The realm configuration that the words `width` and `algorithm` stand
/// for, or `InvalidInput` where the width exceeds 52 bits or the algorithm
/// is not known.
pub open spec fn realm_config_of(width: u64, algorithm: u64) -> Result<RealmConfig, RsiError> {
    if width > MAX_IPA_WIDTH {
        Err(RsiError::InvalidInput)
    } else {
        match hash_algorithm_of(algorithm) {
            None => Err(RsiError::InvalidInput),
            Some(h) => Ok(RealmConfig { ipa_width: width as u8, hash_algorithm: h }),
        }
    }
}

/// Decoded reply of RSI_REALM_CONFIG.
pub open spec fn realm_config_outcome(o: Result<RsiOutput, RsiError>) -> Result<
    RealmConfig,
    RsiError,
> {
    match successful(o) {
        Err(e) => Err(e),
        Ok(out) => realm_config_of(out.results[0], out.results[1]),
    }
}

/// Decoded reply of a range operation: the top of the processed range.
pub open spec fn range_top_outcome(o: Result<RsiOutput, RsiError>) -> Result<u64, RsiError> {
    match progressed(o) {
        Err(e) => Err(e),
        Ok(out) => Ok(out.results[0]),
    }
}

/// Decoded reply of RSI_IPA_STATE_GET.
pub open spec fn ipa_state_outcome(o: Result<RsiOutput, RsiError>) -> Result<IpaState, RsiError> {
    match successful(o) {
        Err(e) => Err(e),
        Ok(out) => match ipa_state_of(out.results[0]) {
            Some(s) => Ok(s),
            None => Err(RsiError::InvalidInput),
        },
    }
}

/// Decoded reply of a call that gives back one value in X1.
pub open spec fn value_outcome(o: Result<RsiOutput, RsiError>) -> Result<u64, RsiError> {
    match successful(o) {
        Err(e) => Err(e),
        Ok(out) => Ok(out.results[0]),
    }
}

/// Decoded reply of RSI_HOST_CALL: all seven result registers.
pub open spec fn host_call_outcome(o: Result<RsiOutput, RsiError>) -> Result<[u64; 7], RsiError> {
    match successful(o) {
        Err(e) => Err(e),
        Ok(out) => Ok(out.results),
    }
}

/// Decoded reply of a call that gives back nothing.
pub open spec fn unit_outcome(o: Result<RsiOutput, RsiError>) -> Result<(), RsiError> {
    match successful(o) {
        Err(e) => Err(e),
        Ok(_) => Ok(()),
    }
}

/// The reply `output` where it reports `SUCCESS`, else its error.
pub fn require_success(output: Result<RsiOutput, RsiError>) -> (r: Result<RsiOutput, RsiError>)
    ensures
        r == successful(output),
        r is Ok <==> (output matches Ok(out) && return_code_value(out.return_code) == 0),
        r matches Ok(out) ==> output == Ok::<RsiOutput, RsiError>(out),
{
    match output {
        Err(e) => Err(e),
        Ok(out) => {
            if !out.is_success() {
                return Err(out.return_code.into());
            }
            Ok(out)
        },
    }
}

/// The reply `output` where it reports `SUCCESS` or `INCOMPLETE`, else its
/// error.
pub fn require_progress(output: Result<RsiOutput, RsiError>) -> (r: Result<RsiOutput, RsiError>)
    ensures
        r == progressed(output),
{
    match output {
        Err(e) => Err(e),
        Ok(out) => {
            if !out.is_success() && out.return_code.code() != RsiReturnCode::INCOMPLETE.code() {
                return Err(out.return_code.into());
            }
            Ok(out)
        },
    }
}

/// Decodes the reply of RSI_VERSION: the (lower, higher) 16-bit halves of X1.
pub fn version_from_output(output: Result<RsiOutput, RsiError>) -> (r: Result<(u16, u16), RsiError>)
    ensures
        r == version_outcome(output),
{
    let out = match require_success(output) {
        Ok(out) => out,
        Err(e) => return Err(e),
    };
    let version = out.results[0];
    let lower = (version & 0xFFFF) as u16;
    let higher = ((version >> 16) & 0xFFFF) as u16;
    Ok((lower, higher))
}

/// Decodes the reply of RSI_REALM_CONFIG: IPA width in X1, hash algorithm
/// in X2.
pub fn realm_config_from_output(output: Result<RsiOutput, RsiError>) -> (r: Result<
    RealmConfig,
    RsiError,
>)
    ensures
        r == realm_config_outcome(output),
        output matches Ok(out) ==> (return_code_value(out.return_code) == 0 && out.results[0]
            <= MAX_IPA_WIDTH && out.results[1] <= 1 ==> (r matches Ok(c) && c.ipa_width
            == out.results[0] && c.hash_algorithm == if out.results[1] == 0 {
            HashAlgorithm::Sha256
        } else {
            HashAlgorithm::Sha512
        })),
{
    let out = match require_success(output) {
        Ok(out) => out,
        Err(e) => return Err(e),
    };
    let ipa_width = out.results[0];
    let algorithm = out.results[1];
    if ipa_width > MAX_IPA_WIDTH {
        return Err(RsiError::InvalidInput);
    }
    let hash_algorithm = if algorithm == 0 {
        HashAlgorithm::Sha256
    } else if algorithm == 1 {
        HashAlgorithm::Sha512
    } else {
        return Err(RsiError::InvalidInput);
    };
    Ok(RealmConfig { ipa_width: ipa_width as u8, hash_algorithm })
}

/// Decodes the reply of a range operation: the top of the processed range
/// in X1, which `INCOMPLETE` reports too.
pub fn range_top_from_output(output: Result<RsiOutput, RsiError>) -> (r: Result<u64, RsiError>)
    ensures
        r == range_top_outcome(output),
{
    match require_progress(output) {
        Ok(out) => Ok(out.results[0]),
        Err(e) => Err(e),
    }
}

/// Decodes the reply of RSI_IPA_STATE_GET: the state in X1.
pub fn ipa_state_from_output(output: Result<RsiOutput, RsiError>) -> (r: Result<IpaState, RsiError>)
    ensures
        r == ipa_state_outcome(output),
{
    let out = match require_success(output) {
        Ok(out) => out,
        Err(e) => return Err(e),
    };
    let v = out.results[0];
    if v == 0 {
        Ok(IpaState::Empty)
    } else if v == 1 {
        Ok(IpaState::Destroyed)
    } else if v == 2 {
        Ok(IpaState::Shared)
    } else {
        Err(RsiError::InvalidInput)
    }
}

/// Decodes the reply of a call that gives back one value in X1.
pub fn value_from_output(output: Result<RsiOutput, RsiError>) -> (r: Result<u64, RsiError>)
    ensures
        r == value_outcome(output),
{
    match require_success(output) {
        Ok(out) => Ok(out.results[0]),
        Err(e) => Err(e),
    }
}

/// Decodes the reply of RSI_HOST_CALL: X1..X7.
pub fn host_call_from_output(output: Result<RsiOutput, RsiError>) -> (r: Result<[u64; 7], RsiError>)
    ensures
        r == host_call_outcome(output),
{
    match require_success(output) {
        Ok(out) => Ok(out.results),
        Err(e) => Err(e),
    }
}

/// Decodes the reply of a call that gives back nothing.
pub fn unit_from_output(output: Result<RsiOutput, RsiError>) -> (r: Result<(), RsiError>)
    ensures
        r == unit_outcome(output),
{
    match require_success(output) {
        Ok(_) => Ok(()),
        Err(e) => Err(e),
    }
}

/// `input` with argument `index` set to `value`.
fn set_arg(input: RsiInput, index: usize, value: u64) -> (r: RsiInput)
    requires
        index < 7,
    ensures
        r.command == input.command,
        r.args@ == input.args@.update(index as int, value),
{
    match input.with_arg(index, value) {
        Ok(i) => i,
        Err(_) => input,
    }
}

/// A call of `command` with arguments `a0` and `a1`, then zeros.
fn request2(command: RsiCommand, a0: u64, a1: u64) -> (r: RsiInput)
    ensures
        carries(r, command, args_with(seq![a0, a1])),
{
    let r = set_arg(set_arg(RsiInput::new(command), 0, a0), 1, a1);
    assert(r.args@ =~= args_with(seq![a0, a1]));
    r
}

/// A call of `command` with argument `a0`, then zeros.
fn request1(command: RsiCommand, a0: u64) -> (r: RsiInput)
    ensures
        carries(r, command, args_with(seq![a0])),
{
    let r = set_arg(RsiInput::new(command), 0, a0);
    assert(r.args@ =~= args_with(seq![a0]));
    r
}

/// Queries the RSI version: the (lower, higher) halves of X1.
pub fn rsi_version<C: RsiClient + ?Sized>(client: &C) -> (r: Result<(u16, u16), RsiError>)
    ensures
        answered(
            client,
            RsiCommand::VERSION,
            args_with(seq![]),
            |o: Result<RsiOutput, RsiError>| version_outcome(o),
            r,
        ),
{
    let input = RsiInput::new(RsiCommand::VERSION);
    let output = client.call(input);
    version_from_output(output)
}

/// Gets the realm configuration: IPA width and hash algorithm.
pub fn rsi_realm_config<C: RsiClient + ?Sized>(client: &C) -> (r: Result<RealmConfig, RsiError>)
    ensures
        answered(
            client,
            RsiCommand::REALM_CONFIG,
            args_with(seq![]),
            |o: Result<RsiOutput, RsiError>| realm_config_outcome(o),
            r,
        ),
{
    let input = RsiInput::new(RsiCommand::REALM_CONFIG);
    let output = client.call(input);
    realm_config_from_output(output)
}

/// Sets the state of the IPA range [base, top). Returns the top of the
/// processed range; where it is below `top`, call again from there. Fails
/// with `InvalidInput`, without a call, where `base >= top`.
pub fn rsi_ipa_state_set<C: RsiClient + ?Sized>(
    client: &C,
    base: u64,
    top: u64,
    state: IpaState,
    flags: u64,
) -> (r: Result<u64, RsiError>)
    ensures
        base >= top ==> r == Err::<u64, RsiError>(RsiError::InvalidInput),
        base < top ==> answered(
            client,
            RsiCommand::IPA_STATE_SET,
            args_with(seq![base, top, ipa_state_value(state), flags]),
            |o: Result<RsiOutput, RsiError>| range_top_outcome(o),
            r,
        ),
{
    if base >= top {
        return Err(RsiError::InvalidInput);
    }
    let input = set_arg(
        set_arg(request2(RsiCommand::IPA_STATE_SET, base, top), 2, state.value()),
        3,
        flags,
    );
    assert(input.args@ =~= args_with(seq![base, top, ipa_state_value(state), flags]));
    let output = client.call(input);
    range_top_from_output(output)
}

/// Gets the state of one IPA.
pub fn rsi_ipa_state_get<C: RsiClient + ?Sized>(client: &C, ipa: u64) -> (r: Result<IpaState, RsiError>)
    ensures
        answered(
            client,
            RsiCommand::IPA_STATE_GET,
            args_with(seq![ipa]),
            |o: Result<RsiOutput, RsiError>| ipa_state_outcome(o),
            r,
        ),
{
    let input = request1(RsiCommand::IPA_STATE_GET, ipa);
    let output = client.call(input);
    ipa_state_from_output(output)
}

/// Queries an RSI feature value by index.
pub fn rsi_features<C: RsiClient + ?Sized>(client: &C, feature_index: u64) -> (r: Result<u64, RsiError>)
    ensures
        answered(
            client,
            RsiCommand::FEATURES,
            args_with(seq![feature_index]),
            |o: Result<RsiOutput, RsiError>| value_outcome(o),
            r,
        ),
{
    let input = request1(RsiCommand::FEATURES, feature_index);
    let output = client.call(input);
    value_from_output(output)
}

/// Performs an RSI host call: `input_args` go in X1..X7, and X1..X7 of the
/// reply come back.
pub fn rsi_host_call<C: RsiClient + ?Sized>(client: &C, input_args: [u64; 7]) -> (r: Result<
    [u64; 7],
    RsiError,
>)
    ensures
        answered(
            client,
            RsiCommand::HOST_CALL,
            input_args@,
            |o: Result<RsiOutput, RsiError>| host_call_outcome(o),
            r,
        ),
{
    let input = RsiInput { command: RsiCommand::HOST_CALL, args: input_args };
    let output = client.call(input);
    host_call_from_output(output)
}

/// Sets the Stage 2 permission index (0-15) of the IPA range [base, top).
/// Returns the top of the processed range. Fails with `InvalidInput`,
/// without a call, where `base >= top` or the index exceeds 15.
pub fn rsi_mem_set_perm_index<C: RsiClient + ?Sized>(
    client: &C,
    base: u64,
    top: u64,
    perm_index: u8,
) -> (r: Result<u64, RsiError>)
    ensures
        (base >= top || perm_index > MAX_PERM_INDEX) ==> r == Err::<u64, RsiError>(
            RsiError::InvalidInput,
        ),
        (base < top && perm_index <= MAX_PERM_INDEX) ==> answered(
            client,
            RsiCommand::MEM_SET_PERM_INDEX,
            args_with(seq![base, top, perm_index as u64]),
            |o: Result<RsiOutput, RsiError>| range_top_outcome(o),
            r,
        ),
{
    if base >= top || perm_index > MAX_PERM_INDEX {
        return Err(RsiError::InvalidInput);
    }
    let input = set_arg(
        request2(RsiCommand::MEM_SET_PERM_INDEX, base, top),
        2,
        perm_index as u64,
    );
    assert(input.args@ =~= args_with(seq![base, top, perm_index as u64]));
    let output = client.call(input);
    range_top_from_output(output)
}

/// Gets the memory permission value of a permission index (0-15). Fails
/// with `InvalidInput`, without a call, where the index exceeds 15.
pub fn rsi_mem_get_perm_value<C: RsiClient + ?Sized>(client: &C, perm_index: u8) -> (r: Result<
    u64,
    RsiError,
>)
    ensures
        perm_index > MAX_PERM_INDEX ==> r == Err::<u64, RsiError>(RsiError::InvalidInput),
        perm_index <= MAX_PERM_INDEX ==> answered(
            client,
            RsiCommand::MEM_GET_PERM_VALUE,
            args_with(seq![perm_index as u64]),
            |o: Result<RsiOutput, RsiError>| value_outcome(o),
            r,
        ),
{
    if perm_index > MAX_PERM_INDEX {
        return Err(RsiError::InvalidInput);
    }
    let input = request1(RsiCommand::MEM_GET_PERM_VALUE, perm_index as u64);
    let output = client.call(input);
    value_from_output(output)
}

/// Sets the memory permission value of a permission index (0-15). Fails
/// with `InvalidInput`, without a call, where the index exceeds 15.
pub fn rsi_mem_set_perm_value<C: RsiClient + ?Sized>(client: &C, perm_index: u8, perm_value: u64) -> (r:
    Result<(), RsiError>)
    ensures
        perm_index > MAX_PERM_INDEX ==> r == Err::<(), RsiError>(RsiError::InvalidInput),
        perm_index <= MAX_PERM_INDEX ==> answered(
            client,
            RsiCommand::MEM_SET_PERM_VALUE,
            args_with(seq![perm_index as u64, perm_value]),
            |o: Result<RsiOutput, RsiError>| unit_outcome(o),
            r,
        ),
{
    if perm_index > MAX_PERM_INDEX {
        return Err(RsiError::InvalidInput);
    }
    let input = request2(RsiCommand::MEM_SET_PERM_VALUE, perm_index as u64, perm_value);
    let output = client.call(input);
    unit_from_output(output)
}

/// Enters a lower privilege plane whose plane_run structure is at
/// `plane_run_pa`.
pub fn rsi_plane_enter<C: RsiClient + ?Sized>(client: &C, plane_run_pa: u64) -> (r: Result<(), RsiError>)
    ensures
        answered(
            client,
            RsiCommand::PLANE_ENTER,
            args_with(seq![plane_run_pa]),
            |o: Result<RsiOutput, RsiError>| unit_outcome(o),
            r,
        ),
{
    let input = request1(RsiCommand::PLANE_ENTER, plane_run_pa);
    let output = client.call(input);
    unit_from_output(output)
}

/// Reads a plane system register by its encoded register ID.
pub fn rsi_plane_sysreg_read<C: RsiClient + ?Sized>(client: &C, reg_encoding: u64) -> (r: Result<
    u64,
    RsiError,
>)
    ensures
        answered(
            client,
            RsiCommand::PLANE_SYSREG_READ,
            args_with(seq![reg_encoding]),
            |o: Result<RsiOutput, RsiError>| value_outcome(o),
            r,
        ),
{
    let input = request1(RsiCommand::PLANE_SYSREG_READ, reg_encoding);
    let output = client.call(input);
    value_from_output(output)
}

/// Writes `value` to a plane system register by its encoded register ID.
pub fn rsi_plane_sysreg_write<C: RsiClient + ?Sized>(client: &C, reg_encoding: u64, value: u64) -> (r:
    Result<(), RsiError>)
    ensures
        answered(
            client,
            RsiCommand::PLANE_SYSREG_WRITE,
            args_with(seq![reg_encoding, value]),
            |o: Result<RsiOutput, RsiError>| unit_outcome(o),
            r,
        ),
{
    let input = request2(RsiCommand::PLANE_SYSREG_WRITE, reg_encoding, value);
    let output = client.call(input);
    unit_from_output(output)
}

/// The version word packs the lower half in bits 0..16 and the higher half
/// in bits 16..32: decoding a word packed from (lower, higher) gives them
/// back, whatever the bits above 32 hold.
pub proof fn lemma_version_round_trip(lower: u16, higher: u16, upper: u64)
    ensures
        version_halves(((upper << 32u64) | ((higher as u64) << 16u64) | (lower as u64)) as u64) == (
            lower,
            higher,
        ),
{
    let l = lower as u64;
    let h = higher as u64;
    assert(l <= 0xffff && h <= 0xffff ==> ((((upper << 32u64) | (h << 16u64) | l) & 0xffff) == l
        && ((((upper << 32u64) | (h << 16u64) | l) >> 16u64) & 0xffff) == h)) by (bit_vector);
}

/// Every configuration that a REALM_CONFIG reply decodes to has an IPA
/// width of at most 52 bits, taken from X1, and the hash algorithm that X2
/// names.
pub proof fn lemma_realm_config_decoded(o: Result<RsiOutput, RsiError>)
    ensures
        realm_config_outcome(o) matches Ok(c) ==> {
            &&& o matches Ok(out)
            &&& c.ipa_width <= MAX_IPA_WIDTH
            &&& c.ipa_width == out.results[0]
            &&& hash_algorithm_of(out.results[1]) == Some(c.hash_algorithm)
        },
{
}


/// A reply is accepted exactly when its return code is SUCCESS (0); any
/// other code is the error, carrying that code, of every operation that
/// needs success. Range operations accept INCOMPLETE (-3) too and refuse
/// every other code. An error from the client itself is passed on as is.
pub proof fn lemma_reply_acceptance(out: RsiOutput, e: RsiError)
    ensures
        successful(Ok(out)) is Ok <==> return_code_value(out.return_code) == 0,
        progressed(Ok(out)) is Ok <==> (return_code_value(out.return_code) == 0
            || return_code_value(out.return_code) == -3),
        return_code_value(out.return_code) != 0 ==> {
            let err = RsiError::RsiError(out.return_code);
            &&& version_outcome(Ok(out)) == Err::<(u16, u16), RsiError>(err)
            &&& realm_config_outcome(Ok(out)) == Err::<RealmConfig, RsiError>(err)
            &&& ipa_state_outcome(Ok(out)) == Err::<IpaState, RsiError>(err)
            &&& value_outcome(Ok(out)) == Err::<u64, RsiError>(err)
            &&& host_call_outcome(Ok(out)) == Err::<[u64; 7], RsiError>(err)
            &&& unit_outcome(Ok(out)) == Err::<(), RsiError>(err)
        },
        return_code_value(out.return_code) != 0 && return_code_value(out.return_code) != -3
            ==> range_top_outcome(Ok(out)) == Err::<u64, RsiError>(
            RsiError::RsiError(out.return_code),
        ),
        return_code_value(out.return_code) == 0 ==> {
            &&& value_outcome(Ok(out)) == Ok::<u64, RsiError>(out.results[0])
            &&& host_call_outcome(Ok(out)) == Ok::<[u64; 7], RsiError>(out.results)
            &&& unit_outcome(Ok(out)) == Ok::<(), RsiError>(())
            &&& range_top_outcome(Ok(out)) == Ok::<u64, RsiError>(out.results[0])
        },
        return_code_value(out.return_code) == -3 ==> range_top_outcome(Ok(out)) == Ok::<
            u64,
            RsiError,
        >(out.results[0]),
        version_outcome(Err(e)) == Err::<(u16, u16), RsiError>(e),
        realm_config_outcome(Err(e)) == Err::<RealmConfig, RsiError>(e),
        ipa_state_outcome(Err(e)) == Err::<IpaState, RsiError>(e),
        value_outcome(Err(e)) == Err::<u64, RsiError>(e),
        host_call_outcome(Err(e)) == Err::<[u64; 7], RsiError>(e),
        unit_outcome(Err(e)) == Err::<(), RsiError>(e),
        range_top_outcome(Err(e)) == Err::<u64, RsiError>(e),
{
}

/// A successful REALM_CONFIG reply is accepted exactly when X1 is at most
/// 52 and X2 names SHA-256 (0) or SHA-512 (1); it then gives the width in X1
/// and that algorithm, and is otherwise refused with `InvalidInput`.
pub proof fn lemma_realm_config_acceptance(out: RsiOutput)
    requires
        return_code_value(out.return_code) == 0,
    ensures
        out.results[0] <= 52 && out.results[1] <= 1 ==> (realm_config_outcome(Ok(out)) matches Ok(
            c,
        ) && c.ipa_width == out.results[0] && (c.hash_algorithm == HashAlgorithm::Sha256 <==> out.results[1]
            == 0) && (c.hash_algorithm == HashAlgorithm::Sha512 <==> out.results[1] == 1)),
        (out.results[0] > 52 || out.results[1] > 1) ==> realm_config_outcome(Ok(out)) == Err::<
            RealmConfig,
            RsiError,
        >(RsiError::InvalidInput),
{
}

/// A successful IPA_STATE_GET reply is accepted exactly when X1 is 0, 1 or
/// 2, and the state it gives is passed as that same number; any other X1 is
/// refused with `InvalidInput`.
pub proof fn lemma_ipa_state_acceptance(out: RsiOutput, s: IpaState)
    requires
        return_code_value(out.return_code) == 0,
    ensures
        out.results[0] <= 2 ==> (ipa_state_outcome(Ok(out)) matches Ok(t) && ipa_state_value(t)
            == out.results[0]),
        out.results[0] > 2 ==> ipa_state_outcome(Ok(out)) == Err::<IpaState, RsiError>(
            RsiError::InvalidInput,
        ),
        ipa_state_of(ipa_state_value(s)) == Some(s),
        ipa_state_value(s) <= 2,
{
}

/// `args_with(prefix)` is seven registers: the prefix, then zeros.
pub proof fn lemma_args_with(prefix: Seq<u64>)
    requires
        prefix.len() <= 7,
    ensures
        args_with(prefix).len() == 7,
        forall|i: int| 0 <= i < prefix.len() ==> #[trigger] args_with(prefix)[i] == prefix[i],
        forall|i: int| prefix.len() <= i < 7 ==> #[trigger] args_with(prefix)[i] == 0,
{
}

} // verus!
