//! RSI calls forwarded through the MSHV kernel driver.
//!
//! The driver takes one payload per call: the target virtual processor,
//! the command identifier and the seven argument registers; it fills in the
//! return code and the seven result registers. The ioctl itself is made by
//! an `RsiIoctlBackend`; this module packs calls into payloads and unpacks
//! the driver's answers.
use vstd::prelude::*;
use crate::abi::{
    args_with, carries, return_code_of, rsi_errors_equal, RealmConfig as RsiRealmConfig, RsiError, RsiInput, RsiOutput,
    RsiReturnCode,
};
use crate::client::{answered, RsiClient};
use crate::ops::{realm_config_outcome, rsi_realm_config};
use crate::smc::RsiCommand;
use vstd::std_specs::cmp::PartialEqSpecImpl;

verus! {

/// The error type of the driver's ioctl (`nix::Error`, an errno value).
#[verifier::external_type_specification]
#[verifier::external_body]
pub struct ExErrno(nix::errno::Errno);

/// Payload of the MSHV_RSI_CALL ioctl.
#[derive(Clone, Copy, Debug)]
pub struct MshvRsiCall {
    /// Which virtual processor (vCPU) to target.
    pub vp_index: u32,
    /// RSI command identifier.
    pub command: u32,
    /// RSI command arguments.
    pub args: [u64; 7],
    /// Results that the kernel fills in.
    pub results: [u64; 7],
    /// Return code that the kernel fills in.
    pub return_code: i32,
}

/// Issues the MSHV_RSI_CALL ioctl.
pub trait RsiIoctlBackend: Send + Sync {
    /// What an implementation promises of one ioctl on `fd` that starts
    /// from the payload `before`, leaves `after`, and reports `result`. By
    /// default it promises nothing.
    open spec fn performs(
        &self,
        fd: i32,
        before: MshvRsiCall,
        after: MshvRsiCall,
        result: Result<(), nix::errno::Errno>,
    ) -> bool {
        true
    }

    /// Performs the ioctl on `fd` with `payload`, which the kernel updates.
    fn call(&self, fd: i32, payload: &mut MshvRsiCall) -> (result: Result<(), nix::errno::Errno>)
        ensures
            self.performs(fd, *old(payload), *final(payload), result),
    ;
}

/// Whether `p` is the payload that carries `input` to virtual processor
/// `vp_index`, with its result fields cleared.
pub open spec fn is_payload_for(p: MshvRsiCall, vp_index: u32, input: RsiInput) -> bool {
    &&& p.vp_index == vp_index
    &&& p.command == input.command.id_bits()
    &&& p.args == input.args
    &&& p.results@ == Seq::new(7, |i: int| 0u64)
    &&& p.return_code == 0
}

/// What a call returns after the ioctl reported `result` and left
/// `payload`: a device error where the ioctl failed, else the return code
/// and results that the kernel filled in.
pub open spec fn output_of(result: Result<(), nix::errno::Errno>, payload: MshvRsiCall) -> Result<
    RsiOutput,
    RsiError,
> {
    match result {
        Err(_) => Err(RsiError::RsiError(RsiReturnCode::ERROR_DEVICE)),
        Ok(()) => Ok(
            RsiOutput { return_code: return_code_of(payload.return_code), results: payload.results },
        ),
    }
}

/// Unpacks the driver's answer: a device error where the ioctl failed,
/// else the return code and results that the kernel filled in.
pub fn output_from_payload(result: Result<(), nix::errno::Errno>, payload: &MshvRsiCall) -> (r:
    Result<RsiOutput, RsiError>)
    ensures
        r == output_of(result, *payload),
{
    match result {
        Err(_) => Err(RsiError::RsiError(RsiReturnCode::ERROR_DEVICE)),
        Ok(()) => Ok(
            RsiOutput {
                return_code: RsiReturnCode::from_code(payload.return_code),
                results: payload.results,
            },
        ),
    }
}

/// Kernel-backed RSI client that forwards typed RSI calls through MSHV
/// ioctls.
pub struct KernelRsiClient<B: RsiIoctlBackend> {
    fd: i32,
    vp_index: u32,
    backend: B,
}

impl<B: RsiIoctlBackend> KernelRsiClient<B> {
    /// The file descriptor of the driver.
    pub closed spec fn fd(&self) -> i32 {
        self.fd
    }

    /// The virtual processor that calls target.
    pub closed spec fn vp_index(&self) -> u32 {
        self.vp_index
    }

    /// The backend that performs the ioctls.
    pub closed spec fn backend(&self) -> B {
        self.backend
    }

    /// A client that sends calls for virtual processor `vp_index` to the
    /// driver open at `fd` through `backend`.
    pub fn with_backend(fd: i32, vp_index: u32, backend: B) -> (r: Self)
        ensures
            r.fd() == fd,
            r.vp_index() == vp_index,
            r.backend() == backend,
    {
        KernelRsiClient { fd, vp_index, backend }
    }

    /// The payload that carries `input` for this client's virtual processor.
    pub fn make_payload(&self, input: RsiInput) -> (r: MshvRsiCall)
        ensures
            is_payload_for(r, self.vp_index(), input),
            r.vp_index == self.vp_index(),
            r.command == input.command.id_bits(),
            r.args@ == input.args@,
            forall|i: int| 0 <= i < 7 ==> #[trigger] r.results@[i] == 0,
            r.return_code == 0,
    {
        let r = MshvRsiCall {
            vp_index: self.vp_index,
            command: input.command.id().into_bits(),
            args: input.args,
            results: [0u64; 7],
            return_code: 0,
        };
        assert(r.results@ =~= Seq::new(7, |i: int| 0u64));
        r
    }
}

impl<B: RsiIoctlBackend> RsiClient for KernelRsiClient<B> {
    /// A reply is what the driver's answer to the packed payload unpacks to.
    open spec fn responds(&self, input: RsiInput, output: Result<RsiOutput, RsiError>) -> bool {
        exists|before: MshvRsiCall, after: MshvRsiCall, result: Result<(), nix::errno::Errno>|
            {
                &&& is_payload_for(before, self.vp_index(), input)
                &&& #[trigger] self.backend().performs(self.fd(), before, after, result)
                &&& output == output_of(result, after)
            }
    }

    fn call(&self, input: RsiInput) -> (output: Result<RsiOutput, RsiError>) {
        let mut payload = self.make_payload(input);
        let ghost before = payload;
        let result = self.backend.call(self.fd, &mut payload);
        let output = output_from_payload(result, &payload);
        assert(self.backend().performs(self.fd(), before, payload, result));
        output
    }
}

/// Resolved CCA realm configuration used by callers.
#[derive(Clone, Copy, Debug, PartialEq, Eq, Structural)]
pub struct RealmConfig {
    /// Realm IPA width in bits.
    pub ipa_width: u8,
}

/// Errors from querying the CCA realm configuration. Two errors are equal
/// when their RSI errors are.
#[derive(Clone, Copy, Debug)]
pub enum CcaQueryError {
    /// RSI REALM_CONFIG returned an error.
    Rsi(RsiError),
}

impl PartialEq for CcaQueryError {
    fn eq(&self, other: &Self) -> (r: bool) {
        match (self, other) {
            (CcaQueryError::Rsi(a), CcaQueryError::Rsi(b)) => a == b,
        }
    }
}

impl PartialEqSpecImpl for CcaQueryError {
    open spec fn obeys_eq_spec() -> bool {
        true
    }

    open spec fn eq_spec(&self, other: &Self) -> bool {
        match (*self, *other) {
            (CcaQueryError::Rsi(a), CcaQueryError::Rsi(b)) => rsi_errors_equal(a, b),
        }
    }
}

impl Eq for CcaQueryError {

}

/// The configuration that callers get from a decoded REALM_CONFIG reply.
pub open spec fn query_outcome(r: Result<RsiRealmConfig, RsiError>) -> Result<
    RealmConfig,
    CcaQueryError,
> {
    match r {
        Ok(config) => Ok(RealmConfig { ipa_width: config.ipa_width }),
        Err(e) => Err(CcaQueryError::Rsi(e)),
    }
}

/// Queries RSI REALM_CONFIG through `client` and keeps the IPA width.
pub fn query_realm_config_via<C: RsiClient + ?Sized>(client: &C) -> (r: Result<RealmConfig, CcaQueryError>)
    ensures
        answered(
            client,
            RsiCommand::REALM_CONFIG,
            args_with(seq![]),
            |o: Result<RsiOutput, RsiError>| query_outcome(realm_config_outcome(o)),
            r,
        ),
{
    let config = rsi_realm_config(client);
    let r = match config {
        Ok(config) => Ok(RealmConfig { ipa_width: config.ipa_width }),
        Err(e) => Err(CcaQueryError::Rsi(e)),
    };
    proof {
        let (input, o) = choose|input: RsiInput, o: Result<RsiOutput, RsiError>|
            {
                &&& carries(input, RsiCommand::REALM_CONFIG, args_with(seq![]))
                &&& #[trigger] client.responds(input, o)
                &&& config == realm_config_outcome(o)
            };
        assert(client.responds(input, o));
    }
    r
}


/// The payload of a call carries all seven argument registers of the input
/// unchanged, in order, with the command's identifier word and the target
/// VP, and with every result field zero.
pub proof fn lemma_payload_carries_input(p: MshvRsiCall, vp_index: u32, input: RsiInput)
    requires
        is_payload_for(p, vp_index, input),
    ensures
        p.args@ == input.args@,
        forall|i: int| 0 <= i < 7 ==> #[trigger] p.args@[i] == input.args@[i],
        p.vp_index == vp_index,
        p.command == crate::smc::command_bits(input.command),
        forall|i: int| 0 <= i < 7 ==> #[trigger] p.results@[i] == 0,
        p.return_code == 0,
{
}

/// A failed ioctl is reported as a device error whatever the payload holds;
/// a successful one gives back exactly the return code number and the seven
/// results that the kernel left in the payload.
pub proof fn lemma_output_unpacks_payload(
    result: Result<(), nix::errno::Errno>,
    payload: MshvRsiCall,
)
    ensures
        result is Err ==> output_of(result, payload) == Err::<RsiOutput, RsiError>(
            RsiError::RsiError(RsiReturnCode::ERROR_DEVICE),
        ),
        result is Ok ==> (output_of(result, payload) matches Ok(out) && crate::abi::return_code_value(
            out.return_code,
        ) == payload.return_code && out.results@ == payload.results@),
{
    crate::abi::lemma_return_code_round_trip(payload.return_code, RsiReturnCode::SUCCESS);
}

} // verus!
