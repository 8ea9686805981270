//! The mechanism that issues RSI calls.
use vstd::prelude::*;
use crate::abi::{RsiError, RsiInput, RsiOutput};

verus! {

/// Performs RSI calls.
///
/// This trait abstracts the mechanism for issuing RSI calls, allowing for
/// different implementations (kernel driver, direct SMC, mock, etc.).
pub trait RsiClient: Send + Sync {
    /// What an implementation promises of its replies: every reply `output`
    /// that it gives to `input` satisfies `responds(input, output)`. By
    /// default it promises nothing; an implementation verified in this
    /// crate states its own relation.
    open spec fn responds(&self, input: RsiInput, output: Result<RsiOutput, RsiError>) -> bool {
        true
    }

    /// Executes an RSI call.
    fn call(&self, input: RsiInput) -> (output: Result<RsiOutput, RsiError>)
        ensures
            self.responds(input, output),
    ;
}

/// Whether `r` is what `outcome` makes of some reply that `client` may give
/// to a call that carries `command` with the arguments `args`.
pub open spec fn answered<C: RsiClient + ?Sized, T>(
    client: &C,
    command: crate::smc::RsiCommand,
    args: Seq<u64>,
    outcome: spec_fn(Result<RsiOutput, RsiError>) -> T,
    r: T,
) -> bool {
    exists|input: RsiInput, o: Result<RsiOutput, RsiError>|
        {
            &&& crate::abi::carries(input, command, args)
            &&& #[trigger] client.responds(input, o)
            &&& r == outcome(o)
        }
}

} // verus!
