//! The values that an RSI call takes and gives back: return codes, the
//! register images of a call, errors, and the decoded realm configuration.
use vstd::prelude::*;
use vstd::string::*;
use crate::smc::RsiCommand;
use vstd::std_specs::cmp::PartialEqSpecImpl;

verus! {

/// Number of argument and result registers of an RSI call (X1..X7).
pub const RSI_REGISTER_COUNT: usize = 7;

/// RSI return codes, returned in X0.
///
/// Each named code stands for its number in the ARM CCA firmware
/// specification; `Other` carries any other number.
///
/// Two codes are equal when they stand for the same number, so
/// `Other(0) == SUCCESS`.
#[allow(non_camel_case_types)]
#[derive(Clone, Copy, Debug)]
pub enum RsiReturnCode {
    /// The operation completed successfully (0).
    SUCCESS,
    /// Invalid input parameters (-1).
    ERROR_INPUT,
    /// Invalid state for this operation (-2).
    ERROR_STATE,
    /// Operation is incomplete, call again (-3).
    INCOMPLETE,
    /// Unknown error occurred (-4).
    ERROR_UNKNOWN,
    /// Device-specific error (-5).
    ERROR_DEVICE,
    /// Any other return code.
    Other(i32),
}

/// The number that a return code stands for.
pub open spec fn return_code_value(c: RsiReturnCode) -> i32 {
    match c {
        RsiReturnCode::SUCCESS => 0i32,
        RsiReturnCode::ERROR_INPUT => -1i32,
        RsiReturnCode::ERROR_STATE => -2i32,
        RsiReturnCode::INCOMPLETE => -3i32,
        RsiReturnCode::ERROR_UNKNOWN => -4i32,
        RsiReturnCode::ERROR_DEVICE => -5i32,
        RsiReturnCode::Other(v) => v,
    }
}

/// The return code that stands for `v`.
pub open spec fn return_code_of(v: i32) -> RsiReturnCode {
    if v == 0 {
        RsiReturnCode::SUCCESS
    } else if v == -1 {
        RsiReturnCode::ERROR_INPUT
    } else if v == -2 {
        RsiReturnCode::ERROR_STATE
    } else if v == -3 {
        RsiReturnCode::INCOMPLETE
    } else if v == -4 {
        RsiReturnCode::ERROR_UNKNOWN
    } else if v == -5 {
        RsiReturnCode::ERROR_DEVICE
    } else {
        RsiReturnCode::Other(v)
    }
}

/// The name under which a return code is shown; `None` for an unnamed one.
pub open spec fn return_code_name(c: RsiReturnCode) -> Option<Seq<char>> {
    let v = return_code_value(c);
    if v == 0 {
        Some("SUCCESS"@)
    } else if v == -1 {
        Some("ERROR_INPUT"@)
    } else if v == -2 {
        Some("ERROR_STATE"@)
    } else if v == -3 {
        Some("INCOMPLETE"@)
    } else if v == -4 {
        Some("ERROR_UNKNOWN"@)
    } else if v == -5 {
        Some("ERROR_DEVICE"@)
    } else {
        None
    }
}

/// The decimal digits of `n`.
pub open spec fn decimal_digits(n: nat) -> Seq<char>
    decreases n,
{
    let d = ((n % 10) + 48) as char;
    if n < 10 {
        seq![d]
    } else {
        decimal_digits(n / 10).push(d)
    }
}

/// The decimal text of `v`, with a leading '-' where it is negative.
pub open spec fn decimal_text(v: int) -> Seq<char> {
    if v < 0 {
        seq!['-'] + decimal_digits((-v) as nat)
    } else {
        decimal_digits(v as nat)
    }
}

/// How a return code is shown: its name, or `Unknown(<number>)`.
pub open spec fn return_code_text(c: RsiReturnCode) -> Seq<char> {
    match return_code_name(c) {
        Some(name) => name,
        None => "Unknown("@ + decimal_text(return_code_value(c) as int) + ")"@,
    }
}

/// The text of the decimal digit `d`.
fn digit_text(d: u64) -> (r: &'static str)
    requires
        d < 10,
    ensures
        r@ == seq![(d + 48) as char],
{
    proof {
        reveal_strlit("0");
        reveal_strlit("1");
        reveal_strlit("2");
        reveal_strlit("3");
        reveal_strlit("4");
        reveal_strlit("5");
        reveal_strlit("6");
        reveal_strlit("7");
        reveal_strlit("8");
        reveal_strlit("9");
    }
    if d == 0 {
        "0"
    } else if d == 1 {
        "1"
    } else if d == 2 {
        "2"
    } else if d == 3 {
        "3"
    } else if d == 4 {
        "4"
    } else if d == 5 {
        "5"
    } else if d == 6 {
        "6"
    } else if d == 7 {
        "7"
    } else if d == 8 {
        "8"
    } else {
        "9"
    }
}

/// Appends the decimal digits of `n` to `s`.
fn append_digits(s: &mut String, n: u64)
    ensures
        final(s)@ == old(s)@ + decimal_digits(n as nat),
    decreases n,
{
    if n >= 10 {
        append_digits(s, n / 10);
    }
    s.append(digit_text(n % 10));
    assert(s@ =~= old(s)@ + decimal_digits(n as nat));
}

/// Decimal text of `v`, with a leading '-' where it is negative.
fn i32_decimal(v: i32) -> (r: String)
    ensures
        r@ == decimal_text(v as int),
{
    let mut s = String::from_str("");
    proof {
        reveal_strlit("");
        reveal_strlit("-");
    }
    if v < 0 {
        s.append("-");
        let magnitude: u64 = (0i64 - (v as i64)) as u64;
        append_digits(&mut s, magnitude);
        assert(s@ =~= decimal_text(v as int));
    } else {
        append_digits(&mut s, v as u64);
        assert(s@ =~= decimal_text(v as int));
    }
    s
}

impl RsiReturnCode {
    /// The number that this code stands for.
    pub fn code(&self) -> (r: i32)
        ensures
            r == return_code_value(*self),
    {
        match *self {
            RsiReturnCode::SUCCESS => 0,
            RsiReturnCode::ERROR_INPUT => -1,
            RsiReturnCode::ERROR_STATE => -2,
            RsiReturnCode::INCOMPLETE => -3,
            RsiReturnCode::ERROR_UNKNOWN => -4,
            RsiReturnCode::ERROR_DEVICE => -5,
            RsiReturnCode::Other(v) => v,
        }
    }

    /// The return code for the number `v`: the named code where there is
    /// one, else `Other(v)`.
    pub fn from_code(v: i32) -> (r: RsiReturnCode)
        ensures
            r == return_code_of(v),
            return_code_value(r) == v,
    {
        if v == 0 {
            RsiReturnCode::SUCCESS
        } else if v == -1 {
            RsiReturnCode::ERROR_INPUT
        } else if v == -2 {
            RsiReturnCode::ERROR_STATE
        } else if v == -3 {
            RsiReturnCode::INCOMPLETE
        } else if v == -4 {
            RsiReturnCode::ERROR_UNKNOWN
        } else if v == -5 {
            RsiReturnCode::ERROR_DEVICE
        } else {
            RsiReturnCode::Other(v)
        }
    }

    /// The text under which this code is shown: the name of a named code,
    /// `Unknown(<number>)` for any other.
    pub fn to_string(&self) -> (r: String)
        ensures
            r@ == return_code_text(*self),
    {
        let v = self.code();
        if v == 0 {
            String::from_str("SUCCESS")
        } else if v == -1 {
            String::from_str("ERROR_INPUT")
        } else if v == -2 {
            String::from_str("ERROR_STATE")
        } else if v == -3 {
            String::from_str("INCOMPLETE")
        } else if v == -4 {
            String::from_str("ERROR_UNKNOWN")
        } else if v == -5 {
            String::from_str("ERROR_DEVICE")
        } else {
            let mut s = String::from_str("Unknown(");
            let digits = i32_decimal(v);
            s.append(digits.as_str());
            s.append(")");
            s
        }
    }
}

impl PartialEq for RsiReturnCode {
    fn eq(&self, other: &Self) -> (r: bool) {
        self.code() == other.code()
    }
}

impl PartialEqSpecImpl for RsiReturnCode {
    open spec fn obeys_eq_spec() -> bool {
        true
    }

    open spec fn eq_spec(&self, other: &Self) -> bool {
        return_code_value(*self) == return_code_value(*other)
    }
}

impl Eq for RsiReturnCode {

}

/// Whether `c` is the one value that stands for its number: an `Other`
/// never carries the number of a named code.
pub open spec fn is_canonical_code(c: RsiReturnCode) -> bool {
    c matches RsiReturnCode::Other(w) ==> !(-5 <= w <= 0)
}

/// Every number comes back from the return code that stands for it, that
/// code is canonical, and every canonical code comes back from its number.
pub proof fn lemma_return_code_round_trip(v: i32, c: RsiReturnCode)
    ensures
        return_code_value(return_code_of(v)) == v,
        is_canonical_code(return_code_of(v)),
        is_canonical_code(c) ==> return_code_of(return_code_value(c)) == c,
{
}

/// Input registers of an RSI call.
#[derive(Clone, Copy, Debug)]
pub struct RsiInput {
    /// The RSI command to execute.
    pub command: RsiCommand,
    /// Input arguments in registers X1-X7.
    pub args: [u64; 7],
}

/// Whether `input` carries `command` with the arguments `args` in X1..X7.
pub open spec fn carries(input: RsiInput, command: RsiCommand, args: Seq<u64>) -> bool {
    &&& input.command == command
    &&& input.args@ == args
}

/// Seven argument registers: `prefix`, then zeros.
pub open spec fn args_with(prefix: Seq<u64>) -> Seq<u64> {
    prefix + Seq::new((7 - prefix.len()) as nat, |i: int| 0u64)
}

impl RsiInput {
    /// A call of `command` with every argument zero.
    pub fn new(command: RsiCommand) -> (r: Self)
        ensures
            carries(r, command, args_with(seq![])),
    {
        let r = RsiInput { command, args: [0u64; 7] };
        assert(r.args@ =~= args_with(seq![]));
        r
    }

    /// This call with argument `index` (0-6 for X1-X7) set to `value`.
    /// Fails with `InvalidInput` where `index` is 7 or more.
    pub fn with_arg(self, index: usize, value: u64) -> (r: Result<Self, RsiError>)
        ensures
            index >= 7 ==> r == Err::<RsiInput, RsiError>(RsiError::InvalidInput),
            index < 7 ==> (r matches Ok(i) && i.command == self.command && i.args@ == self.args@.update(
                index as int,
                value,
            )),
    {
        if index >= 7 {
            return Err(RsiError::InvalidInput);
        }
        let mut s = self;
        s.args[index] = value;
        Ok(s)
    }
}

/// Output registers of an RSI call.
#[derive(Clone, Copy, Debug)]
pub struct RsiOutput {
    /// Return code in X0.
    pub return_code: RsiReturnCode,
    /// Output values in registers X1-X7.
    pub results: [u64; 7],
}

impl RsiOutput {
    /// Whether the call returned `SUCCESS`.
    pub fn is_success(&self) -> (r: bool)
        ensures
            r == (return_code_value(self.return_code) == 0),
    {
        self.return_code.code() == 0
    }

    /// Result register `index` (0-6 for X1-X7). Fails with `InvalidInput`
    /// where `index` is 7 or more.
    pub fn result(&self, index: usize) -> (r: Result<u64, RsiError>)
        ensures
            index >= 7 ==> r == Err::<u64, RsiError>(RsiError::InvalidInput),
            index < 7 ==> r == Ok::<u64, RsiError>(self.results[index as int]),
    {
        if index >= 7 {
            return Err(RsiError::InvalidInput);
        }
        Ok(self.results[index])
    }
}

/// Error type for RSI operations. Two errors are equal when they are the
/// same variant and, for `RsiError`, their codes stand for the same number.
#[derive(Clone, Copy, Debug)]
pub enum RsiError {
    /// The RSI call returned an error code.
    RsiError(RsiReturnCode),
    /// Invalid input parameters to a high-level function.
    InvalidInput,
    /// Operation not supported.
    NotSupported,
}

/// Whether two errors are equal: the same variant, and for `RsiError`
/// codes that stand for the same number.
pub open spec fn rsi_errors_equal(a: RsiError, b: RsiError) -> bool {
    match (a, b) {
        (RsiError::RsiError(x), RsiError::RsiError(y)) => return_code_value(x) == return_code_value(y),
        (RsiError::InvalidInput, RsiError::InvalidInput) => true,
        (RsiError::NotSupported, RsiError::NotSupported) => true,
        _ => false,
    }
}

impl PartialEq for RsiError {
    fn eq(&self, other: &Self) -> (r: bool) {
        match (self, other) {
            (RsiError::RsiError(x), RsiError::RsiError(y)) => x.code() == y.code(),
            (RsiError::InvalidInput, RsiError::InvalidInput) => true,
            (RsiError::NotSupported, RsiError::NotSupported) => true,
            _ => false,
        }
    }
}

impl PartialEqSpecImpl for RsiError {
    open spec fn obeys_eq_spec() -> bool {
        true
    }

    open spec fn eq_spec(&self, other: &Self) -> bool {
        rsi_errors_equal(*self, *other)
    }
}

impl Eq for RsiError {

}

/// How an error is shown.
pub open spec fn rsi_error_text(e: RsiError) -> Seq<char> {
    match e {
        RsiError::RsiError(code) => "RSI error: "@ + return_code_text(code),
        RsiError::InvalidInput => "Invalid input"@,
        RsiError::NotSupported => "Not supported"@,
    }
}

impl RsiError {
    /// The text under which this error is shown.
    pub fn to_string(&self) -> (r: String)
        ensures
            r@ == rsi_error_text(*self),
    {
        match self {
            RsiError::RsiError(code) => {
                let mut s = String::from_str("RSI error: ");
                let t = code.to_string();
                s.append(t.as_str());
                s
            },
            RsiError::InvalidInput => String::from_str("Invalid input"),
            RsiError::NotSupported => String::from_str("Not supported"),
        }
    }
}

impl From<RsiReturnCode> for RsiError {
    fn from(code: RsiReturnCode) -> (r: Self) {
        RsiError::RsiError(code)
    }
}

impl vstd::std_specs::convert::FromSpecImpl<RsiReturnCode> for RsiError {
    open spec fn obeys_from_spec() -> bool {
        true
    }

    open spec fn from_spec(code: RsiReturnCode) -> Self {
        RsiError::RsiError(code)
    }
}

/// IPA (Intermediate Physical Address) state.
#[derive(Clone, Copy, Debug, PartialEq, Eq, Structural)]
pub enum IpaState {
    /// The IPA is not assigned to the realm (0).
    Empty,
    /// The IPA was assigned but is now destroyed (1).
    Destroyed,
    /// The IPA is shared with the host (2).
    Shared,
}

/// The number that an IPA state is passed as.
pub open spec fn ipa_state_value(s: IpaState) -> u64 {
    match s {
        IpaState::Empty => 0,
        IpaState::Destroyed => 1,
        IpaState::Shared => 2,
    }
}

/// The IPA state that the number `v` stands for, if any.
pub open spec fn ipa_state_of(v: u64) -> Option<IpaState> {
    if v == 0 {
        Some(IpaState::Empty)
    } else if v == 1 {
        Some(IpaState::Destroyed)
    } else if v == 2 {
        Some(IpaState::Shared)
    } else {
        None
    }
}

impl IpaState {
    /// The number that this state is passed as.
    pub fn value(self) -> (r: u64)
        ensures
            r == ipa_state_value(self),
    {
        match self {
            IpaState::Empty => 0,
            IpaState::Destroyed => 1,
            IpaState::Shared => 2,
        }
    }
}

/// Hash algorithm used for realm measurements.
#[derive(Clone, Copy, Debug, PartialEq, Eq, Structural)]
pub enum HashAlgorithm {
    /// SHA-256 (0).
    Sha256,
    /// SHA-512 (1).
    Sha512,
}

/// The hash algorithm that the number `v` stands for, if any.
pub open spec fn hash_algorithm_of(v: u64) -> Option<HashAlgorithm> {
    if v == 0 {
        Some(HashAlgorithm::Sha256)
    } else if v == 1 {
        Some(HashAlgorithm::Sha512)
    } else {
        None
    }
}

/// Realm configuration returned by RSI_REALM_CONFIG.
#[derive(Clone, Copy, Debug)]
pub struct RealmConfig {
    /// IPA width in bits (e.g., 40 means a 1TB address space).
    pub ipa_width: u8,
    /// Hash algorithm used for measurements.
    pub hash_algorithm: HashAlgorithm,
}

impl RealmConfig {
    /// The VTOM (Virtual Top of Memory) bit position: for IPA width N, bit
    /// N-1. This is the bit that tells shared from private memory.
    pub fn vtom_bit(&self) -> (r: u8)
        requires
            self.ipa_width >= 1,
        ensures
            r == self.ipa_width - 1,
    {
        self.ipa_width - 1
    }

    /// The VTOM mask: the single bit `vtom_bit`. Or-ing it into an address
    /// makes the address shared.
    pub fn vtom_mask(&self) -> (r: u64)
        requires
            1 <= self.ipa_width <= 64,
        ensures
            r == 1u64 << (self.ipa_width - 1) as u64,
    {
        1u64 << self.vtom_bit()
    }
}

/// The VTOM mask has exactly one bit set, and that bit lies below the IPA
/// width: every address of the IPA space either has it or not, and or-ing
/// it in twice changes nothing.
pub proof fn lemma_vtom_mask_single_bit(ipa_width: u8, addr: u64)
    requires
        1 <= ipa_width <= 64,
    ensures
        ({
            let m = 1u64 << (ipa_width - 1) as u64;
            &&& m != 0
            &&& m & ((m - 1) as u64) == 0
            &&& (ipa_width < 64 ==> m < (1u64 << ipa_width as u64))
            &&& ((addr | m) | m) == addr | m
            &&& (addr | m) & m == m
        }),
{
    let b = (ipa_width - 1) as u64;
    let w = ipa_width as u64;
    assert(b < 64 ==> (1u64 << b) != 0 && (1u64 << b) & (((1u64 << b) - 1) as u64) == 0) by (bit_vector);
    assert(b < 63 && w == b + 1 ==> (1u64 << b) < (1u64 << w)) by (bit_vector);
    assert(b < 64 ==> ((addr | (1u64 << b)) | (1u64 << b)) == addr | (1u64 << b)) by (bit_vector);
    assert(b < 64 ==> (addr | (1u64 << b)) & (1u64 << b) == (1u64 << b)) by (bit_vector);
}


/// The numbers of the named return codes, as the ARM CCA firmware
/// specification gives them, and the numbers that the IPA states are
/// passed as; distinct codes stand for distinct numbers.
pub proof fn lemma_code_and_state_numbers(a: RsiReturnCode, b: RsiReturnCode, s: IpaState, t: IpaState)
    ensures
        return_code_value(RsiReturnCode::SUCCESS) == 0,
        return_code_value(RsiReturnCode::ERROR_INPUT) == -1,
        return_code_value(RsiReturnCode::ERROR_STATE) == -2,
        return_code_value(RsiReturnCode::INCOMPLETE) == -3,
        return_code_value(RsiReturnCode::ERROR_UNKNOWN) == -4,
        return_code_value(RsiReturnCode::ERROR_DEVICE) == -5,
        is_canonical_code(a) && is_canonical_code(b) && return_code_value(a) == return_code_value(b)
            ==> a == b,
        ipa_state_value(IpaState::Empty) == 0,
        ipa_state_value(IpaState::Destroyed) == 1,
        ipa_state_value(IpaState::Shared) == 2,
        ipa_state_value(s) == ipa_state_value(t) ==> s == t,
        hash_algorithm_of(0) == Some(HashAlgorithm::Sha256),
        hash_algorithm_of(1) == Some(HashAlgorithm::Sha512),
        hash_algorithm_of(2) is None,
{
}

} // verus!
