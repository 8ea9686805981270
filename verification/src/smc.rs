//! SMC Calling Convention function identifiers and the RSI command set.
//!
//! An SMCCC function identifier is a 32-bit word:
//!
//! | Bits    | Field                                   |
//! |---------|-----------------------------------------|
//! | 0..16   | function number within the service      |
//! | 16..24  | reserved, zero                          |
//! | 24..30  | service owner                           |
//! | 30      | 64-bit calling convention (SMC64)       |
//! | 31      | fast call (1) or yielding call (0)      |
//!
//! The RSI commands are fast SMC64 calls of the standard secure service
//! owner, so each of them reads `0xC400_0000 | function_number`.
use vstd::prelude::*;
use vstd::std_specs::cmp::PartialEqSpecImpl;

verus! {

/// Mask of the six-bit service owner field, before it is shifted into place.
pub const OWNER_MASK: u8 = 0x3f;

/// Service owner number of the standard secure service calls, which hold RSI.
pub const RSI_SERVICE_OWNER: u8 = 0x04;

/// A 32-bit SMCCC function identifier.
#[derive(Clone, Copy, Debug, PartialEq, Eq, PartialOrd, Ord, Hash, Structural)]
pub struct SmcFunctionId(u32);

impl View for SmcFunctionId {
    type V = u32;

    closed spec fn view(&self) -> u32 {
        self.0
    }
}

/// Function number held in the identifier `bits`.
pub open spec fn function_num_of(bits: u32) -> u16 {
    (bits & 0xffff) as u16
}

/// Service owner held in the identifier `bits`.
pub open spec fn owner_of(bits: u32) -> u8 {
    ((bits >> 24u32) & 0x3f) as u8
}

/// Whether the identifier `bits` asks for the 64-bit calling convention.
pub open spec fn is_smc64_of(bits: u32) -> bool {
    (bits >> 30u32) & 1 == 1
}

/// Whether the identifier `bits` is a fast call.
pub open spec fn is_fast_of(bits: u32) -> bool {
    (bits >> 31u32) & 1 == 1
}

/// The reserved bits 16..24 of the identifier `bits`.
pub open spec fn reserved_of(bits: u32) -> u32 {
    (bits >> 16u32) & 0xff
}

impl SmcFunctionId {
    /// An identifier with every field zero.
    pub fn new() -> (r: Self)
        ensures
            r@ == 0,
    {
        SmcFunctionId(0)
    }

    /// The identifier whose word is `bits`.
    pub fn from_bits(bits: u32) -> (r: Self)
        ensures
            r@ == bits,
    {
        SmcFunctionId(bits)
    }

    /// The 32-bit word of this identifier.
    pub fn into_bits(self) -> (r: u32)
        ensures
            r == self@,
    {
        self.0
    }

    /// Function number within the service (bits 0..16).
    pub fn function_num(&self) -> (r: u16)
        ensures
            r == function_num_of(self@),
    {
        (self.0 & 0xffff) as u16
    }

    /// Service owner (bits 24..30).
    pub fn owner(&self) -> (r: u8)
        ensures
            r == owner_of(self@),
            r <= OWNER_MASK,
    {
        let v = self.0;
        assert((v >> 24u32) & 0x3f <= 0x3f) by (bit_vector);
        ((self.0 >> 24u32) & 0x3f) as u8
    }

    /// 64-bit calling convention flag (bit 30).
    pub fn is_smc64(&self) -> (r: bool)
        ensures
            r == is_smc64_of(self@),
    {
        (self.0 >> 30u32) & 1 == 1
    }

    /// Fast call flag (bit 31).
    pub fn is_fast(&self) -> (r: bool)
        ensures
            r == is_fast_of(self@),
    {
        (self.0 >> 31u32) & 1 == 1
    }

    /// This identifier with its function number replaced by `value`; the
    /// other fields keep their values.
    pub fn with_function_num(self, value: u16) -> (r: Self)
        ensures
            r@ == (self@ & 0xffff_0000u32) | (value as u32),
            function_num_of(r@) == value,
            owner_of(r@) == owner_of(self@),
            is_smc64_of(r@) == is_smc64_of(self@),
            is_fast_of(r@) == is_fast_of(self@),
            reserved_of(r@) == reserved_of(self@),
    {
        let old_bits = self.0;
        let v = value as u32;
        let bits = (old_bits & 0xffff_0000u32) | v;
        assert(v <= 0xffff ==> {
            &&& ((((old_bits & 0xffff_0000u32) | v) & 0xffff) == v)
            &&& ((((old_bits & 0xffff_0000u32) | v) >> 24u32) & 0x3f) == ((old_bits >> 24u32) & 0x3f)
            &&& ((((old_bits & 0xffff_0000u32) | v) >> 30u32) & 1) == ((old_bits >> 30u32) & 1)
            &&& ((((old_bits & 0xffff_0000u32) | v) >> 31u32) & 1) == ((old_bits >> 31u32) & 1)
            &&& ((((old_bits & 0xffff_0000u32) | v) >> 16u32) & 0xff) == ((old_bits >> 16u32) & 0xff)
        }) by (bit_vector);
        SmcFunctionId(bits)
    }

    /// This identifier with its service owner replaced by `value`; the other
    /// fields keep their values. The owner field is six bits wide.
    pub fn with_owner(self, value: u8) -> (r: Self)
        requires
            value <= OWNER_MASK,
        ensures
            r@ == (self@ & 0xc0ff_ffffu32) | ((value as u32) << 24u32),
            owner_of(r@) == value,
            function_num_of(r@) == function_num_of(self@),
            is_smc64_of(r@) == is_smc64_of(self@),
            is_fast_of(r@) == is_fast_of(self@),
            reserved_of(r@) == reserved_of(self@),
    {
        let old_bits = self.0;
        let v = value as u32;
        let bits = (old_bits & 0xc0ff_ffffu32) | (v << 24u32);
        assert(v <= 0x3f ==> {
            &&& ((((old_bits & 0xc0ff_ffffu32) | (v << 24u32)) >> 24u32) & 0x3f) == v
            &&& (((old_bits & 0xc0ff_ffffu32) | (v << 24u32)) & 0xffff) == (old_bits & 0xffff)
            &&& ((((old_bits & 0xc0ff_ffffu32) | (v << 24u32)) >> 30u32) & 1) == ((old_bits >> 30u32) & 1)
            &&& ((((old_bits & 0xc0ff_ffffu32) | (v << 24u32)) >> 31u32) & 1) == ((old_bits >> 31u32) & 1)
            &&& ((((old_bits & 0xc0ff_ffffu32) | (v << 24u32)) >> 16u32) & 0xff) == ((old_bits >> 16u32) & 0xff)
        }) by (bit_vector);
        SmcFunctionId(bits)
    }

    /// Like `with_owner`, but refuses an owner that does not fit the
    /// six-bit field instead of panicking.
    pub fn with_owner_checked(self, value: u8) -> (r: Result<Self, ()>)
        ensures
            value > OWNER_MASK ==> r is Err,
            value <= OWNER_MASK ==> (r matches Ok(id) && id@ == (self@ & 0xc0ff_ffffu32) | ((value as u32) << 24u32)),
    {
        if value > OWNER_MASK {
            Err(())
        } else {
            Ok(self.with_owner(value))
        }
    }

    /// This identifier with its SMC64 flag set to `value`; the other fields
    /// keep their values.
    pub fn with_is_smc64(self, value: bool) -> (r: Self)
        ensures
            r@ == (self@ & 0xbfff_ffffu32) | (if value { 0x4000_0000u32 } else { 0u32 }),
            is_smc64_of(r@) == value,
            function_num_of(r@) == function_num_of(self@),
            owner_of(r@) == owner_of(self@),
            is_fast_of(r@) == is_fast_of(self@),
            reserved_of(r@) == reserved_of(self@),
    {
        let old_bits = self.0;
        let bit: u32 = if value { 0x4000_0000u32 } else { 0u32 };
        let bits = (old_bits & 0xbfff_ffffu32) | bit;
        assert((bit == 0x4000_0000u32 || bit == 0) ==> {
            &&& ((((old_bits & 0xbfff_ffffu32) | bit) >> 30u32) & 1 == 1) == (bit == 0x4000_0000u32)
            &&& (((old_bits & 0xbfff_ffffu32) | bit) & 0xffff) == (old_bits & 0xffff)
            &&& ((((old_bits & 0xbfff_ffffu32) | bit) >> 24u32) & 0x3f) == ((old_bits >> 24u32) & 0x3f)
            &&& ((((old_bits & 0xbfff_ffffu32) | bit) >> 31u32) & 1) == ((old_bits >> 31u32) & 1)
            &&& ((((old_bits & 0xbfff_ffffu32) | bit) >> 16u32) & 0xff) == ((old_bits >> 16u32) & 0xff)
        }) by (bit_vector);
        SmcFunctionId(bits)
    }

    /// This identifier with its fast-call flag set to `value`; the other
    /// fields keep their values.
    pub fn with_is_fast(self, value: bool) -> (r: Self)
        ensures
            r@ == (self@ & 0x7fff_ffffu32) | (if value { 0x8000_0000u32 } else { 0u32 }),
            is_fast_of(r@) == value,
            function_num_of(r@) == function_num_of(self@),
            owner_of(r@) == owner_of(self@),
            is_smc64_of(r@) == is_smc64_of(self@),
            reserved_of(r@) == reserved_of(self@),
    {
        let old_bits = self.0;
        let bit: u32 = if value { 0x8000_0000u32 } else { 0u32 };
        let bits = (old_bits & 0x7fff_ffffu32) | bit;
        assert((bit == 0x8000_0000u32 || bit == 0) ==> {
            &&& ((((old_bits & 0x7fff_ffffu32) | bit) >> 31u32) & 1 == 1) == (bit == 0x8000_0000u32)
            &&& (((old_bits & 0x7fff_ffffu32) | bit) & 0xffff) == (old_bits & 0xffff)
            &&& ((((old_bits & 0x7fff_ffffu32) | bit) >> 24u32) & 0x3f) == ((old_bits >> 24u32) & 0x3f)
            &&& ((((old_bits & 0x7fff_ffffu32) | bit) >> 30u32) & 1) == ((old_bits >> 30u32) & 1)
            &&& ((((old_bits & 0x7fff_ffffu32) | bit) >> 16u32) & 0xff) == ((old_bits >> 16u32) & 0xff)
        }) by (bit_vector);
        SmcFunctionId(bits)
    }
}

/// The word of a fast SMC64 call of the RSI service owner with function
/// number `function_num`.
pub open spec fn rsi_call_bits(function_num: u16) -> u32 {
    0xC400_0000u32 | (function_num as u32)
}

/// Every field of an identifier is determined by its word, and the word by
/// its fields: two identifiers with the same function number, owner, flags
/// and reserved bits are the same identifier.
pub proof fn lemma_fields_determine_bits(a: SmcFunctionId, b: SmcFunctionId)
    requires
        function_num_of(a@) == function_num_of(b@),
        owner_of(a@) == owner_of(b@),
        is_smc64_of(a@) == is_smc64_of(b@),
        is_fast_of(a@) == is_fast_of(b@),
        reserved_of(a@) == reserved_of(b@),
    ensures
        a == b,
{
    let x = a@;
    let y = b@;
    assert(((x & 0xffff) as u16 == (y & 0xffff) as u16 && ((x >> 24u32) & 0x3f) as u8 == ((y
        >> 24u32) & 0x3f) as u8 && ((x >> 30u32) & 1 == 1) == ((y >> 30u32) & 1 == 1) && ((x
        >> 31u32) & 1 == 1) == ((y >> 31u32) & 1 == 1) && (x >> 16u32) & 0xff == (y >> 16u32)
        & 0xff) ==> x == y) by (bit_vector);
}

/// RSI command identifiers.
///
/// Each named command stands for the SMCCC function identifier that the
/// ARM CCA firmware specification assigns it; `Other` carries any other
/// identifier. Two commands are equal when their identifier words are, so
/// `Other` of the VERSION identifier equals `VERSION`.
#[allow(non_camel_case_types)]
#[derive(Clone, Copy, Debug)]
pub enum RsiCommand {
    /// Query the RSI version. Returns (lower, higher) version in X1.
    VERSION,
    /// Query an RSI feature register. Input: feature index in X1.
    FEATURES,
    /// Get the realm configuration. Returns IPA width and hash algorithm.
    REALM_CONFIG,
    /// Set the state of an IPA range. Input: base, top, state, flags.
    IPA_STATE_SET,
    /// Get the state of an IPA. Input: IPA in X1.
    IPA_STATE_GET,
    /// Call the host. Input and output: X1..X7.
    HOST_CALL,
    /// Get a memory permission value. Input: permission index in X1.
    MEM_GET_PERM_VALUE,
    /// Set the permission index of a range. Input: base, top, index.
    MEM_SET_PERM_INDEX,
    /// Set a memory permission value. Input: index, value.
    MEM_SET_PERM_VALUE,
    /// Enter a lower privilege plane. Input: plane_run address in X1.
    PLANE_ENTER,
    /// Read a plane system register. Input: register encoding in X1.
    PLANE_SYSREG_READ,
    /// Write a plane system register. Input: register encoding, value.
    PLANE_SYSREG_WRITE,
    /// Any identifier that is not one of the named commands.
    Other(SmcFunctionId),
}

/// Function number of each named command; `None` for `Other`.
pub open spec fn command_function_num(c: RsiCommand) -> Option<u16> {
    match c {
        RsiCommand::VERSION => Some(0x190u16),
        RsiCommand::FEATURES => Some(0x191u16),
        RsiCommand::REALM_CONFIG => Some(0x196u16),
        RsiCommand::IPA_STATE_SET => Some(0x197u16),
        RsiCommand::IPA_STATE_GET => Some(0x198u16),
        RsiCommand::HOST_CALL => Some(0x199u16),
        RsiCommand::MEM_GET_PERM_VALUE => Some(0x1A0u16),
        RsiCommand::MEM_SET_PERM_INDEX => Some(0x1A1u16),
        RsiCommand::MEM_SET_PERM_VALUE => Some(0x1A2u16),
        RsiCommand::PLANE_ENTER => Some(0x1A3u16),
        RsiCommand::PLANE_SYSREG_READ => Some(0x1AEu16),
        RsiCommand::PLANE_SYSREG_WRITE => Some(0x1AFu16),
        RsiCommand::Other(_) => None,
    }
}

/// The identifier word of a command.
pub open spec fn command_bits(c: RsiCommand) -> u32 {
    match c {
        RsiCommand::Other(id) => id@,
        _ => rsi_call_bits(command_function_num(c).unwrap()),
    }
}

/// Whether `c` is the one value that stands for its identifier: an `Other`
/// never carries the identifier of a named command.
pub open spec fn is_canonical_command(c: RsiCommand) -> bool {
    c matches RsiCommand::Other(id) ==> !exists|k: RsiCommand| #![trigger command_function_num(k)]
        command_function_num(k) is Some && rsi_call_bits(command_function_num(k).unwrap()) == id@
}

/// The function number of a named command.
fn function_number(c: RsiCommand) -> (r: u16)
    requires
        command_function_num(c) is Some,
    ensures
        Some(r) == command_function_num(c),
{
    match c {
        RsiCommand::VERSION => 0x190,
        RsiCommand::FEATURES => 0x191,
        RsiCommand::REALM_CONFIG => 0x196,
        RsiCommand::IPA_STATE_SET => 0x197,
        RsiCommand::IPA_STATE_GET => 0x198,
        RsiCommand::HOST_CALL => 0x199,
        RsiCommand::MEM_GET_PERM_VALUE => 0x1A0,
        RsiCommand::MEM_SET_PERM_INDEX => 0x1A1,
        RsiCommand::MEM_SET_PERM_VALUE => 0x1A2,
        RsiCommand::PLANE_ENTER => 0x1A3,
        RsiCommand::PLANE_SYSREG_READ => 0x1AE,
        RsiCommand::PLANE_SYSREG_WRITE => 0x1AF,
        RsiCommand::Other(_) => 0,
    }
}

impl RsiCommand {
    /// The SMCCC function identifier of this command. A named command is a
    /// fast SMC64 call of the standard secure service owner with its
    /// function number.
    pub fn id(&self) -> (r: SmcFunctionId)
        ensures
            r@ == command_bits(*self),
            command_function_num(*self) matches Some(n) ==> {
                &&& function_num_of(r@) == n
                &&& owner_of(r@) == RSI_SERVICE_OWNER
                &&& is_fast_of(r@)
                &&& is_smc64_of(r@)
                &&& reserved_of(r@) == 0
            },
    {
        match *self {
            RsiCommand::Other(id) => id,
            _ => {
                let n = function_number(*self);
                let r = SmcFunctionId::new().with_owner(RSI_SERVICE_OWNER).with_is_fast(
                    true,
                ).with_is_smc64(true).with_function_num(n);
                let nb = n as u32;
                assert(((((0u32 & 0xc0ff_ffffu32) | (4u32 << 24u32)) & 0x7fff_ffffu32) | 0x8000_0000u32)
                    == 0x8400_0000u32) by (bit_vector);
                assert((((0x8400_0000u32 & 0xbfff_ffffu32) | 0x4000_0000u32) & 0xffff_0000u32) | nb
                    == 0xC400_0000u32 | nb) by (bit_vector);
                assert(nb <= 0xffff ==> {
                    &&& ((0xC400_0000u32 | nb) & 0xffff) as u16 == nb as u16
                    &&& (((0xC400_0000u32 | nb) >> 24u32) & 0x3f) as u8 == 4u8
                    &&& ((0xC400_0000u32 | nb) >> 30u32) & 1 == 1
                    &&& ((0xC400_0000u32 | nb) >> 31u32) & 1 == 1
                    &&& ((0xC400_0000u32 | nb) >> 16u32) & 0xff == 0
                }) by (bit_vector);
                r
            },
        }
    }

    /// The command that stands for identifier `id`: the named command with
    /// that identifier, or `Other(id)` where none has it.
    pub fn from_id(id: SmcFunctionId) -> (r: RsiCommand)
        ensures
            r.id_bits() == id@,
            is_canonical_command(r),
    {
        let bits = id.into_bits();
        proof {
            lemma_rsi_call_bits_values();
        }
        if bits == 0xC400_0190 {
            RsiCommand::VERSION
        } else if bits == 0xC400_0191 {
            RsiCommand::FEATURES
        } else if bits == 0xC400_0196 {
            RsiCommand::REALM_CONFIG
        } else if bits == 0xC400_0197 {
            RsiCommand::IPA_STATE_SET
        } else if bits == 0xC400_0198 {
            RsiCommand::IPA_STATE_GET
        } else if bits == 0xC400_0199 {
            RsiCommand::HOST_CALL
        } else if bits == 0xC400_01A0 {
            RsiCommand::MEM_GET_PERM_VALUE
        } else if bits == 0xC400_01A1 {
            RsiCommand::MEM_SET_PERM_INDEX
        } else if bits == 0xC400_01A2 {
            RsiCommand::MEM_SET_PERM_VALUE
        } else if bits == 0xC400_01A3 {
            RsiCommand::PLANE_ENTER
        } else if bits == 0xC400_01AE {
            RsiCommand::PLANE_SYSREG_READ
        } else if bits == 0xC400_01AF {
            RsiCommand::PLANE_SYSREG_WRITE
        } else {
            proof {
                assert forall|k: RsiCommand| #![trigger command_function_num(k)]
                    command_function_num(k) is Some implies rsi_call_bits(
                    command_function_num(k).unwrap(),
                ) != bits by {
                    lemma_rsi_call_bits_values();
                }
            }
            RsiCommand::Other(id)
        }
    }

    /// The identifier word of this command, in specifications.
    pub open spec fn id_bits(self) -> u32 {
        command_bits(self)
    }
}

impl PartialEq for RsiCommand {
    fn eq(&self, other: &Self) -> (r: bool) {
        self.id().into_bits() == other.id().into_bits()
    }
}

impl PartialEqSpecImpl for RsiCommand {
    open spec fn obeys_eq_spec() -> bool {
        true
    }

    open spec fn eq_spec(&self, other: &Self) -> bool {
        command_bits(*self) == command_bits(*other)
    }
}

impl Eq for RsiCommand {

}

/// The identifier words of the named commands, as the ARM CCA firmware
/// specification lists them.
pub proof fn lemma_rsi_call_bits_values()
    ensures
        rsi_call_bits(0x190) == 0xC400_0190u32,
        rsi_call_bits(0x191) == 0xC400_0191u32,
        rsi_call_bits(0x196) == 0xC400_0196u32,
        rsi_call_bits(0x197) == 0xC400_0197u32,
        rsi_call_bits(0x198) == 0xC400_0198u32,
        rsi_call_bits(0x199) == 0xC400_0199u32,
        rsi_call_bits(0x1A0) == 0xC400_01A0u32,
        rsi_call_bits(0x1A1) == 0xC400_01A1u32,
        rsi_call_bits(0x1A2) == 0xC400_01A2u32,
        rsi_call_bits(0x1A3) == 0xC400_01A3u32,
        rsi_call_bits(0x1AE) == 0xC400_01AEu32,
        rsi_call_bits(0x1AF) == 0xC400_01AFu32,
{
    assert(0xC400_0000u32 | 0x190u32 == 0xC400_0190u32) by (bit_vector);
    assert(0xC400_0000u32 | 0x191u32 == 0xC400_0191u32) by (bit_vector);
    assert(0xC400_0000u32 | 0x196u32 == 0xC400_0196u32) by (bit_vector);
    assert(0xC400_0000u32 | 0x197u32 == 0xC400_0197u32) by (bit_vector);
    assert(0xC400_0000u32 | 0x198u32 == 0xC400_0198u32) by (bit_vector);
    assert(0xC400_0000u32 | 0x199u32 == 0xC400_0199u32) by (bit_vector);
    assert(0xC400_0000u32 | 0x1A0u32 == 0xC400_01A0u32) by (bit_vector);
    assert(0xC400_0000u32 | 0x1A1u32 == 0xC400_01A1u32) by (bit_vector);
    assert(0xC400_0000u32 | 0x1A2u32 == 0xC400_01A2u32) by (bit_vector);
    assert(0xC400_0000u32 | 0x1A3u32 == 0xC400_01A3u32) by (bit_vector);
    assert(0xC400_0000u32 | 0x1AEu32 == 0xC400_01AEu32) by (bit_vector);
    assert(0xC400_0000u32 | 0x1AFu32 == 0xC400_01AFu32) by (bit_vector);
}

/// Distinct commands have distinct identifiers (among canonical values), so
/// a command is recovered from its identifier.
pub proof fn lemma_command_id_round_trip(c: RsiCommand)
    requires
        is_canonical_command(c),
    ensures
        forall|d: RsiCommand| #![trigger command_bits(d)]
            is_canonical_command(d) && command_bits(d) == command_bits(c) ==> d == c,
{
    lemma_rsi_call_bits_values();
    assert forall|d: RsiCommand| #![trigger command_bits(d)]
        is_canonical_command(d) && command_bits(d) == command_bits(c) implies d == c by {
        lemma_rsi_call_bits_values();
        match (c, d) {
            (RsiCommand::Other(a), RsiCommand::Other(b)) => {
                lemma_view_injective(a, b);
            },
            (RsiCommand::Other(a), _) => {
                assert(command_function_num(d) is Some);
            },
            (_, RsiCommand::Other(b)) => {
                assert(command_function_num(c) is Some);
            },
            _ => {},
        }
    }
}

/// Two identifiers with the same word are the same identifier.
pub proof fn lemma_view_injective(a: SmcFunctionId, b: SmcFunctionId)
    requires
        a@ == b@,
    ensures
        a == b,
{
}

} // verus!
