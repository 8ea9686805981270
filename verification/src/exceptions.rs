//! Synchronous exits of the lower plane: decoding of data aborts and MMIO
//! emulation.
//!
//! The exception syndrome register ESR_EL2 holds the exception class in
//! bits 26..32, the instruction length bit in bit 25 and the syndrome in
//! bits 0..25. For a data abort the syndrome holds: ISV (bit 24, the rest
//! is valid), SAS (bits 22..24, access size 1 << SAS bytes), SRT (bits
//! 16..21, the transfer register) and WnR (bit 6, a write).
use vstd::prelude::*;
use vstd::bytes::{spec_u64_from_le_bytes, spec_u64_to_le_bytes, u64_from_le_bytes, u64_to_le_bytes};
use crate::protocol::cca_rsi_plane_run;
use crate::run_loop::CcaRunLoopError;

verus! {

/// Exception class of a data abort taken from a lower exception level.
pub const EC_DATA_ABORT_LOWER: u8 = 0x24;

/// Exception class of a data abort taken without a change of level.
pub const EC_DATA_ABORT: u8 = 0x25;

/// Register number that stands for the zero register XZR.
pub const ZERO_REGISTER: u8 = 31;

/// Exception class of the syndrome `esr`.
pub open spec fn esr_ec(esr: u64) -> u8 {
    ((esr >> 26u64) & 0x3f) as u8
}

/// Instruction length bit of the syndrome `esr` (32-bit instruction).
pub open spec fn esr_il(esr: u64) -> bool {
    (esr >> 25u64) & 1 == 1
}

/// Instruction specific syndrome of `esr`.
pub open spec fn esr_iss(esr: u64) -> u32 {
    (esr & 0x1ff_ffff) as u32
}

/// Whether the exception class `ec` is a data abort.
pub open spec fn is_data_abort(ec: u8) -> bool {
    ec == EC_DATA_ABORT || ec == EC_DATA_ABORT_LOWER
}

/// ISV bit of a data abort syndrome.
pub open spec fn iss_isv(iss: u32) -> bool {
    (iss >> 24u32) & 1 == 1
}

/// SAS field of a data abort syndrome.
pub open spec fn iss_sas(iss: u32) -> u8 {
    ((iss >> 22u32) & 3) as u8
}

/// SRT field of a data abort syndrome.
pub open spec fn iss_srt(iss: u32) -> u8 {
    ((iss >> 16u32) & 0x1f) as u8
}

/// WnR bit of a data abort syndrome.
pub open spec fn iss_wnr(iss: u32) -> bool {
    (iss >> 6u32) & 1 == 1
}

/// ESR_EL2 value.
#[derive(Clone, Copy, Debug, PartialEq, Eq, Structural)]
pub struct EsrEl2(pub u64);

impl EsrEl2 {
    /// Exception class (bits 26..32).
    pub fn ec(&self) -> (r: u8)
        ensures
            r == esr_ec(self.0),
    {
        ((self.0 >> 26u64) & 0x3f) as u8
    }

    /// Instruction length bit (bit 25).
    pub fn il(&self) -> (r: bool)
        ensures
            r == esr_il(self.0),
    {
        (self.0 >> 25u64) & 1 == 1
    }

    /// Instruction specific syndrome (bits 0..25).
    pub fn iss(&self) -> (r: u32)
        ensures
            r == esr_iss(self.0),
    {
        (self.0 & 0x1ff_ffff) as u32
    }
}

/// Data abort instruction specific syndrome.
#[derive(Clone, Copy, Debug, PartialEq, Eq, Structural)]
pub struct IssDataAbort(pub u32);

impl IssDataAbort {
    /// Whether the remaining syndrome fields are valid (bit 24).
    pub fn isv(&self) -> (r: bool)
        ensures
            r == iss_isv(self.0),
    {
        (self.0 >> 24u32) & 1 == 1
    }

    /// Access size: 1 << SAS bytes (bits 22..24).
    pub fn sas(&self) -> (r: u8)
        ensures
            r == iss_sas(self.0),
            r <= 3,
    {
        let v = self.0;
        assert((v >> 22u32) & 3 <= 3) by (bit_vector);
        ((self.0 >> 22u32) & 3) as u8
    }

    /// Transfer register number (bits 16..21); 31 is the zero register.
    pub fn srt(&self) -> (r: u8)
        ensures
            r == iss_srt(self.0),
            r <= 31,
    {
        let v = self.0;
        assert((v >> 16u32) & 0x1f <= 31) by (bit_vector);
        ((self.0 >> 16u32) & 0x1f) as u8
    }

    /// Whether the access is a write (bit 6).
    pub fn wnr(&self) -> (r: bool)
        ensures
            r == iss_wnr(self.0),
    {
        (self.0 >> 6u32) & 1 == 1
    }
}

/// Number of bytes that the access size field `sas` stands for.
pub open spec fn access_bytes(sas: u8) -> Result<u8, CcaRunLoopError> {
    if sas == 0 {
        Ok(1u8)
    } else if sas == 1 {
        Ok(2u8)
    } else if sas == 2 {
        Ok(4u8)
    } else if sas == 3 {
        Ok(8u8)
    } else {
        Err(CcaRunLoopError::UnsupportedMmioAccessSize(sas))
    }
}

/// Number of bytes that the access size field `sas` stands for: 1, 2, 4
/// or 8. Fails with `UnsupportedMmioAccessSize` for any other field value.
pub fn access_size_bytes(sas: u8) -> (r: Result<u8, CcaRunLoopError>)
    ensures
        r == access_bytes(sas),
{
    match sas {
        0 => Ok(1),
        1 => Ok(2),
        2 => Ok(4),
        3 => Ok(8),
        _ => Err(CcaRunLoopError::UnsupportedMmioAccessSize(sas)),
    }
}

/// What decoding the syndrome `esr` as a data abort gives: the syndrome
/// and the instruction size (4 with the length bit, else 2), or
/// `InvalidDataAbortSyndrome` where it is not a data abort or its syndrome
/// is not valid.
pub open spec fn data_abort_of(esr: u64) -> Result<(IssDataAbort, u8), CcaRunLoopError> {
    if !is_data_abort(esr_ec(esr)) || !iss_isv(esr_iss(esr)) {
        Err(CcaRunLoopError::InvalidDataAbortSyndrome)
    } else {
        Ok(
            (
                IssDataAbort(esr_iss(esr)),
                if esr_il(esr) {
                    4u8
                } else {
                    2u8
                },
            ),
        )
    }
}

/// Decodes the syndrome `esr` as a data abort with a valid syndrome.
pub fn decode_data_abort(esr_el2: u64) -> (r: Result<(IssDataAbort, u8), CcaRunLoopError>)
    ensures
        r == data_abort_of(esr_el2),
{
    let esr = EsrEl2(esr_el2);
    let ec = esr.ec();
    if ec != EC_DATA_ABORT && ec != EC_DATA_ABORT_LOWER {
        return Err(CcaRunLoopError::InvalidDataAbortSyndrome);
    }
    let iss = IssDataAbort(esr.iss());
    if !iss.isv() {
        return Err(CcaRunLoopError::InvalidDataAbortSyndrome);
    }
    let instruction_size = if esr.il() {
        4
    } else {
        2
    };
    Ok((iss, instruction_size))
}

/// The faulting IPA: the page from HPFAR_EL2 (shifted left by 8) with the
/// page offset from FAR_EL2, or FAR_EL2 itself where HPFAR_EL2 gives no
/// page.
pub open spec fn fault_ipa(far_el2: u64, hpfar_el2: u64) -> u64 {
    let base = hpfar_el2 << 8u64;
    if base == 0 {
        far_el2
    } else {
        base | (far_el2 & 0xfff)
    }
}

/// Computes the faulting IPA of an exit.
pub fn decode_fault_ipa(far_el2: u64, hpfar_el2: u64) -> (r: u64)
    ensures
        r == fault_ipa(far_el2, hpfar_el2),
        hpfar_el2 << 8u64 == 0 ==> r == far_el2,
        hpfar_el2 << 8u64 != 0 ==> r & 0xff == far_el2 & 0xff,
        hpfar_el2 << 8u64 != 0 ==> r & !0xfffu64 == (hpfar_el2 << 8u64) & !0xfffu64,
        hpfar_el2 << 8u64 != 0 && hpfar_el2 & 0xf == 0 ==> r & 0xfff == far_el2 & 0xfff,
{
    proof {
        lemma_fault_ipa_composition(far_el2, hpfar_el2);
    }
    let page_offset = far_el2 & 0xfff;
    let base = hpfar_el2 << 8u64;
    if base == 0 {
        far_el2
    } else {
        base | page_offset
    }
}

/// The MMIO space that emulated accesses go to.
pub trait MmioBus: Sized {
    /// What an implementation promises of a write of `data` at `address`
    /// that leaves the bus `after`. By default it promises nothing.
    open spec fn writes(&self, after: Self, address: u64, data: Seq<u8>) -> bool {
        true
    }

    /// What an implementation promises of a read at `address` that fills in
    /// `data` and leaves the bus `after`. By default it promises nothing.
    open spec fn reads(&self, after: Self, address: u64, data: Seq<u8>) -> bool {
        true
    }

    /// Writes `data` at `address`.
    fn mmio_write(&mut self, address: u64, data: &[u8])
        ensures
            old(self).writes(*final(self), address, data@),
    ;

    /// Reads `data.len()` bytes at `address` into `data`.
    fn mmio_read(&mut self, address: u64, data: &mut [u8])
        ensures
            final(data)@.len() == old(data)@.len(),
            old(self).reads(*final(self), address, final(data)@),
    ;
}

/// Outcome of dispatching a synchronous exit.
#[derive(Clone, Copy, Debug, PartialEq, Eq, Structural)]
pub enum SyncExitOutcome {
    /// A data abort that was emulated as an MMIO access.
    DataAbortMmio {
        /// Faulting IPA.
        address: u64,
        /// Access size in bytes.
        size: u8,
        /// Whether the access was a write.
        is_write: bool,
        /// Transfer register (31 is the zero register).
        register_index: u8,
    },
    /// A synchronous exit that is not a data abort.
    Unhandled {
        /// Exception syndrome.
        esr_el2: u64,
        /// Fault address.
        far_el2: u64,
        /// Fault IPA page.
        hpfar_el2: u64,
    },
}

/// The value of register `index` of `gprs`, where 31 reads as zero.
pub open spec fn register_value(gprs: Seq<u64>, index: u8) -> u64 {
    if index < ZERO_REGISTER {
        gprs[index as int]
    } else {
        0
    }
}

/// The register value that the `size` bytes `data` load: little-endian,
/// zero-extended to 64 bits.
pub open spec fn loaded_value(data: Seq<u8>, size: u8) -> u64 {
    spec_u64_from_le_bytes(data + Seq::new((8 - size) as nat, |i: int| 0u8))
}

/// The `size` bytes that a store of `value` writes: its low bytes,
/// little-endian.
pub open spec fn stored_bytes(value: u64, size: u8) -> Seq<u8> {
    spec_u64_to_le_bytes(value).take(size as int)
}

/// Dispatches a synchronous plane exit.
///
/// An exit that is not a data abort is handed back as `Unhandled`, and
/// nothing changes. A data abort with an invalid syndrome is refused with
/// `InvalidDataAbortSyndrome`, and nothing changes. Otherwise the access is
/// emulated: the next entry takes the exit's registers; a write stores the
/// low `size` bytes of the transfer register (zero for register 31) at the
/// faulting IPA; a read loads `size` bytes from there into the transfer
/// register (discarded for register 31), zero-extended; and the entry PC
/// steps over the faulting instruction.
pub fn dispatch_sync_exit<M: MmioBus>(run: &mut cca_rsi_plane_run, mmio: &mut M) -> (r: Result<
    SyncExitOutcome,
    CcaRunLoopError,
>)
    ensures
        ({
            let x = old(run).exit;
            let esr = x.esr_el2;
            let iss = esr_iss(esr);
            let sas = iss_sas(iss);
            let size: u8 = if sas == 0 {
                1u8
            } else if sas == 1 {
                2u8
            } else if sas == 2 {
                4u8
            } else {
                8u8
            };
            let reg = iss_srt(iss);
            let address = fault_ipa(x.far_el2, x.hpfar_el2);
            let step: u64 = if esr_il(esr) {
                4
            } else {
                2
            };
            if !is_data_abort(esr_ec(esr)) {
                &&& r == Ok::<SyncExitOutcome, CcaRunLoopError>(
                    SyncExitOutcome::Unhandled {
                        esr_el2: esr,
                        far_el2: x.far_el2,
                        hpfar_el2: x.hpfar_el2,
                    },
                )
                &&& *final(run) == *old(run)
                &&& *final(mmio) == *old(mmio)
            } else if !iss_isv(iss) {
                &&& r == Err::<SyncExitOutcome, CcaRunLoopError>(
                    CcaRunLoopError::InvalidDataAbortSyndrome,
                )
                &&& *final(run) == *old(run)
                &&& *final(mmio) == *old(mmio)
            } else {
                &&& r == Ok::<SyncExitOutcome, CcaRunLoopError>(
                    SyncExitOutcome::DataAbortMmio {
                        address,
                        size,
                        is_write: iss_wnr(iss),
                        register_index: reg,
                    },
                )
                &&& final(run).exit == x
                &&& final(run).entry.flags == old(run).entry.flags
                &&& final(run).entry.gicv3_hcr == old(run).entry.gicv3_hcr
                &&& final(run).entry.gicv3_lrs == old(run).entry.gicv3_lrs
                &&& final(run).entry.pc == old(run).entry.pc.wrapping_add(step)
                &&& iss_wnr(iss) ==> {
                    &&& final(run).entry.gprs@ == x.gprs@
                    &&& old(mmio).writes(
                        *final(mmio),
                        address,
                        stored_bytes(register_value(x.gprs@, reg), size),
                    )
                }
                &&& !iss_wnr(iss) ==> exists|data: Seq<u8>|
                    {
                        &&& data.len() == size
                        &&& #[trigger] old(mmio).reads(*final(mmio), address, data)
                        &&& final(run).entry.gprs@ == if reg < ZERO_REGISTER {
                            x.gprs@.update(reg as int, loaded_value(data, size))
                        } else {
                            x.gprs@
                        }
                    }
            }
        }),
{
    let esr = EsrEl2(run.exit.esr_el2);
    let ec = esr.ec();
    if ec != EC_DATA_ABORT && ec != EC_DATA_ABORT_LOWER {
        return Ok(
            SyncExitOutcome::Unhandled {
                esr_el2: run.exit.esr_el2,
                far_el2: run.exit.far_el2,
                hpfar_el2: run.exit.hpfar_el2,
            },
        );
    }
    let (iss, instruction_size) = match decode_data_abort(run.exit.esr_el2) {
        Ok(decoded) => decoded,
        Err(e) => return Err(e),
    };
    let size = match access_size_bytes(iss.sas()) {
        Ok(size) => size,
        Err(e) => return Err(e),
    };
    let register_index = iss.srt();
    let address = decode_fault_ipa(run.exit.far_el2, run.exit.hpfar_el2);

    run.entry.gprs = run.exit.gprs;

    if iss.wnr() {
        let reg_value = if register_index < ZERO_REGISTER {
            run.entry.gprs[register_index as usize]
        } else {
            0
        };
        let mut bytes = u64_to_le_bytes(reg_value);
        bytes.truncate(size as usize);
        assert(bytes@ =~= stored_bytes(reg_value, size));
        mmio.mmio_write(address, bytes.as_slice());
    } else {
        let mut data: Vec<u8> = Vec::new();
        let mut i: u8 = 0;
        while i < size
            invariant
                i <= size <= 8,
                data@.len() == i,
            decreases size - i,
        {
            data.push(0u8);
            i = i + 1;
        }
        let ghost mmio_before = *mmio;
        mmio.mmio_read(address, data.as_mut_slice());
        let ghost read = data@;
        let mut bytes: Vec<u8> = Vec::new();
        let mut j: usize = 0;
        while j < 8
            invariant
                j <= 8,
                size <= 8,
                data@ == read,
                read.len() == size,
                bytes@.len() == j,
                forall|k: int| 0 <= k < j ==> #[trigger] bytes@[k] == if k < size {
                    read[k]
                } else {
                    0u8
                },
            decreases 8 - j,
        {
            if j < size as usize {
                bytes.push(data[j]);
            } else {
                bytes.push(0u8);
            }
            j = j + 1;
        }
        assert(bytes@ =~= read + Seq::new((8 - size) as nat, |i: int| 0u8));
        let value = u64_from_le_bytes(bytes.as_slice());
        if register_index < ZERO_REGISTER {
            run.entry.gprs[register_index as usize] = value;
        }
        assert(mmio_before.reads(*mmio, address, read));
    }

    run.entry.pc = run.entry.pc.wrapping_add(instruction_size as u64);

    Ok(
        SyncExitOutcome::DataAbortMmio {
            address,
            size,
            is_write: iss.wnr(),
            register_index,
        },
    )
}

/// A full-width store followed by a load of the same eight bytes gives the
/// register its value back; a store of any width writes exactly `size`
/// bytes.
pub proof fn lemma_store_load_round_trip(value: u64, size: u8)
    requires
        size == 1 || size == 2 || size == 4 || size == 8,
    ensures
        stored_bytes(value, size).len() == size,
        loaded_value(stored_bytes(value, 8), 8) == value,
{
    vstd::bytes::lemma_auto_spec_u64_to_from_le_bytes();
    assert(spec_u64_to_le_bytes(value).len() == 8);
    assert(stored_bytes(value, 8) + Seq::new(0, |i: int| 0u8) =~= spec_u64_to_le_bytes(value));
}


/// How the faulting IPA is composed. Where HPFAR_EL2 names no page, it is
/// FAR_EL2 itself. Otherwise the page bits (12 and up) are those of
/// HPFAR_EL2 shifted left by 8, and the low byte of the page offset always
/// comes from FAR_EL2; where HPFAR_EL2's bits 0..4 are clear (they are RES0
/// in the architecture), all twelve page-offset bits come from FAR_EL2.
pub proof fn lemma_fault_ipa_composition(far: u64, hpfar: u64)
    ensures
        hpfar << 8u64 == 0 ==> fault_ipa(far, hpfar) == far,
        hpfar << 8u64 != 0 ==> fault_ipa(far, hpfar) & 0xff == far & 0xff,
        hpfar << 8u64 != 0 ==> fault_ipa(far, hpfar) & !0xfffu64 == (hpfar << 8u64) & !0xfffu64,
        hpfar << 8u64 != 0 && hpfar & 0xf == 0 ==> fault_ipa(far, hpfar) & 0xfff == far & 0xfff,
{
    let v = fault_ipa(far, hpfar);
    if hpfar << 8u64 != 0 {
        assert(v == (hpfar << 8u64) | (far & 0xfff));
        assert(((hpfar << 8u64) | (far & 0xfff)) & 0xff == far & 0xff) by (bit_vector);
        assert(((hpfar << 8u64) | (far & 0xfff)) & !0xfffu64 == (hpfar << 8u64) & !0xfffu64)
            by (bit_vector);
        assert(hpfar & 0xf == 0 ==> ((hpfar << 8u64) | (far & 0xfff)) & 0xfff == far & 0xfff)
            by (bit_vector);
    }
}


/// The syndrome fields in arithmetic terms: the exception class is the
/// word divided by 2^26 (six bits), the length bit is bit 25, the syndrome
/// is the word modulo 2^25; in the syndrome, ISV is bit 24, SAS is two bits
/// from 2^22, SRT is five bits from 2^16, and WnR is bit 6.
pub proof fn lemma_syndrome_fields(esr: u64, iss: u32)
    ensures
        esr_ec(esr) as u64 == (esr / 0x400_0000) % 64,
        esr_il(esr) == ((esr / 0x200_0000) % 2 == 1),
        esr_iss(esr) as u64 == esr % 0x200_0000,
        iss_isv(iss) == ((iss / 0x100_0000) % 2 == 1),
        iss_sas(iss) as u32 == (iss / 0x40_0000) % 4,
        iss_srt(iss) as u32 == (iss / 0x1_0000) % 32,
        iss_wnr(iss) == ((iss / 64) % 2 == 1),
{
    assert(((esr >> 26u64) & 0x3f) == (esr / 0x400_0000) % 64) by (bit_vector);
    assert(((esr >> 25u64) & 1) == (esr / 0x200_0000) % 2) by (bit_vector);
    assert((esr & 0x1ff_ffff) == esr % 0x200_0000) by (bit_vector);
    assert(((iss >> 24u32) & 1) == (iss / 0x100_0000) % 2) by (bit_vector);
    assert(((iss >> 22u32) & 3) == (iss / 0x40_0000) % 4) by (bit_vector);
    assert(((iss >> 16u32) & 0x1f) == (iss / 0x1_0000) % 32) by (bit_vector);
    assert(((iss >> 6u32) & 1) == (iss / 64) % 2) by (bit_vector);
}

/// An access size field names 2^SAS bytes; the decoded instruction size is
/// 4 bytes exactly when the length bit is set, else 2.
pub proof fn lemma_access_and_instruction_sizes(sas: u8, esr: u64)
    ensures
        sas <= 3 ==> (access_bytes(sas) matches Ok(n) && n as u64 == (1u64 << sas as u64)),
        sas > 3 ==> access_bytes(sas) is Err,
        data_abort_of(esr) matches Ok((_, len)) ==> (len == 4 <==> esr_il(esr)) && (len == 2
            <==> !esr_il(esr)),
{
    assert(1u64 << 0u64 == 1 && 1u64 << 1u64 == 2 && 1u64 << 2u64 == 4 && 1u64 << 3u64 == 8)
        by (bit_vector);
}

/// Register `index` below 31 reads as that register of `gprs`, and register
/// 31 reads as zero.
pub proof fn lemma_register_value(gprs: Seq<u64>, index: u8)
    requires
        gprs.len() == 31,
        index <= 31,
    ensures
        index < 31 ==> register_value(gprs, index) == gprs[index as int],
        index == 31 ==> register_value(gprs, index) == 0,
{
}

/// A load of `size` bytes gives back a value whose own low `size` bytes
/// are the loaded bytes, and whose higher bytes are zero.
pub proof fn lemma_load_keeps_bytes(data: Seq<u8>, size: u8)
    requires
        size == 1 || size == 2 || size == 4 || size == 8,
        data.len() == size,
    ensures
        stored_bytes(loaded_value(data, size), size) == data,
        forall|i: int| size <= i < 8 ==> #[trigger] spec_u64_to_le_bytes(loaded_value(data, size))[i] == 0,
{
    vstd::bytes::lemma_auto_spec_u64_to_from_le_bytes();
    let padded = data + Seq::new((8 - size) as nat, |i: int| 0u8);
    assert(padded.len() == 8);
    assert(spec_u64_to_le_bytes(spec_u64_from_le_bytes(padded)) == padded);
    assert(stored_bytes(loaded_value(data, size), size) =~= data);
}

} // verus!
