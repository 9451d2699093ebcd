use vstd::prelude::*;

verus! {

/// Bit 0 of PRIMASK: set while exceptions with configurable priority are suppressed.
pub const SUPPRESSION_BIT: u32 = 1;

/// Whether exceptions with configurable priority may preempt execution.
#[derive(Clone, Copy, Debug, PartialEq, Eq, Structural)]
pub enum Primask {
    /// All exceptions with configurable priority are active.
    Active,
    /// All exceptions with configurable priority are inactive: they stay pending.
    Inactive,
}

/// The suppression bit of a raw register value; bits 31:1 are reserved.
pub open spec fn suppression_bit(raw: u32) -> u32 {
    raw & 1
}

/// The mask state that a raw register value stands for.
pub open spec fn primask_of(raw: u32) -> Primask {
    if suppression_bit(raw) == 1 {
        Primask::Inactive
    } else {
        Primask::Active
    }
}

impl Primask {
    /// All exceptions with configurable priority are active.
    pub fn is_active(self) -> (r: bool)
        ensures
            r == (self == Primask::Active),
    {
        self == Primask::Active
    }

    /// All exceptions with configurable priority are inactive.
    pub fn is_inactive(self) -> (r: bool)
        ensures
            r == (self == Primask::Inactive),
    {
        self == Primask::Inactive
    }
}

/// Decodes a raw register value: `Inactive` when bit 0 is set, else `Active`.
/// The reserved bits are ignored.
pub fn decode(raw: u32) -> (p: Primask)
    ensures
        p == primask_of(raw),
{
    if raw & SUPPRESSION_BIT == SUPPRESSION_BIT {
        Primask::Inactive
    } else {
        Primask::Active
    }
}

/// What a write of `value` leaves behind: the register's suppression bit is
/// the one written. The reserved bits read back as the core chooses.
pub open spec fn written(after: u32, value: u32) -> bool {
    suppression_bit(after) == suppression_bit(value)
}

/// The PRIMASK register, held as the value that a read of it returns.
///
/// Bit 0 is the suppression bit (1 = suppressed); bits 31:1 are reserved:
/// unknown on read, and to be written as zero or as previously read.
pub struct Register {
    raw: u32,
}

impl View for Register {
    type V = u32;

    closed spec fn view(&self) -> u32 {
        self.raw
    }
}

impl Register {
    /// The register after a core reset: suppression inactive.
    pub fn reset() -> (reg: Register)
        ensures
            suppression_bit(reg@) == 0,
    {
        assert(0u32 & 1 == 0) by (bit_vector);
        Register { raw: 0 }
    }

    /// The register as a read of it returned `raw`.
    pub fn from_raw(raw: u32) -> (reg: Register)
        ensures
            reg@ == raw,
    {
        Register { raw }
    }
}

/// Reads the entire register, reserved bits included, without interpreting it.
/// A read changes nothing: two reads with no write between them agree.
pub fn read_raw(reg: &Register) -> (r: u32)
    ensures
        r == reg@,
{
    reg.raw
}

/// Reads the prioritizable interrupt mask.
pub fn read(reg: &Register) -> (p: Primask)
    ensures
        p == primask_of(reg@),
{
    decode(read_raw(reg))
}

/// Writes the entire register.
///
/// The caller owes what no type can check: that changing the mask is sound at
/// this point, which it is not while an enclosing critical section relies on
/// interrupts staying suppressed. The reserved bits of `value` should be zero
/// or as previously read; the one sound way to leave a nested critical section
/// is to write back the raw value read on entry.
pub fn write_raw(reg: &mut Register, value: u32)
    ensures
        written(final(reg)@, value),
{
    reg.raw = value;
}

/// A raw value decodes to exactly one of the two mask states.
pub proof fn lemma_exactly_one_state(raw: u32)
    ensures
        (primask_of(raw) == Primask::Active) != (primask_of(raw) == Primask::Inactive),
{
}

/// Decoding looks at bit 0 alone: two raw values that agree there decode alike.
pub proof fn lemma_decode_depends_on_bit_zero(r1: u32, r2: u32)
    requires
        r1 & 1 == r2 & 1,
    ensures
        primask_of(r1) == primask_of(r2),
{
}

/// Two reads of a register that was not written in between return the same raw value.
pub proof fn lemma_reads_agree(reg: Register, first: u32, second: u32)
    requires
        first == reg@,
        second == reg@,
    ensures
        first == second,
{
}

/// Reading right after a write gives back the written suppression bit, and so
/// the mask state that the written value decodes to.
pub proof fn lemma_write_then_read(value: u32, after: Register, r: u32)
    requires
        written(after@, value),
        r == after@,
    ensures
        suppression_bit(r) == suppression_bit(value),
        primask_of(r) == primask_of(value),
{
}

/// Save and restore: with `saved` read on entry, a write with bit 0 set
/// suppresses interrupts; whatever runs in between, writing `saved` back
/// restores exactly the suppression state found on entry.
pub proof fn lemma_save_restore(saved: u32, forced: u32, inside: u32, restored: u32)
    requires
        forced & 1 == 1,
        written(inside, forced),
        written(restored, saved),
    ensures
        primask_of(inside) == Primask::Inactive,
        suppression_bit(restored) == suppression_bit(saved),
        primask_of(restored) == primask_of(saved),
{
}

} // verus!
