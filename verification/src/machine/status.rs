//! The status register: eight flags, and their packing into one byte.

use vstd::prelude::*;
use vstd::std_specs::convert::FromSpecImpl;

verus! {

/// Bit 7 of `value` is set.
pub open spec fn bit7(value: u8) -> bool {
    value >= 0x80
}

/// `bit7` says what its name says: it holds exactly when the mask `0x80`
/// finds a bit in `value`.
pub proof fn lemma_bit7(value: u8)
    ensures
        bit7(value) <==> value & 0x80 != 0,
{
    assert(value >= 0x80 <==> value & 0x80 != 0) by (bit_vector);
}

/// The eight condition flags of the processor.
#[derive(Clone, Copy, Debug, PartialEq, Eq)]
pub struct StatusRegister {
    pub negative: bool,
    pub overflow: bool,
    pub b_high: bool,
    pub b_low: bool,
    pub decimal: bool,
    pub interrupt_disable: bool,
    pub zero: bool,
    pub carry: bool,
}

impl StatusRegister {
    /// The register with no flag set.
    pub open spec fn cleared() -> StatusRegister {
        StatusRegister {
            negative: false,
            overflow: false,
            b_high: false,
            b_low: false,
            decimal: false,
            interrupt_disable: false,
            zero: false,
            carry: false,
        }
    }

    /// The register after a data move of `value`: the negative flag is bit 7
    /// of `value`, the zero flag says whether `value` is zero, and the other
    /// flags stay.
    pub open spec fn with_negative_zero(self, value: u8) -> StatusRegister {
        StatusRegister { negative: bit7(value), zero: value == 0, ..self }
    }

    /// The flags as one byte. From the most significant bit down: negative,
    /// overflow, the high and the low break bit, decimal, interrupt disable,
    /// zero, carry.
    pub open spec fn packed(self) -> u8 {
        ((if self.negative { 0x80int } else { 0 })
            + (if self.overflow { 0x40int } else { 0 })
            + (if self.b_high { 0x20int } else { 0 })
            + (if self.b_low { 0x10int } else { 0 })
            + (if self.decimal { 0x08int } else { 0 })
            + (if self.interrupt_disable { 0x04int } else { 0 })
            + (if self.zero { 0x02int } else { 0 })
            + (if self.carry { 0x01int } else { 0 })) as u8
    }

    /// A register with no flag set.
    pub fn new() -> (status: StatusRegister)
        ensures
            status == StatusRegister::cleared(),
    {
        StatusRegister {
            negative: false,
            overflow: false,
            b_high: false,
            b_low: false,
            decimal: false,
            interrupt_disable: false,
            zero: false,
            carry: false,
        }
    }
}

/// One or zero, as `flag` is set or not.
fn flag_bit(flag: bool) -> (bit: u8)
    ensures
        bit == if flag { 1u8 } else { 0u8 },
{
    if flag {
        1
    } else {
        0
    }
}

impl FromSpecImpl<&StatusRegister> for u8 {
    open spec fn obeys_from_spec() -> bool {
        true
    }

    open spec fn from_spec(x: &StatusRegister) -> u8 {
        x.packed()
    }
}

impl From<&StatusRegister> for u8 {
    /// Packs the flags into one byte.
    fn from(x: &StatusRegister) -> (byte: u8)
        ensures
            byte == x.packed(),
    {
        let n = flag_bit(x.negative);
        let v = flag_bit(x.overflow);
        let h = flag_bit(x.b_high);
        let l = flag_bit(x.b_low);
        let d = flag_bit(x.decimal);
        let i = flag_bit(x.interrupt_disable);
        let z = flag_bit(x.zero);
        let c = flag_bit(x.carry);
        let byte = (n << 7) | (v << 6) | (h << 5) | (l << 4) | (d << 3) | (i << 2) | (z << 1) | c;
        assert(byte == 0x80 * n + 0x40 * v + 0x20 * h + 0x10 * l + 0x08 * d + 0x04 * i + 0x02 * z
            + c) by (bit_vector)
            requires
                n <= 1,
                v <= 1,
                h <= 1,
                l <= 1,
                d <= 1,
                i <= 1,
                z <= 1,
                c <= 1,
                byte == (n << 7) | (v << 6) | (h << 5) | (l << 4) | (d << 3) | (i << 2) | (z << 1)
                    | c,
        ;
        byte
    }
}

} // verus!
