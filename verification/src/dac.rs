//! The four parallel bit-lines forming the DAC output, modelled as plain
//! levels; the caller mirrors them to the physical pins.

use vstd::prelude::*;
use crate::dac_byte::DacByte;

verus! {

/// The four DAC bit-line levels, least significant line first.
#[derive(Copy, Clone, Debug, PartialEq, Eq, Structural)]
pub struct Dac {
    pub a0: bool,
    pub a1: bool,
    pub a2: bool,
    pub a3: bool,
}

impl Dac {
    /// The line levels encoding a raw value: line `i` carries bit `i`.
    pub open spec fn spec_set_value(v: u8) -> Dac {
        Dac {
            a0: v & 0b00000001 == 0b00000001,
            a1: v & 0b00000010 == 0b00000010,
            a2: v & 0b00000100 == 0b00000100,
            a3: v & 0b00001000 == 0b00001000,
        }
    }

    /// The value the four lines currently express.
    pub open spec fn spec_value(&self) -> u8 {
        ((if self.a0 {
            1u8
        } else {
            0u8
        }) + (if self.a1 {
            2u8
        } else {
            0u8
        }) + (if self.a2 {
            4u8
        } else {
            0u8
        }) + (if self.a3 {
            8u8
        } else {
            0u8
        })) as u8
    }

    /// All four lines low: the converter reads zero.
    pub fn new() -> (result: Self)
        ensures
            result == (Dac { a0: false, a1: false, a2: false, a3: false }),
    {
        Self { a0: false, a1: false, a2: false, a3: false }
    }

    /// Drives each line from the matching bit of the input.
    pub fn set(&mut self, input: DacByte)
        ensures
            *final(self) == Dac::spec_set_value(input.value()),
    {
        if input.matches(0b00000001) {
            self.a0 = true;
        } else {
            self.a0 = false;
        }

        if input.matches(0b00000010) {
            self.a1 = true;
        } else {
            self.a1 = false;
        }

        if input.matches(0b00000100) {
            self.a2 = true;
        } else {
            self.a2 = false;
        }

        if input.matches(0b00001000) {
            self.a3 = true;
        } else {
            self.a3 = false;
        }
    }
}

/// Setting the lines from a representable intensity puts exactly that
/// value on the DAC: the four lines read back as the value written.
pub proof fn lemma_dac_encodes_value(v: u8)
    requires
        v <= 15,
    ensures
        Dac::spec_set_value(v).spec_value() == v,
{
    assert((v & 0b00000001) + (v & 0b00000010) + (v & 0b00000100) + (v & 0b00001000) == v)
        by (bit_vector)
        requires
            v <= 15,
    ;
    assert(v & 0b00000001 == 0b00000001 || v & 0b00000001 == 0) by (bit_vector);
    assert(v & 0b00000010 == 0b00000010 || v & 0b00000010 == 0) by (bit_vector);
    assert(v & 0b00000100 == 0b00000100 || v & 0b00000100 == 0) by (bit_vector);
    assert(v & 0b00001000 == 0b00001000 || v & 0b00001000 == 0) by (bit_vector);
}

} // verus!
