//! The step pattern data model: a fixed-capacity row of optional intensity
//! slots with an explicit length, immutable once constructed.

use vstd::prelude::*;
use crate::dac_byte::DacByte;

verus! {

/// One preset pattern: up to eight optional intensity slots plus an
/// explicit `length` in `[1, 8]`. Slots past `length` are ignored by every
/// consumer. Steps are addressed by a one-hot bit mask, bit `i` selecting
/// slot `i`.
#[derive(Copy, Clone, Debug, PartialEq, Eq, Structural)]
pub struct Sequence {
    length: usize,
    s1: Option<DacByte>,
    s2: Option<DacByte>,
    s3: Option<DacByte>,
    s4: Option<DacByte>,
    s5: Option<DacByte>,
    s6: Option<DacByte>,
    s7: Option<DacByte>,
    s8: Option<DacByte>,
}

/// An optional slot is well formed when any intensity it carries is
/// representable on the DAC bit-lines.
pub open spec fn slot_wf(o: Option<DacByte>) -> bool {
    match o {
        Some(d) => d.wf(),
        None => true,
    }
}

/// The intensity a slot drives onto the DAC: its value, or 0 when the
/// slot is unpopulated.
pub open spec fn slot_value(o: Option<DacByte>) -> u8 {
    match o {
        Some(d) => d.value(),
        None => 0,
    }
}

/// The slot index selected by a one-hot step mask, or `-1` when the mask is
/// not a single bit.
pub open spec fn bit_index(step: u8) -> int {
    if step == 0x01 {
        0
    } else if step == 0x02 {
        1
    } else if step == 0x04 {
        2
    } else if step == 0x08 {
        3
    } else if step == 0x10 {
        4
    } else if step == 0x20 {
        5
    } else if step == 0x40 {
        6
    } else if step == 0x80 {
        7
    } else {
        -1
    }
}

/// The one-hot step mask addressing slot `i`: the single bit at position
/// `i`, as the clock's step counter selects its slot.
pub fn step_mask(i: usize) -> (mask: u8)
    requires
        i < 8,
    ensures
        bit_index(mask) == i,
{
    match i {
        0 => 0x01,
        1 => 0x02,
        2 => 0x04,
        3 => 0x08,
        4 => 0x10,
        5 => 0x20,
        6 => 0x40,
        _ => 0x80,
    }
}

impl Sequence {
    /// The declared number of meaningful slots.
    pub closed spec fn spec_len(&self) -> usize {
        self.length
    }

    /// The slot at index `i`, for `i` in `[0, 8)`; `None` outside.
    pub closed spec fn slot(&self, i: int) -> Option<DacByte> {
        if i == 0 {
            self.s1
        } else if i == 1 {
            self.s2
        } else if i == 2 {
            self.s3
        } else if i == 3 {
            self.s4
        } else if i == 4 {
            self.s5
        } else if i == 5 {
            self.s6
        } else if i == 6 {
            self.s7
        } else if i == 7 {
            self.s8
        } else {
            None
        }
    }

    /// A step is active ("matched") when its slot carries an intensity
    /// greater than zero.
    pub open spec fn step_active(&self, i: int) -> bool {
        match self.slot(i) {
            Some(d) => d.value() > 0,
            None => false,
        }
    }

    /// Well-formedness: the declared length lies in `[1, 8]` and every
    /// populated slot holds a representable intensity.
    pub open spec fn wf(&self) -> bool {
        &&& 1 <= self.spec_len() <= 8
        &&& forall|i: int| 0 <= i < 8 ==> slot_wf(#[trigger] self.slot(i))
    }

    /// Builds a pattern from its declared length and eight slots.
    pub fn new(
        length: usize,
        s1: Option<DacByte>,
        s2: Option<DacByte>,
        s3: Option<DacByte>,
        s4: Option<DacByte>,
        s5: Option<DacByte>,
        s6: Option<DacByte>,
        s7: Option<DacByte>,
        s8: Option<DacByte>,
    ) -> (result: Self)
        requires
            1 <= length <= 8,
            slot_wf(s1),
            slot_wf(s2),
            slot_wf(s3),
            slot_wf(s4),
            slot_wf(s5),
            slot_wf(s6),
            slot_wf(s7),
            slot_wf(s8),
        ensures
            result.wf(),
            result.spec_len() == length,
            result.slot(0) == s1,
            result.slot(1) == s2,
            result.slot(2) == s3,
            result.slot(3) == s4,
            result.slot(4) == s5,
            result.slot(5) == s6,
            result.slot(6) == s7,
            result.slot(7) == s8,
    {
        Self { length, s1, s2, s3, s4, s5, s6, s7, s8 }
    }

    /// Looks a slot up by its one-hot step mask; a mask that is not a
    /// single bit selects nothing.
    pub fn get_step(&self, step: u8) -> (result: Option<DacByte>)
        ensures
            result == if bit_index(step) >= 0 {
                self.slot(bit_index(step))
            } else {
                None::<DacByte>
            },
    {
        match step {
            0x01 => self.s1,
            0x02 => self.s2,
            0x04 => self.s3,
            0x08 => self.s4,
            0x10 => self.s5,
            0x20 => self.s6,
            0x40 => self.s7,
            0x80 => self.s8,
            _ => None,
        }
    }

    /// True when the slot selected by the one-hot mask is active. A mask
    /// that is not a single bit addresses no slot at all and is a contract
    /// violation.
    pub fn matches(&self, step: u8) -> (result: bool)
        requires
            bit_index(step) >= 0,
        ensures
            result == self.step_active(bit_index(step)),
    {
        match step {
            0x01 => self.s1.is_some() && self.s1.unwrap().value() > 0,
            0x02 => self.s2.is_some() && self.s2.unwrap().value() > 0,
            0x04 => self.s3.is_some() && self.s3.unwrap().value() > 0,
            0x08 => self.s4.is_some() && self.s4.unwrap().value() > 0,
            0x10 => self.s5.is_some() && self.s5.unwrap().value() > 0,
            0x20 => self.s6.is_some() && self.s6.unwrap().value() > 0,
            0x40 => self.s7.is_some() && self.s7.unwrap().value() > 0,
            _ => self.s8.is_some() && self.s8.unwrap().value() > 0,
        }
    }

    /// The declared length.
    #[verifier::when_used_as_spec(spec_len)]
    pub fn len(&self) -> (result: usize)
        ensures
            result == self.spec_len(),
    {
        self.length
    }
}

} // verus!
