//! A four-bit step intensity value, the unit written to the DAC bit-lines.

use vstd::prelude::*;

verus! {

/// A step intensity in `[0, 15]`. The four low bits drive the four parallel
/// DAC output lines; a value of zero means the step carries no gate.
#[derive(Copy, Clone, Debug, PartialEq, Eq, Structural)]
pub struct DacByte(u8);

impl DacByte {
    /// The value held, as a spec-level `u8`.
    pub closed spec fn spec_value(&self) -> u8 {
        self.0
    }

    /// A `DacByte` is well formed when it fits in the four DAC bits.
    pub open spec fn wf(&self) -> bool {
        self.spec_value() <= 15
    }

    /// Wraps a raw value. Values above 15 are a contract violation: they
    /// cannot be represented on the four bit-lines and are never clamped.
    pub fn new(input: u8) -> (result: Self)
        requires
            input <= 15,
        ensures
            result.spec_value() == input,
            result.wf(),
    {
        Self(input)
    }

    /// The largest representable intensity.
    pub fn max() -> (result: Self)
        ensures
            result.spec_value() == 15,
            result.wf(),
    {
        Self(15)
    }

    /// The middle intensity.
    pub fn half() -> (result: Self)
        ensures
            result.spec_value() == 7,
            result.wf(),
    {
        Self(7)
    }

    /// The zero intensity.
    pub fn min() -> (result: Self)
        ensures
            result.spec_value() == 0,
            result.wf(),
    {
        Self(0)
    }

    /// Reads the raw value back.
    #[verifier::when_used_as_spec(spec_value)]
    pub fn value(&self) -> (result: u8)
        ensures
            result == self.spec_value(),
    {
        self.0
    }

    /// True when every bit of `step` is set in this value.
    pub fn matches(&self, step: u8) -> (result: bool)
        ensures
            result == ((self.spec_value() & step) == step),
    {
        (self.0 & step) == step
    }
}

} // verus!
