//! The debounced preset selector: recognizes a change only on a
//! low-transition of the advance input, steps the sequence pointer through
//! the preset table modulo its length, and hands the active pattern out
//! once per loop iteration.

use vstd::prelude::*;
use crate::dac_byte::DacByte;
use crate::sequence::Sequence;

verus! {

/// Result of one selector poll, consumed once per iteration.
pub struct SequenceState {
    pub sequence: Sequence,
    pub sequence_pointer: usize,
    pub did_change: bool,
}

/// A change is recognized exactly when the advance input reads low now
/// and did not read low at the previous poll.
pub open spec fn change_recognized(last_state: bool, input_low: bool) -> bool {
    input_low && !last_state
}

/// The pointer after one recognized change: one preset forward, wrapping
/// to 0 past the end of the table.
pub open spec fn next_pointer_of(pointer: usize, len: usize) -> usize {
    if pointer + 1 >= len {
        0
    } else {
        (pointer + 1) as usize
    }
}

/// The pointer after `k` recognized changes.
pub open spec fn pointer_after_changes(pointer: usize, len: usize, k: nat) -> usize
    decreases k,
{
    if k == 0 {
        pointer
    } else {
        next_pointer_of(pointer_after_changes(pointer, len, (k - 1) as nat), len)
    }
}

/// From preset 0, `k <= N` recognized changes land on preset `k`, except
/// that the `N`-th change returns to preset 0: cycling through a table of
/// size `N` takes exactly `N` changes.
pub proof fn lemma_pointer_cycles(len: usize, k: nat)
    requires
        len >= 1,
        k <= len,
    ensures
        pointer_after_changes(0, len, k) == if k == len {
            0usize
        } else {
            k as usize
        },
    decreases k,
{
    if k > 0 {
        lemma_pointer_cycles(len, (k - 1) as nat);
    }
}

/// While the advance input stays low, no second change is recognized: the
/// latch absorbs every poll after the transition itself.
pub proof fn lemma_change_recognized_once(input_low_later: bool)
    ensures
        !change_recognized(true, input_low_later),
{
}

/// True when the optional slot holds exactly the intensity `v`.
pub open spec fn slot_is(o: Option<DacByte>, v: u8) -> bool {
    match o {
        Some(d) => d.value() == v,
        None => false,
    }
}

/// A populated slot with the given intensity.
fn filled(v: u8) -> (result: Option<DacByte>)
    requires
        v <= 15,
    ensures
        slot_is(result, v),
        crate::sequence::slot_wf(result),
{
    Some(DacByte::new(v))
}

/// The preset table the firmware ships with: twelve patterns. The first
/// is the eight-step ramp `0, 3, 5, 8, 9, 10, 12, 15`; the rest are
/// shorter ramps and on/off patterns.
pub fn default_sequences() -> (result: Vec<Sequence>)
    ensures
        result@.len() == 12,
        forall|i: int| 0 <= i < 12 ==> (#[trigger] result@[i]).wf(),
        result@[0].spec_len() == 8,
        slot_is(result@[0].slot(0), 0),
        slot_is(result@[0].slot(1), 3),
        slot_is(result@[0].slot(2), 5),
        slot_is(result@[0].slot(3), 8),
        slot_is(result@[0].slot(4), 9),
        slot_is(result@[0].slot(5), 10),
        slot_is(result@[0].slot(6), 12),
        slot_is(result@[0].slot(7), 15),
        result@[1].spec_len() == 5,
        slot_is(result@[1].slot(0), 15),
        slot_is(result@[1].slot(1), 5),
        slot_is(result@[1].slot(2), 5),
        slot_is(result@[1].slot(3), 5),
        slot_is(result@[1].slot(4), 0),
        result@[1].slot(5) is None,
        result@[1].slot(6) is None,
        result@[1].slot(7) is None,
        result@[2].spec_len() == 8,
        slot_is(result@[2].slot(0), 0),
        slot_is(result@[2].slot(1), 7),
        slot_is(result@[2].slot(2), 15),
        slot_is(result@[2].slot(3), 7),
        slot_is(result@[2].slot(4), 0),
        slot_is(result@[2].slot(5), 7),
        slot_is(result@[2].slot(6), 15),
        slot_is(result@[2].slot(7), 1),
        result@[3].spec_len() == 7,
        slot_is(result@[3].slot(0), 15),
        slot_is(result@[3].slot(1), 15),
        slot_is(result@[3].slot(2), 15),
        slot_is(result@[3].slot(3), 15),
        slot_is(result@[3].slot(4), 15),
        slot_is(result@[3].slot(5), 15),
        slot_is(result@[3].slot(6), 15),
        result@[3].slot(7) is None,
        result@[4].spec_len() == 8,
        slot_is(result@[4].slot(0), 0),
        slot_is(result@[4].slot(1), 15),
        slot_is(result@[4].slot(2), 0),
        slot_is(result@[4].slot(3), 0),
        slot_is(result@[4].slot(4), 15),
        slot_is(result@[4].slot(5), 0),
        slot_is(result@[4].slot(6), 0),
        slot_is(result@[4].slot(7), 15),
        result@[5].spec_len() == 8,
        slot_is(result@[5].slot(0), 0),
        slot_is(result@[5].slot(1), 15),
        slot_is(result@[5].slot(2), 0),
        slot_is(result@[5].slot(3), 15),
        slot_is(result@[5].slot(4), 0),
        slot_is(result@[5].slot(5), 15),
        slot_is(result@[5].slot(6), 0),
        slot_is(result@[5].slot(7), 15),
        result@[6].spec_len() == 8,
        slot_is(result@[6].slot(0), 0),
        slot_is(result@[6].slot(1), 0),
        slot_is(result@[6].slot(2), 0),
        slot_is(result@[6].slot(3), 0),
        slot_is(result@[6].slot(4), 15),
        slot_is(result@[6].slot(5), 15),
        slot_is(result@[6].slot(6), 15),
        slot_is(result@[6].slot(7), 15),
        result@[7].spec_len() == 8,
        slot_is(result@[7].slot(0), 15),
        slot_is(result@[7].slot(1), 15),
        slot_is(result@[7].slot(2), 15),
        slot_is(result@[7].slot(3), 15),
        slot_is(result@[7].slot(4), 0),
        slot_is(result@[7].slot(5), 0),
        slot_is(result@[7].slot(6), 0),
        slot_is(result@[7].slot(7), 0),
        result@[8].spec_len() == 8,
        slot_is(result@[8].slot(0), 15),
        slot_is(result@[8].slot(1), 15),
        slot_is(result@[8].slot(2), 0),
        slot_is(result@[8].slot(3), 0),
        slot_is(result@[8].slot(4), 15),
        slot_is(result@[8].slot(5), 15),
        slot_is(result@[8].slot(6), 0),
        slot_is(result@[8].slot(7), 0),
        result@[9].spec_len() == 8,
        slot_is(result@[9].slot(0), 15),
        slot_is(result@[9].slot(1), 15),
        slot_is(result@[9].slot(2), 15),
        slot_is(result@[9].slot(3), 0),
        slot_is(result@[9].slot(4), 0),
        slot_is(result@[9].slot(5), 15),
        slot_is(result@[9].slot(6), 0),
        slot_is(result@[9].slot(7), 15),
        result@[10].spec_len() == 8,
        slot_is(result@[10].slot(0), 8),
        slot_is(result@[10].slot(1), 8),
        slot_is(result@[10].slot(2), 8),
        slot_is(result@[10].slot(3), 12),
        slot_is(result@[10].slot(4), 0),
        slot_is(result@[10].slot(5), 8),
        slot_is(result@[10].slot(6), 8),
        slot_is(result@[10].slot(7), 12),
        result@[11].spec_len() == 8,
        slot_is(result@[11].slot(0), 0),
        slot_is(result@[11].slot(1), 0),
        slot_is(result@[11].slot(2), 0),
        slot_is(result@[11].slot(3), 0),
        slot_is(result@[11].slot(4), 0),
        slot_is(result@[11].slot(5), 0),
        slot_is(result@[11].slot(6), 0),
        slot_is(result@[11].slot(7), 0),
{
    let mut sequences: Vec<Sequence> = Vec::new();
    sequences.push(Sequence::new(
        8,
        filled(0),
        filled(3),
        filled(5),
        filled(8),
        filled(9),
        filled(10),
        filled(12),
        filled(15),
    ));
    sequences.push(Sequence::new(
        5,
        filled(15),
        filled(5),
        filled(5),
        filled(5),
        filled(0),
        None,
        None,
        None,
    ));
    sequences.push(Sequence::new(
        8,
        filled(0),
        filled(7),
        filled(15),
        filled(7),
        filled(0),
        filled(7),
        filled(15),
        filled(1),
    ));
    sequences.push(Sequence::new(
        7,
        filled(15),
        filled(15),
        filled(15),
        filled(15),
        filled(15),
        filled(15),
        filled(15),
        None,
    ));
    sequences.push(Sequence::new(
        8,
        filled(0),
        filled(15),
        filled(0),
        filled(0),
        filled(15),
        filled(0),
        filled(0),
        filled(15),
    ));
    sequences.push(Sequence::new(
        8,
        filled(0),
        filled(15),
        filled(0),
        filled(15),
        filled(0),
        filled(15),
        filled(0),
        filled(15),
    ));
    sequences.push(Sequence::new(
        8,
        filled(0),
        filled(0),
        filled(0),
        filled(0),
        filled(15),
        filled(15),
        filled(15),
        filled(15),
    ));
    sequences.push(Sequence::new(
        8,
        filled(15),
        filled(15),
        filled(15),
        filled(15),
        filled(0),
        filled(0),
        filled(0),
        filled(0),
    ));
    sequences.push(Sequence::new(
        8,
        filled(15),
        filled(15),
        filled(0),
        filled(0),
        filled(15),
        filled(15),
        filled(0),
        filled(0),
    ));
    sequences.push(Sequence::new(
        8,
        filled(15),
        filled(15),
        filled(15),
        filled(0),
        filled(0),
        filled(15),
        filled(0),
        filled(15),
    ));
    sequences.push(Sequence::new(
        8,
        filled(8),
        filled(8),
        filled(8),
        filled(12),
        filled(0),
        filled(8),
        filled(8),
        filled(12),
    ));
    sequences.push(Sequence::new(
        8,
        filled(0),
        filled(0),
        filled(0),
        filled(0),
        filled(0),
        filled(0),
        filled(0),
        filled(0),
    ));
    sequences
}

/// Debounced preset selector owning the preset table and the pointer into
/// it. The advance input pin is sampled by the caller and enters
/// `check_sequence_change` as a plain level (`true` = pulled low).
pub struct SequenceController {
    sequences: Vec<Sequence>,
    sequence_pointer: usize,
    last_sequence_change_state: bool,
}

impl SequenceController {
    #[verifier::type_invariant]
    spec fn type_inv(self) -> bool {
        &&& self.sequences@.len() >= 1
        &&& self.sequence_pointer < self.sequences@.len()
        &&& forall|i: int|
            0 <= i < self.sequences@.len() ==> (#[trigger] self.sequences@[i]).wf()
    }

    /// The preset table.
    pub closed spec fn table(&self) -> Seq<Sequence> {
        self.sequences@
    }

    /// The active preset's index.
    pub closed spec fn pointer(&self) -> usize {
        self.sequence_pointer
    }

    /// The advance-input level observed at the previous poll.
    pub closed spec fn last_change_state(&self) -> bool {
        self.last_sequence_change_state
    }

    /// The active preset.
    pub open spec fn active_sequence(&self) -> Sequence {
        self.table()[self.pointer() as int]
    }

    /// A selector over the given preset table, starting at preset 0 with
    /// no advance press latched.
    pub fn new(sequences: Vec<Sequence>) -> (result: Self)
        requires
            sequences@.len() >= 1,
            forall|i: int| 0 <= i < sequences@.len() ==> (#[trigger] sequences@[i]).wf(),
        ensures
            result.table() == sequences@,
            result.pointer() == 0,
            result.last_change_state() == false,
    {
        Self { sequences, sequence_pointer: 0, last_sequence_change_state: false }
    }

    /// One selector poll. `input_low` is the sampled advance-input level
    /// (the pin is pulled up, so low means pressed). A low-transition
    /// advances the pointer, wrapping past the end of the table; holding
    /// the input low recognizes no further change.
    pub fn check_sequence_change(&mut self, input_low: bool) -> (result: SequenceState)
        ensures
            result.did_change == change_recognized(old(self).last_change_state(), input_low),
            final(self).table() == old(self).table(),
            final(self).pointer() == if result.did_change {
                next_pointer_of(old(self).pointer(), old(self).table().len() as usize)
            } else {
                old(self).pointer()
            },
            final(self).last_change_state() == input_low,
            final(self).pointer() < final(self).table().len(),
            result.sequence_pointer == final(self).pointer(),
            result.sequence == final(self).active_sequence(),
            result.sequence.wf(),
    {
        proof {
            use_type_invariant(&*self);
        }
        let last_sequence_change_trigger_state = self.last_sequence_change_state;
        let mut new_sequence_pointer = self.sequence_pointer;

        let did_change = input_low && false == last_sequence_change_trigger_state;

        if did_change {
            let table_len = self.sequences.len();
            new_sequence_pointer += 1;
            if table_len <= new_sequence_pointer {
                new_sequence_pointer = 0;
            }

            self.sequence_pointer = new_sequence_pointer;
        }

        self.last_sequence_change_state = input_low;

        SequenceState {
            sequence: self.sequences[self.sequence_pointer],
            sequence_pointer: self.sequence_pointer,
            did_change,
        }
    }

    /// The active preset, without polling the input.
    pub fn get_sequence(&self) -> (result: Sequence)
        ensures
            result == self.active_sequence(),
            result.wf(),
    {
        proof {
            use_type_invariant(self);
        }
        self.sequences[self.sequence_pointer]
    }
}

} // verus!
