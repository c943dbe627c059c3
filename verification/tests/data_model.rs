use step_sequencer::{DacByte, Sequence, Task, TaskId};

fn seq8(values: [u8; 8]) -> Sequence {
    Sequence::new(
        8,
        Some(DacByte::new(values[0])),
        Some(DacByte::new(values[1])),
        Some(DacByte::new(values[2])),
        Some(DacByte::new(values[3])),
        Some(DacByte::new(values[4])),
        Some(DacByte::new(values[5])),
        Some(DacByte::new(values[6])),
        Some(DacByte::new(values[7])),
    )
}

#[test]
fn dac_byte_wraps_its_value() {
    assert_eq!(DacByte::new(0).value(), 0);
    assert_eq!(DacByte::new(9).value(), 9);
    assert_eq!(DacByte::new(15).value(), 15);
}

#[test]
fn dac_byte_named_values() {
    assert_eq!(DacByte::max().value(), 15);
    assert_eq!(DacByte::half().value(), 7);
    assert_eq!(DacByte::min().value(), 0);
}

#[test]
fn dac_byte_matches_is_bitwise() {
    let d = DacByte::new(0b1010);
    assert!(d.matches(0b1000));
    assert!(d.matches(0b0010));
    assert!(d.matches(0b1010));
    assert!(!d.matches(0b0100));
    assert!(!d.matches(0b0001));
    assert!(!d.matches(0b1111));
    assert!(DacByte::new(0).matches(0));
}

#[test]
fn sequence_len_is_declared_length() {
    let s = Sequence::new(
        3,
        Some(DacByte::new(1)),
        Some(DacByte::new(2)),
        Some(DacByte::new(3)),
        None,
        None,
        None,
        None,
        None,
    );
    assert_eq!(s.len(), 3);
}

#[test]
fn sequence_get_step_selects_by_mask() {
    let s = seq8([1, 3, 5, 8, 9, 10, 12, 15]);
    assert_eq!(s.get_step(0b0000_0001).unwrap().value(), 1);
    assert_eq!(s.get_step(0b0000_0010).unwrap().value(), 3);
    assert_eq!(s.get_step(0b0000_0100).unwrap().value(), 5);
    assert_eq!(s.get_step(0b0000_1000).unwrap().value(), 8);
    assert_eq!(s.get_step(0b0001_0000).unwrap().value(), 9);
    assert_eq!(s.get_step(0b0010_0000).unwrap().value(), 10);
    assert_eq!(s.get_step(0b0100_0000).unwrap().value(), 12);
    assert_eq!(s.get_step(0b1000_0000).unwrap().value(), 15);
}

#[test]
fn sequence_get_step_rejects_non_one_hot_masks() {
    let s = seq8([1, 3, 5, 8, 9, 10, 12, 15]);
    assert!(s.get_step(0).is_none());
    assert!(s.get_step(0b0000_0011).is_none());
    assert!(s.get_step(0b1111_1111).is_none());
}

#[test]
fn sequence_get_step_reads_unpopulated_slots_as_none() {
    let s = Sequence::new(
        2,
        Some(DacByte::new(7)),
        None,
        None,
        None,
        None,
        None,
        None,
        None,
    );
    assert!(s.get_step(0b0000_0010).is_none());
    assert!(s.get_step(0b1000_0000).is_none());
}

#[test]
fn sequence_matches_means_positive_intensity() {
    let s = Sequence::new(
        4,
        Some(DacByte::new(0)),
        Some(DacByte::new(1)),
        None,
        Some(DacByte::new(15)),
        None,
        None,
        None,
        None,
    );
    assert!(!s.matches(0b0000_0001)); // intensity 0
    assert!(s.matches(0b0000_0010)); // intensity 1
    assert!(!s.matches(0b0000_0100)); // unpopulated
    assert!(s.matches(0b0000_1000)); // intensity 15
}

#[derive(Debug, Clone, Copy, PartialEq, Eq)]
enum PingTask {
    Ping,
}

impl TaskId for PingTask {}

#[test]
fn task_new_pairs_action_and_time() {
    let t = Task::new(PingTask::Ping, 1234);
    assert_eq!(t.id, PingTask::Ping);
    assert_eq!(t.timestamp, 1234);
}
