use msp430_rt::handlers::resolve;
use msp430_rt::vectors::{fetch_vector, VectorError, VectorTable, POINTER_WIDTH};

const RESET: u16 = 0xC000;
const BUILTIN: u16 = 0xC0F0;

fn handlers() -> Vec<Option<u16>> {
    let mut h = vec![None; 15];
    h[3] = Some(0xC234);
    h[14] = Some(0xD0FE);
    h
}

#[test]
fn table_fills_the_vector_region_exactly() {
    let t = VectorTable::build(RESET, &handlers(), BUILTIN, 0x20).unwrap();
    assert_eq!(t.slot_count(), 16);
    assert_eq!(t.byte_len(), 16 * POINTER_WIDTH);
    assert_eq!(t.byte_len(), 0x20);
    assert_eq!(t.image().len(), 0x20);
    assert_eq!(POINTER_WIDTH, 2);
}

#[test]
fn slot_zero_is_the_reset_vector() {
    let t = VectorTable::build(RESET, &handlers(), BUILTIN, 0x20).unwrap();
    assert_eq!(t.vector(0), Some(RESET));
    assert_eq!(t.slots[0], RESET);
    assert_eq!(fetch_vector(&t.image(), 0), Some(RESET));
}

#[test]
fn interrupt_slots_hold_their_handler_or_the_default() {
    let t = VectorTable::build(RESET, &handlers(), BUILTIN, 0x20).unwrap();
    for slot in 1..16usize {
        let expected = match slot {
            4 => 0xC234,
            15 => 0xD0FE,
            _ => BUILTIN,
        };
        assert_eq!(t.vector(slot), Some(expected), "slot {slot}");
    }
    assert_eq!(t.vector(16), None);
    assert_eq!(t.vector(usize::MAX), None);
}

#[test]
fn table_of_the_wrong_size_is_refused() {
    for len in [0usize, 1, 2, 0x1E, 0x1F, 0x21, 0x22, 0x40, usize::MAX] {
        let built = VectorTable::build(RESET, &handlers(), BUILTIN, len);
        assert_eq!(built.err(), Some(VectorError::SizeMismatch), "length {len}");
    }
}

#[test]
fn table_of_the_reset_vector_alone() {
    let t = VectorTable::build(RESET, &Vec::new(), BUILTIN, 2).unwrap();
    assert_eq!(t.slots, [RESET]);
    assert_eq!(t.image(), [0x00, 0xC0]);
    assert!(VectorTable::build(RESET, &Vec::new(), BUILTIN, 0).is_err());
}

#[test]
fn image_is_little_endian_slot_by_slot() {
    let h = vec![Some(0x1234), None, Some(0x00FF)];
    let t = VectorTable::build(0xFFFE, &h, 0xABCD, 8).unwrap();
    assert_eq!(
        t.image(),
        [0xFE, 0xFF, 0x34, 0x12, 0xCD, 0xAB, 0xFF, 0x00]
    );
}

#[test]
fn hardware_reads_back_what_the_table_holds() {
    let t = VectorTable::build(RESET, &handlers(), BUILTIN, 0x20).unwrap();
    let bytes = t.image();
    for slot in 0..16usize {
        assert_eq!(fetch_vector(&bytes, slot), t.vector(slot));
    }
    assert_eq!(fetch_vector(&bytes, 16), None);
    assert_eq!(fetch_vector(&vec![0x34, 0x12, 0x56], 0), Some(0x1234));
    assert_eq!(fetch_vector(&vec![0x34, 0x12, 0x56], 1), None);
    assert_eq!(fetch_vector(&vec![0xFF, 0xFF], 0), Some(0xFFFF));
    assert_eq!(fetch_vector(&Vec::new(), 0), None);
    assert_eq!(fetch_vector(&vec![1, 2], usize::MAX), None);
}

#[test]
fn unpopulated_vectors_lead_to_the_builtin_without_override() {
    let bound = resolve(Some(BUILTIN), &Vec::new()).unwrap();
    assert_eq!(bound, BUILTIN);
    let t = VectorTable::build(RESET, &handlers(), bound, 0x20).unwrap();
    for (i, handler) in handlers().iter().enumerate() {
        if handler.is_none() {
            assert_eq!(t.vector(i + 1), Some(BUILTIN));
        }
    }
}

#[test]
fn unpopulated_vectors_lead_to_the_override() {
    let bound = resolve(Some(BUILTIN), &vec![0xE000]).unwrap();
    assert_eq!(bound, 0xE000);
    let t = VectorTable::build(RESET, &handlers(), bound, 0x20).unwrap();
    for (i, handler) in handlers().iter().enumerate() {
        match handler {
            None => assert_eq!(t.vector(i + 1), Some(0xE000)),
            Some(h) => assert_eq!(t.vector(i + 1), Some(*h)),
        }
    }
    assert!(!t.slots.contains(&BUILTIN));
    assert_eq!(t.vector(0), Some(RESET));
}
