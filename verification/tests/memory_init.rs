use msp430_rt::layout::MemoryLayout;
use msp430_rt::memory::{init_data, init_memory, zero_bss};

fn address_space(fill: u8) -> Vec<u8> {
    vec![fill; 0x1_0000]
}

#[test]
fn boot_zeroes_bss_and_seeds_data() {
    let mut mem = address_space(0xFF);
    mem[0xC000..0xC004].copy_from_slice(&[0xAA, 0xBB, 0xCC, 0xDD]);
    let layout = MemoryLayout {
        zero_start: 0x0200,
        zero_end: 0x0204,
        data_start: 0x0204,
        data_end: 0x0208,
        data_source: 0xC000,
        stack_top: 0x0400,
    };
    init_memory(&mut mem, &layout);
    assert_eq!(
        mem[0x0200..0x0208],
        [0x00, 0x00, 0x00, 0x00, 0xAA, 0xBB, 0xCC, 0xDD]
    );
    assert_eq!(mem[0xC000..0xC004], [0xAA, 0xBB, 0xCC, 0xDD]);
    assert_eq!(mem[0x01FF], 0xFF);
    assert_eq!(mem[0x0208], 0xFF);
    assert_eq!(mem.len(), 0x1_0000);
}

#[test]
fn zero_region_reads_zero_everywhere() {
    let mut mem: Vec<u8> = (0..64).map(|i| i as u8 + 1).collect();
    zero_bss(&mut mem, 8, 24);
    for a in 0..64usize {
        let expected = if (8..24).contains(&a) { 0 } else { a as u8 + 1 };
        assert_eq!(mem[a], expected, "address {a}");
    }
}

#[test]
fn zero_region_up_to_end_of_memory() {
    let mut mem = vec![7u8; 10];
    zero_bss(&mut mem, 6, 10);
    assert_eq!(mem, [7, 7, 7, 7, 7, 7, 0, 0, 0, 0]);
}

#[test]
fn empty_and_inverted_regions_change_nothing() {
    let mut mem = vec![9u8; 16];
    zero_bss(&mut mem, 4, 4);
    zero_bss(&mut mem, 12, 2);
    zero_bss(&mut mem, 0xFFF0, 0x0010);
    init_data(&mut mem, 8, 8, 0);
    init_data(&mut mem, 10, 4, 0xFFFF);
    assert_eq!(mem, vec![9u8; 16]);
}

#[test]
fn data_region_equals_source_at_every_offset() {
    let mut mem: Vec<u8> = (0..32).map(|i| 0x40 + i as u8).collect();
    let before = mem.clone();
    init_data(&mut mem, 4, 12, 20);
    for i in 0..8usize {
        assert_eq!(mem[4 + i], before[20 + i], "offset {i}");
    }
    for a in (0..4usize).chain(12..32) {
        assert_eq!(mem[a], before[a], "address {a}");
    }
}

#[test]
fn copy_reads_source_as_it_was_when_source_lies_below() {
    let mut mem: Vec<u8> = vec![1, 2, 3, 4, 5, 6, 7, 8];
    init_data(&mut mem, 2, 6, 0);
    assert_eq!(mem, [1, 2, 1, 2, 3, 4, 7, 8]);
}

#[test]
fn copy_reads_source_as_it_was_when_source_lies_above() {
    let mut mem: Vec<u8> = vec![1, 2, 3, 4, 5, 6, 7, 8];
    init_data(&mut mem, 0, 4, 2);
    assert_eq!(mem, [3, 4, 5, 6, 5, 6, 7, 8]);
}

#[test]
fn copy_onto_itself_changes_nothing() {
    let mut mem: Vec<u8> = vec![1, 2, 3, 4, 5, 6, 7, 8];
    init_data(&mut mem, 2, 6, 2);
    assert_eq!(mem, [1, 2, 3, 4, 5, 6, 7, 8]);
}

#[test]
fn copy_wins_where_data_overlaps_zero_region() {
    let mut mem = vec![0xEEu8; 32];
    mem[16..20].copy_from_slice(&[0x11, 0x22, 0x33, 0x44]);
    let layout = MemoryLayout {
        zero_start: 0,
        zero_end: 8,
        data_start: 6,
        data_end: 10,
        data_source: 16,
        stack_top: 32,
    };
    init_memory(&mut mem, &layout);
    assert_eq!(mem[0..6], [0, 0, 0, 0, 0, 0]);
    assert_eq!(mem[6..10], [0x11, 0x22, 0x33, 0x44]);
    assert_eq!(mem[10..16], [0xEE; 6]);
}

#[test]
fn reversed_passes_would_lose_the_copy() {
    let mut mem = vec![0xEEu8; 32];
    mem[16..20].copy_from_slice(&[0x11, 0x22, 0x33, 0x44]);
    init_data(&mut mem, 6, 10, 16);
    zero_bss(&mut mem, 0, 8);
    assert_eq!(mem[6..10], [0, 0, 0x33, 0x44]);
}

#[test]
fn source_inside_zero_region_is_read_after_zeroing() {
    let mut mem = vec![0x55u8; 16];
    let layout = MemoryLayout {
        zero_start: 0,
        zero_end: 4,
        data_start: 8,
        data_end: 12,
        data_source: 2,
        stack_top: 16,
    };
    init_memory(&mut mem, &layout);
    assert_eq!(mem[8..12], [0, 0, 0x55, 0x55]);
}

#[test]
fn init_memory_equals_zero_then_copy() {
    let layout = MemoryLayout {
        zero_start: 2,
        zero_end: 20,
        data_start: 10,
        data_end: 30,
        data_source: 5,
        stack_top: 40,
    };
    let start: Vec<u8> = (0..40).map(|i| 0x80 | i as u8).collect();
    let mut whole = start.clone();
    init_memory(&mut whole, &layout);
    let mut stepwise = start.clone();
    zero_bss(&mut stepwise, 2, 20);
    let zeroed = stepwise.clone();
    init_data(&mut stepwise, 10, 30, 5);
    assert_eq!(whole, stepwise);
    for i in 0..20usize {
        assert_eq!(whole[10 + i], zeroed[5 + i], "offset {i}");
    }
    for a in 2..10usize {
        assert_eq!(whole[a], 0, "address {a}");
    }
}
