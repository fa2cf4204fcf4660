use hpm_riscv_rt::region::{RamImage, RegionDescriptor, WordMemory};

fn image() -> RamImage {
    RamImage::new(0x100, vec![1, 2, 3, 4, 0xAA, 0xBB, 0xCC, 0xDD, 9, 9])
}

#[test]
fn copy_in_copies_source_words() {
    let mut mem = image();
    let r = RegionDescriptor::copy_in(0x110, 0x120, 0x100);
    assert!(r.is_valid());
    assert_eq!(r.initialize(&mut mem), 4);
    assert_eq!(mem.cells, vec![1, 2, 3, 4, 1, 2, 3, 4, 9, 9]);
}

#[test]
fn copy_in_reads_through_trait() {
    let mut mem = image();
    let r = RegionDescriptor::copy_in(0x120, 0x128, 0x104);
    assert_eq!(r.initialize(&mut mem), 2);
    assert_eq!(mem.read_word(0x120), 2);
    assert_eq!(mem.read_word(0x124), 3);
    assert_eq!(mem.read_word(0x11C), 0xDD);
}

#[test]
fn copy_in_with_source_overlapping_after_destination() {
    let mut mem = image();
    let r = RegionDescriptor::copy_in(0x100, 0x110, 0x104);
    assert!(r.is_valid());
    assert_eq!(r.initialize(&mut mem), 4);
    assert_eq!(mem.cells, vec![2, 3, 4, 0xAA, 0xAA, 0xBB, 0xCC, 0xDD, 9, 9]);
}

#[test]
fn zero_fill_clears_every_word() {
    let mut mem = image();
    let r = RegionDescriptor::zero_fill(0x104, 0x118);
    assert!(r.is_valid());
    assert_eq!(r.initialize(&mut mem), 5);
    assert_eq!(mem.cells, vec![1, 0, 0, 0, 0, 0, 0xCC, 0xDD, 9, 9]);
}

#[test]
fn empty_region_writes_nothing_and_is_idempotent() {
    let mut mem = image();
    let copy = RegionDescriptor::copy_in(0x108, 0x108, 0x100);
    let zero = RegionDescriptor::zero_fill(0x108, 0x108);
    assert!(copy.is_empty());
    assert_eq!(copy.initialize(&mut mem), 0);
    assert_eq!(zero.initialize(&mut mem), 0);
    assert_eq!(zero.initialize(&mut mem), 0);
    assert_eq!(mem.cells, image().cells);
}

#[test]
fn region_validity() {
    assert!(!RegionDescriptor::zero_fill(0x110, 0x100).is_valid());
    assert!(!RegionDescriptor::zero_fill(0x102, 0x110).is_valid());
    assert!(!RegionDescriptor::zero_fill(0x100, 0x10E).is_valid());
    assert!(!RegionDescriptor::copy_in(0x100, 0x110, 0x102).is_valid());
    // A source that starts before the destination and runs into it would be
    // overwritten before it is read.
    assert!(!RegionDescriptor::copy_in(0x104, 0x114, 0x100).is_valid());
    assert!(RegionDescriptor::copy_in(0x110, 0x120, 0x100).is_valid());
    assert!(!RegionDescriptor::copy_in(0x0, 0x10, usize::MAX - 7).is_valid());
}


#[test]
fn transfers_list_each_word() {
    let r = RegionDescriptor::copy_in(0x110, 0x11C, 0x200);
    assert_eq!(r.len_words(), 3);
    assert_eq!(r.transfer(0), (0x110, Some(0x200)));
    assert_eq!(r.transfer(2), (0x118, Some(0x208)));
    let z = RegionDescriptor::zero_fill(0x40, 0x48);
    assert_eq!(z.len_words(), 2);
    assert_eq!(z.transfer(1), (0x44, None));
    assert_eq!(RegionDescriptor::zero_fill(0x40, 0x40).len_words(), 0);
}
