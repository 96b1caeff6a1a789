use xhci::accessor::{array_mapping, element_address, is_aligned, single_mapping, Iter, Mapping};
use xhci::error::Error;

#[test]
fn aligned_single_accessor_maps_its_value() {
    assert!(is_aligned::<u32>(0x1004));
    assert_eq!(
        single_mapping::<u32>(0x1004, 0x10),
        Ok(Mapping { phys_start: 0x1014, bytes: 4 })
    );
}

#[test]
fn unaligned_single_accessor_is_refused() {
    assert!(!is_aligned::<u32>(0x1002));
    assert_eq!(
        single_mapping::<u32>(0x1002, 0x10),
        Err(Error::NotAligned { alignment: 4, address: 0x1002 })
    );
}

#[test]
fn array_accessor_maps_every_element() {
    assert_eq!(
        array_mapping::<u64>(0x2000, 0x8, 4),
        Ok(Mapping { phys_start: 0x2008, bytes: 32 })
    );
    assert_eq!(
        array_mapping::<u16>(0x2001, 0x8, 4),
        Err(Error::NotAligned { alignment: 2, address: 0x2001 })
    );
    assert_eq!(element_address::<u64>(0x2008, 3), 0x2020);
}

#[test]
fn array_indices_are_visited_once() {
    let mut it = Iter::new(3);
    assert_eq!(it.next(), Some(0));
    assert_eq!(it.next(), Some(1));
    assert_eq!(it.next(), Some(2));
    assert_eq!(it.next(), None);
    assert_eq!(it.next(), None);
}
