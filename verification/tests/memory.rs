use matchbox::error::VmError;
use matchbox::vm::memory::{MemoryMapping, UffdAction, UffdEvent, PAGE_SIZE};

fn counting(size: usize) -> MemoryMapping {
    MemoryMapping::from_bytes((0..size).map(|i| (i % 251) as u8).collect())
}

#[test]
fn new_mapping_is_zeroed() {
    let mapping = MemoryMapping::new(5);
    assert_eq!(mapping.size(), 5);
    let mut buf = vec![9u8; 5];
    assert_eq!(mapping.read_slice(&mut buf, 0), Ok(5));
    assert_eq!(buf, vec![0u8; 5]);
    assert_eq!(MemoryMapping::new(0).size(), 0);
}

#[test]
fn read_copies_as_much_as_both_sides_allow() {
    let mapping = MemoryMapping::from_bytes(vec![10, 11, 12, 13, 14]);
    let mut buf = vec![0u8; 3];
    assert_eq!(mapping.read_slice(&mut buf, 1), Ok(3));
    assert_eq!(buf, vec![11, 12, 13]);
    let mut buf = vec![7u8; 4];
    assert_eq!(mapping.read_slice(&mut buf, 3), Ok(2));
    assert_eq!(buf, vec![13, 14, 7, 7]);
    let mut empty: Vec<u8> = Vec::new();
    assert_eq!(mapping.read_slice(&mut empty, 2), Ok(0));
}

#[test]
fn read_at_the_end_copies_nothing() {
    let mapping = MemoryMapping::from_bytes(vec![1, 2, 3]);
    let mut buf = vec![7u8; 2];
    assert_eq!(mapping.read_slice(&mut buf, 3), Ok(0));
    assert_eq!(buf, vec![7, 7]);
}

#[test]
fn read_behind_the_end_is_mapping_bounds() {
    let mapping = MemoryMapping::from_bytes(vec![1, 2, 3]);
    let mut buf = vec![7u8; 2];
    assert_eq!(mapping.read_slice(&mut buf, 4), Err(VmError::MappingBounds));
    assert_eq!(buf, vec![7, 7]);
    assert_eq!(mapping.read_slice(&mut buf, usize::MAX), Err(VmError::MappingBounds));
}

#[test]
fn write_copies_as_much_as_both_sides_allow() {
    let mut mapping = MemoryMapping::from_bytes(vec![0; 5]);
    assert_eq!(mapping.write_slice(&vec![1, 2], 1), Ok(2));
    let mut all = vec![0u8; 5];
    mapping.read_slice(&mut all, 0).unwrap();
    assert_eq!(all, vec![0, 1, 2, 0, 0]);
    assert_eq!(mapping.write_slice(&vec![9, 9, 9, 9], 3), Ok(2));
    mapping.read_slice(&mut all, 0).unwrap();
    assert_eq!(all, vec![0, 1, 2, 9, 9]);
    assert_eq!(mapping.write_slice(&vec![5], 5), Ok(0));
    assert_eq!(mapping.size(), 5);
}

#[test]
fn write_behind_the_end_is_mapping_bounds() {
    let mut mapping = MemoryMapping::from_bytes(vec![1, 2, 3]);
    assert_eq!(mapping.write_slice(&vec![9], 4), Err(VmError::MappingBounds));
    let mut all = vec![0u8; 3];
    mapping.read_slice(&mut all, 0).unwrap();
    assert_eq!(all, vec![1, 2, 3]);
}

#[test]
fn write_then_read_gives_the_bytes_back() {
    let mut mapping = MemoryMapping::new(64);
    let data: Vec<u8> = (1..=16).collect();
    assert_eq!(mapping.write_slice(&data, 20), Ok(16));
    let mut back = vec![0u8; 16];
    assert_eq!(mapping.read_slice(&mut back, 20), Ok(16));
    assert_eq!(back, data);
}

#[test]
fn fault_inside_the_memory_is_answered_with_its_page() {
    let mapping = counting(3 * PAGE_SIZE);
    let event = UffdEvent::Fault { offset: PAGE_SIZE, address: 0x7f00_0000_1000, write: false };
    match mapping.handle_event(event) {
        Ok(UffdAction::Copy { address, page, mode }) => {
            assert_eq!(address, 0x7f00_0000_1000);
            assert_eq!(mode, 0);
            assert_eq!(page.len(), PAGE_SIZE);
            let expected: Vec<u8> = (PAGE_SIZE..2 * PAGE_SIZE).map(|i| (i % 251) as u8).collect();
            assert_eq!(page, expected);
        }
        other => panic!("unexpected {other:?}"),
    }
}

#[test]
fn write_fault_is_answered_as_a_read_fault() {
    let mapping = counting(PAGE_SIZE);
    let read = mapping.handle_event(UffdEvent::Fault { offset: 0, address: 4096, write: false });
    let write = mapping.handle_event(UffdEvent::Fault { offset: 0, address: 4096, write: true });
    assert_eq!(read, write);
}

#[test]
fn last_page_is_padded_with_zeroes() {
    let mapping = counting(PAGE_SIZE + 10);
    match mapping.handle_event(UffdEvent::Fault { offset: PAGE_SIZE, address: 0, write: false }) {
        Ok(UffdAction::Copy { page, .. }) => {
            assert_eq!(page.len(), PAGE_SIZE);
            let head: Vec<u8> = (PAGE_SIZE..PAGE_SIZE + 10).map(|i| (i % 251) as u8).collect();
            assert_eq!(&page[..10], &head[..]);
            assert!(page[10..].iter().all(|b| *b == 0));
        }
        other => panic!("unexpected {other:?}"),
    }
}

#[test]
fn fault_beyond_the_memory_is_mapping_bounds() {
    let mapping = counting(2 * PAGE_SIZE);
    for offset in [2 * PAGE_SIZE, 2 * PAGE_SIZE + 1, usize::MAX] {
        let event = UffdEvent::Fault { offset, address: 0, write: false };
        assert_eq!(mapping.handle_event(event), Err(VmError::MappingBounds));
    }
    let next = mapping.handle_event(UffdEvent::Fault { offset: 0, address: 0, write: false });
    assert!(matches!(next, Ok(UffdAction::Copy { .. })));
}

#[test]
fn unmap_and_remove_end_the_serving() {
    let mapping = counting(PAGE_SIZE);
    assert_eq!(mapping.handle_event(UffdEvent::Unmap), Ok(UffdAction::Exit));
    assert_eq!(mapping.handle_event(UffdEvent::Remove), Ok(UffdAction::Exit));
}

#[test]
fn page_size_is_four_kibibytes() {
    assert_eq!(PAGE_SIZE, 4096);
}
