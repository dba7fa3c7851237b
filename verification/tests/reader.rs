use frag_test::reader::{PageMap, PAGE_SIZE};
use frag_test::FragError;

fn source_of(records: &[u64]) -> Vec<u8> {
    let mut data = Vec::new();
    for r in records {
        data.extend_from_slice(&r.to_le_bytes());
    }
    data
}

#[test]
fn point_read_decodes_the_indexed_record() {
    let map = PageMap::new(source_of(&[0xaa, 0xbb, 0xcc]));
    assert_eq!(map.get_by_vaddr(0).unwrap().pfn(), 0xaa);
    assert_eq!(map.get_by_vaddr(PAGE_SIZE).unwrap().pfn(), 0xbb);
    assert_eq!(map.get_by_vaddr(2 * PAGE_SIZE).unwrap().pfn(), 0xcc);
}

#[test]
fn misaligned_point_read_is_a_contract_violation() {
    let map = PageMap::new(source_of(&[0xaa, 0xbb]));
    assert_eq!(map.get_by_vaddr(1), Err(FragError::ContractViolation));
    assert_eq!(map.get_by_vaddr(PAGE_SIZE + 8), Err(FragError::ContractViolation));
    assert_eq!(map.get_by_vaddr(PAGE_SIZE - 1), Err(FragError::ContractViolation));
}

#[test]
fn point_read_past_the_source_is_an_io_failure() {
    let map = PageMap::new(source_of(&[0xaa, 0xbb]));
    assert_eq!(map.get_by_vaddr(2 * PAGE_SIZE), Err(FragError::IoFailure));
}

#[test]
fn short_record_at_the_tail_is_an_io_failure() {
    let mut data = source_of(&[0xaa]);
    data.extend_from_slice(&[1, 2, 3]);
    let map = PageMap::new(data);
    assert_eq!(map.get_by_vaddr(0).unwrap().pfn(), 0xaa);
    assert_eq!(map.get_by_vaddr(PAGE_SIZE), Err(FragError::IoFailure));
}

#[test]
fn range_read_returns_the_ordered_records() {
    let map = PageMap::new(source_of(&[10, 11, 12, 13]));
    let entries = map.get_by_range(PAGE_SIZE, 4 * PAGE_SIZE).unwrap();
    assert_eq!(entries.len(), 3);
    assert_eq!(entries[0].pfn(), 11);
    assert_eq!(entries[1].pfn(), 12);
    assert_eq!(entries[2].pfn(), 13);
}

#[test]
fn range_read_equals_point_reads_at_each_page() {
    let map = PageMap::new(source_of(&[5, 99, 1024, 7, 0]));
    let entries = map.get_by_range(0, 5 * PAGE_SIZE).unwrap();
    assert_eq!(entries.len(), 5);
    for (i, e) in entries.iter().enumerate() {
        let point = map.get_by_vaddr(i as u64 * PAGE_SIZE).unwrap();
        assert_eq!(*e, point);
    }
}

#[test]
fn empty_range_reads_no_records() {
    let map = PageMap::new(source_of(&[10, 11]));
    let entries = map.get_by_range(PAGE_SIZE, PAGE_SIZE).unwrap();
    assert_eq!(entries.len(), 0);
}

#[test]
fn misaligned_range_is_a_contract_violation() {
    let map = PageMap::new(source_of(&[10, 11, 12, 13]));
    assert_eq!(map.get_by_range(1, PAGE_SIZE), Err(FragError::ContractViolation));
    assert_eq!(
        map.get_by_range(0, PAGE_SIZE + 100),
        Err(FragError::ContractViolation)
    );
    assert_eq!(
        map.get_by_range(PAGE_SIZE, PAGE_SIZE / 2 * 3),
        Err(FragError::ContractViolation)
    );
}

#[test]
fn inverted_range_is_a_contract_violation() {
    let map = PageMap::new(source_of(&[10, 11]));
    assert_eq!(map.get_by_range(PAGE_SIZE, 0), Err(FragError::ContractViolation));
}

#[test]
fn short_read_mid_range_is_an_io_failure_with_no_partial_result() {
    let mut data = source_of(&[10, 11]);
    data.extend_from_slice(&[1, 2, 3, 4]);
    let map = PageMap::new(data);
    let r = map.get_by_range(0, 3 * PAGE_SIZE);
    assert_eq!(r, Err(FragError::IoFailure));
    let r = map.get_by_range(0, 4 * PAGE_SIZE);
    assert_eq!(r, Err(FragError::IoFailure));
}
