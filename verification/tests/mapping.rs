use virtio_iommu::mapping::{IommuMapping, Mapping};

const WINDOW: u64 = 0x20_1000;

fn translate(tables: &IommuMapping, id: u32, addr: u64) -> u64 {
    tables.translate(id, addr).unwrap()
}

/// Endpoint 7 in domain 1, with one page mapped.
fn one_page() -> IommuMapping {
    let mut tables = IommuMapping::new();
    tables.attach(7, 1);
    assert!(tables.map(1, 0x1000, Mapping { gpa: 0x8000, size: 0x1000 }));
    tables
}

#[test]
fn empty_tables_translate_to_the_same_address() {
    let tables = IommuMapping::new();
    assert_eq!(translate(&tables, 0, 0), 0);
    assert_eq!(translate(&tables, 7, 0x1234), 0x1234);
    assert_eq!(translate(&tables, 7, u64::MAX), u64::MAX);
}

#[test]
fn mapped_range_is_translated_to_its_last_byte() {
    let tables = one_page();
    assert_eq!(translate(&tables, 7, 0x0fff), 0x0fff);
    assert_eq!(translate(&tables, 7, 0x1000), 0x8000);
    assert_eq!(translate(&tables, 7, 0x1234), 0x8234);
    assert_eq!(translate(&tables, 7, 0x1fff), 0x8fff);
    assert_eq!(translate(&tables, 7, 0x2000), 0x2000);
}

#[test]
fn unattached_endpoint_is_not_translated() {
    let tables = one_page();
    assert_eq!(translate(&tables, 8, 0x1234), 0x1234);
}

#[test]
fn endpoints_of_one_domain_share_its_mappings() {
    let mut tables = one_page();
    tables.attach(8, 1);
    assert_eq!(translate(&tables, 8, 0x1234), 0x8234);
    assert_eq!(translate(&tables, 7, 0x1234), 0x8234);
}

#[test]
fn domains_are_separate() {
    let mut tables = one_page();
    tables.attach(8, 2);
    assert!(tables.map(2, 0x1000, Mapping { gpa: 0x2_0000, size: 0x1000 }));
    assert_eq!(translate(&tables, 7, 0x1234), 0x8234);
    assert_eq!(translate(&tables, 8, 0x1234), 0x2_0234);
    tables.unmap(2, 0x1000);
    assert_eq!(translate(&tables, 7, 0x1234), 0x8234);
    assert_eq!(translate(&tables, 8, 0x1234), 0x1234);
}

#[test]
fn attaching_again_moves_the_endpoint() {
    let mut tables = one_page();
    tables.attach(7, 2);
    assert_eq!(translate(&tables, 7, 0x1234), 0x1234);
    // The mappings of the first domain are still there.
    tables.attach(7, 1);
    assert_eq!(translate(&tables, 7, 0x1234), 0x8234);
}

#[test]
fn attaching_twice_is_attaching_once() {
    let mut tables = one_page();
    tables.attach(7, 1);
    assert_eq!(translate(&tables, 7, 0x1234), 0x8234);
}

#[test]
fn detached_endpoint_is_not_translated() {
    let mut tables = one_page();
    tables.attach(8, 1);
    tables.detach(7);
    assert_eq!(translate(&tables, 7, 0x1234), 0x1234);
    assert_eq!(translate(&tables, 8, 0x1234), 0x8234);
    tables.attach(7, 1);
    assert_eq!(translate(&tables, 7, 0x1234), 0x8234);
}

#[test]
fn detaching_an_unattached_endpoint_does_nothing() {
    let mut tables = one_page();
    tables.detach(99);
    assert_eq!(translate(&tables, 7, 0x1234), 0x8234);
}

#[test]
fn unknown_domain_cannot_be_mapped() {
    let mut tables = IommuMapping::new();
    assert!(!tables.map(1, 0x1000, Mapping { gpa: 0x8000, size: 0x1000 }));
    tables.attach(7, 1);
    assert_eq!(translate(&tables, 7, 0x1234), 0x1234);
}

#[test]
fn unmapping_takes_back_a_mapping() {
    let mut tables = one_page();
    tables.map(1, 0x4000, Mapping { gpa: 0x2_0000, size: 0x1000 });
    tables.unmap(1, 0x4000);
    assert_eq!(translate(&tables, 7, 0x4010), 0x4010);
    assert_eq!(translate(&tables, 7, 0x1234), 0x8234);
    // Nothing starts inside a mapping, and nothing is known of domain 9.
    tables.unmap(1, 0x1001);
    tables.unmap(9, 0x1000);
    assert_eq!(translate(&tables, 7, 0x1234), 0x8234);
}

#[test]
fn mapping_again_replaces_the_mapping_with_the_same_start() {
    let mut tables = one_page();
    tables.map(1, 0x1000, Mapping { gpa: 0x3_0000, size: 0x10 });
    assert_eq!(translate(&tables, 7, 0x100f), 0x3_000f);
    assert_eq!(translate(&tables, 7, 0x1010), 0x1010);
}

#[test]
fn lowest_of_overlapping_mappings_wins() {
    let mut tables = one_page();
    tables.map(1, 0x1800, Mapping { gpa: 0x5_0000, size: 0x1000 });
    assert_eq!(translate(&tables, 7, 0x17ff), 0x87ff);
    assert_eq!(translate(&tables, 7, 0x1800), 0x8800);
    assert_eq!(translate(&tables, 7, 0x1fff), 0x8fff);
    assert_eq!(translate(&tables, 7, 0x2000), 0x5_0800);
}

#[test]
fn short_mapping_in_front_does_not_hide_a_longer_one() {
    let mut tables = IommuMapping::new();
    tables.attach(7, 1);
    tables.map(1, 0x1000, Mapping { gpa: 0x8000, size: 0x3000 });
    tables.map(1, 0x2000, Mapping { gpa: 0x5_0000, size: 0x10 });
    assert_eq!(translate(&tables, 7, 0x2800), 0x9800);
}

#[test]
fn mappings_reach_one_window_far() {
    let mut tables = IommuMapping::new();
    tables.attach(7, 1);
    tables.map(1, 0x1000, Mapping { gpa: 0x1000_0000, size: 0x100_0000 });
    let last = 0x1000 + WINDOW;
    assert_eq!(translate(&tables, 7, last), 0x1000_0000 + WINDOW);
    assert_eq!(translate(&tables, 7, last + 1), last + 1);
}

#[test]
fn window_of_low_addresses_starts_at_zero() {
    let mut tables = IommuMapping::new();
    tables.attach(7, 1);
    tables.map(1, 0, Mapping { gpa: 0x1000_0000, size: 0x100_0000 });
    assert_eq!(translate(&tables, 7, WINDOW - 1), 0x1000_0000 + WINDOW - 1);
    assert_eq!(translate(&tables, 7, WINDOW), 0x1000_0000 + WINDOW);
    assert_eq!(translate(&tables, 7, WINDOW + 1), WINDOW + 1);
}

#[test]
fn mapping_up_to_the_last_address_covers_nothing() {
    let mut tables = IommuMapping::new();
    tables.attach(7, 1);
    let start = u64::MAX - 0xfff;
    // The end of the mapping is 2^64, which wraps to 0.
    tables.map(1, start, Mapping { gpa: 0x8000, size: 0x1000 });
    assert_eq!(translate(&tables, 7, start), start);
    assert_eq!(translate(&tables, 7, u64::MAX), u64::MAX);
}

#[test]
fn translated_address_wraps() {
    let mut tables = IommuMapping::new();
    tables.attach(7, 1);
    tables.map(1, 0x1000, Mapping { gpa: u64::MAX, size: 0x1000 });
    assert_eq!(translate(&tables, 7, 0x1000), u64::MAX);
    assert_eq!(translate(&tables, 7, 0x1001), 0);
}
