use frag_test::codec::{
    SinglePageData, PAGEMAP_EXCLUSIVE_MASK, PAGEMAP_FILE_MASK, PAGEMAP_PFN_MASK,
    PAGEMAP_PRESENT_MASK, PAGEMAP_SOFT_DIRTY_MASK, PAGEMAP_SWAP_MASK,
};

#[test]
fn decode_all_flags_and_frame() {
    let raw = PAGEMAP_PRESENT_MASK | PAGEMAP_EXCLUSIVE_MASK | 42u64;
    let e = SinglePageData::from_raw(raw);
    assert!(e.present());
    assert!(!e.swap());
    assert!(!e.file_backed());
    assert!(e.exclusive());
    assert!(!e.soft_dirty());
    assert_eq!(e.pfn(), 42);
}

#[test]
fn decode_accepts_every_pattern() {
    let e = SinglePageData::from_raw(u64::MAX);
    assert!(e.present());
    assert!(e.swap());
    assert!(e.file_backed());
    assert!(e.exclusive());
    assert!(e.soft_dirty());
    assert_eq!(e.pfn(), PAGEMAP_PFN_MASK);

    let z = SinglePageData::from_raw(0);
    assert!(!z.present());
    assert!(!z.swap());
    assert!(!z.file_backed());
    assert!(!z.exclusive());
    assert!(!z.soft_dirty());
    assert_eq!(z.pfn(), 0);
}

fn reassemble(e: SinglePageData) -> u64 {
    let mut raw = e.pfn() & PAGEMAP_PFN_MASK;
    if e.present() {
        raw |= PAGEMAP_PRESENT_MASK;
    }
    if e.swap() {
        raw |= PAGEMAP_SWAP_MASK;
    }
    if e.file_backed() {
        raw |= PAGEMAP_FILE_MASK;
    }
    if e.exclusive() {
        raw |= PAGEMAP_EXCLUSIVE_MASK;
    }
    if e.soft_dirty() {
        raw |= PAGEMAP_SOFT_DIRTY_MASK;
    }
    raw
}

#[test]
fn round_trip_on_defined_bits() {
    let defined = PAGEMAP_PRESENT_MASK
        | PAGEMAP_SWAP_MASK
        | PAGEMAP_FILE_MASK
        | PAGEMAP_EXCLUSIVE_MASK
        | PAGEMAP_SOFT_DIRTY_MASK
        | PAGEMAP_PFN_MASK;
    let samples = [
        0u64,
        42,
        PAGEMAP_PRESENT_MASK | 100,
        PAGEMAP_SWAP_MASK | PAGEMAP_SOFT_DIRTY_MASK | 0x1234_5678,
        defined,
        0xdead_beef_cafe_f00d & defined,
    ];
    for raw in samples {
        assert_eq!(raw & defined, raw);
        assert_eq!(reassemble(SinglePageData::from_raw(raw)), raw);
    }
}

#[test]
fn toggling_one_flag_bit_changes_one_predicate() {
    let base = PAGEMAP_PRESENT_MASK | 777u64;
    let e = SinglePageData::from_raw(base);
    let t = SinglePageData::from_raw(base ^ PAGEMAP_SWAP_MASK);
    assert_eq!(t.present(), e.present());
    assert_ne!(t.swap(), e.swap());
    assert_eq!(t.file_backed(), e.file_backed());
    assert_eq!(t.exclusive(), e.exclusive());
    assert_eq!(t.soft_dirty(), e.soft_dirty());
    assert_eq!(t.pfn(), e.pfn());
}

#[test]
fn toggling_a_frame_bit_leaves_the_flags() {
    let base = PAGEMAP_PRESENT_MASK | PAGEMAP_FILE_MASK | 777u64;
    let e = SinglePageData::from_raw(base);
    let t = SinglePageData::from_raw(base ^ (1u64 << 3));
    assert_eq!(t.present(), e.present());
    assert_eq!(t.swap(), e.swap());
    assert_eq!(t.file_backed(), e.file_backed());
    assert_eq!(t.exclusive(), e.exclusive());
    assert_eq!(t.soft_dirty(), e.soft_dirty());
    assert_ne!(t.pfn(), e.pfn());
    assert_eq!(t.pfn(), e.pfn() ^ 8);
}

#[test]
fn render_flags_and_decimal_frame() {
    let e = SinglePageData::from_raw(PAGEMAP_PRESENT_MASK | PAGEMAP_SOFT_DIRTY_MASK | 12345u64);
    assert_eq!(e.render(), "P---D 12345");
}

#[test]
fn render_all_set_and_all_clear() {
    let all = SinglePageData::from_raw(u64::MAX);
    assert_eq!(all.render(), format!("PSFXD {}", PAGEMAP_PFN_MASK));
    let none = SinglePageData::from_raw(0);
    assert_eq!(none.render(), "----- 0");
}

#[test]
fn render_single_digit_frame() {
    let e = SinglePageData::from_raw(PAGEMAP_SWAP_MASK | 7u64);
    assert_eq!(e.render(), "-S--- 7");
}
