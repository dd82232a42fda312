use arena::{
    Arena, Idx, MAX_PAGES, PAGE_LEN, PAGE_LEN_BITS, PAGE_LEN_MASK, Page, PageIndex, Slot, Table,
    TypeKind,
};

#[test]
fn test_arena() {
    let mut arena = Arena::default();

    assert_eq!(arena.table().len(), 0);
    let a = arena.allocate_int(42);
    assert_eq!(arena.table().len(), 1);
    let b = arena.allocate_text(String::from("42"));
    assert_eq!(arena.table().len(), 2);
    let c = arena.allocate_bits(42.0f64.to_bits());
    assert_eq!(arena.table().len(), 3);

    assert_eq!(*arena.resolve_int(a), 42);
    assert_eq!(*arena.resolve_text(b), "42");
    assert_eq!(f64::from_bits(*arena.resolve_bits(c)), 42.0);

    arena.allocate_int(40);
    arena.allocate_int(2);

    assert_eq!(arena.table().len(), 3);
}

#[test]
fn test_handle_round_trip() {
    let idx: Idx<i64> = Idx::new(PageIndex::new(12345), Slot::new(678));
    let (p, s) = idx.split();
    assert_eq!(p.as_usize(), 12345);
    assert_eq!(s.as_usize(), 678);

    let zero: Idx<i64> = Idx::new(PageIndex::new(0), Slot::new(0));
    let (p0, s0) = zero.split();
    assert_eq!(p0.as_u32(), 0);
    assert_eq!(s0.as_u32(), 0);

    let top: Idx<i64> = Idx::new(PageIndex::new(MAX_PAGES - 1), Slot::new(PAGE_LEN - 1));
    let (pt, st) = top.split();
    assert_eq!(pt.as_usize(), MAX_PAGES - 1);
    assert_eq!(st.as_usize(), PAGE_LEN - 1);
}

#[test]
fn test_constants() {
    assert_eq!(PAGE_LEN, 1 << PAGE_LEN_BITS);
    assert_eq!(PAGE_LEN_MASK, PAGE_LEN - 1);
    assert_eq!(MAX_PAGES, 1 << (32 - PAGE_LEN_BITS));
}

#[test]
fn test_page_growth_boundary() {
    let mut arena = Arena::default();
    let other = arena.allocate_text(String::from("other"));
    assert_eq!(arena.table().len(), 1);

    let mut handles = Vec::new();
    for i in 0..PAGE_LEN {
        handles.push(arena.allocate_int(i as i64));
    }
    // 1024 values of one type fit in a single page.
    assert_eq!(arena.table().len(), 2);

    // The 1025th allocation of that type adds exactly one page.
    let h = arena.allocate_int(9999);
    assert_eq!(arena.table().len(), 3);
    assert_eq!(*arena.resolve_int(h), 9999);

    // The other type's open page is untouched: its next value lands there.
    arena.allocate_text(String::from("still here"));
    assert_eq!(arena.table().len(), 3);
    assert_eq!(*arena.resolve_text(other), "other");

    // Values in the full first page are all still readable.
    for (i, h) in handles.iter().enumerate() {
        assert_eq!(*arena.resolve_int(*h), i as i64);
    }
}

#[test]
fn test_type_isolation() {
    let mut arena = Arena::default();
    let a = arena.allocate_int(1);
    let b = arena.allocate_text(String::from("two"));
    let c = arena.allocate_bits(3.5f64.to_bits());
    // One value each of three distinct types: exactly three pages.
    assert_eq!(arena.table().len(), 3);
    assert_eq!(*arena.resolve_int(a), 1);
    assert_eq!(*arena.resolve_text(b), "two");
    assert_eq!(f64::from_bits(*arena.resolve_bits(c)), 3.5);
}

#[test]
fn test_handle_stability() {
    let mut arena = Arena::default();
    let early_int = arena.allocate_int(-7);
    let early_text = arena.allocate_text(String::from("keep"));
    for i in 0..3000i64 {
        arena.allocate_int(i);
        arena.allocate_bits(i as u64);
        if i % 2 == 0 {
            arena.allocate_text(i.to_string());
        }
    }
    assert_eq!(*arena.resolve_int(early_int), -7);
    assert_eq!(*arena.resolve_text(early_text), "keep");
}

#[test]
fn test_fault_on_corruption() {
    let mut arena = Arena::default();
    let h = arena.allocate_int(5);

    // Slot at or beyond the page's watermark: detected, never stale data.
    let beyond_watermark: Idx<i64> = Idx::new(PageIndex::new(0), Slot::new(1));
    assert!(arena.try_resolve_int(beyond_watermark).is_none());

    // Page index beyond the table's length.
    let beyond_table: Idx<i64> = Idx::new(PageIndex::new(7), Slot::new(0));
    assert!(arena.try_resolve_int(beyond_table).is_none());

    // A page of the wrong kind for the requested type.
    let wrong_kind: Idx<u64> = Idx::new(PageIndex::new(0), Slot::new(0));
    assert!(arena.try_resolve_bits(wrong_kind).is_none());

    // The genuine handle still resolves.
    assert_eq!(*arena.try_resolve_int(h).unwrap(), 5);
}

#[test]
fn test_idx_copy_and_clone() {
    let h: Idx<String> = Idx::new(PageIndex::new(3), Slot::new(4));
    let copied = h;
    let cloned = h.clone();
    assert_eq!(copied.split().0.as_usize(), 3);
    assert_eq!(cloned.split().1.as_usize(), 4);
}

#[test]
fn test_page_direct() {
    let mut page: Page<i64> = Page::new();
    assert_eq!(page.len(), 0);
    let slot = match page.allocate(11) {
        Ok(slot) => slot,
        Err(_) => panic!("empty page must accept a value"),
    };
    assert_eq!(slot.as_u32(), 0);
    assert_eq!(*page.get(slot), 11);
    assert_eq!(page.len(), 1);
}

#[test]
fn test_page_overflow_returns_value() {
    let mut page: Page<i64> = Page::new();
    for i in 0..PAGE_LEN {
        assert!(page.allocate(i as i64).is_ok());
    }
    match page.allocate(-1) {
        Err(v) => assert_eq!(v, -1),
        Ok(_) => panic!("full page must hand the value back"),
    }
    assert_eq!(page.len(), PAGE_LEN);
}

#[test]
fn test_table_append_and_access() {
    let mut table = Table::default();
    assert!(table.is_empty());
    let i0 = table.append_page(TypeKind::Int);
    let i1 = table.append_page(TypeKind::Text);
    assert_eq!(i0.as_usize(), 0);
    assert_eq!(i1.as_usize(), 1);
    assert_eq!(table.len(), 2);
    assert!(!table.is_empty());

    assert!(table.try_page_int(i1).is_none());
    assert!(table.try_page_text(i1).is_some());
    assert!(table.try_page_bits(i1).is_none());

    let page = table.page_int_mut(i0);
    let slot = match page.allocate(5) {
        Ok(slot) => slot,
        Err(_) => panic!("empty page must accept a value"),
    };
    assert_eq!(*table.page_int(i0).get(slot), 5);
    assert_eq!(table.page_text(i1).len(), 0);
}

#[test]
fn test_idx_equality() {
    let a: Idx<i64> = Idx::new(PageIndex::new(1), Slot::new(2));
    let b: Idx<i64> = Idx::new(PageIndex::new(1), Slot::new(2));
    let c: Idx<i64> = Idx::new(PageIndex::new(1), Slot::new(3));
    assert!(a == b);
    assert!(a != c);
}
