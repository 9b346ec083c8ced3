use ros2_rust_wasm::handles::{register_at_index, HandleTable};

#[test]
fn register_assigns_handles_counting_up_from_zero() {
    let mut table: HandleTable<&'static str> = HandleTable::new();
    let a = register_at_index(&mut table, "a");
    let b = register_at_index(&mut table, "b");
    let c = register_at_index(&mut table, "c");
    assert_eq!((a, b, c), (0, 1, 2));
}

#[test]
fn registered_handles_are_unique_and_resolve_to_their_resource() {
    let mut table: HandleTable<u64> = HandleTable::new();
    let mut seen: Vec<u32> = Vec::new();
    for i in 0..16u64 {
        let h = register_at_index(&mut table, i * 100);
        assert!(!seen.contains(&h));
        seen.push(h);
        assert_eq!(table.resolve(h), Some(&(i * 100)));
    }
    for (i, h) in seen.iter().enumerate() {
        assert_eq!(table.resolve(*h), Some(&(i as u64 * 100)));
    }
}

#[test]
fn released_slot_is_reused_before_a_fresh_one() {
    let mut table: HandleTable<&'static str> = HandleTable::new();
    let a = register_at_index(&mut table, "a");
    let b = register_at_index(&mut table, "b");
    assert!(table.release(a));
    let c = register_at_index(&mut table, "c");
    assert_eq!(c, a);
    assert_eq!(table.resolve(c), Some(&"c"));
    assert_eq!(table.resolve(b), Some(&"b"));
    let d = register_at_index(&mut table, "d");
    assert_eq!(d, 2);
}

#[test]
fn unknown_handle_resolves_to_nothing() {
    let mut table: HandleTable<u32> = HandleTable::new();
    let h = register_at_index(&mut table, 5);
    assert_eq!(table.resolve(999), None);
    assert!(!table.release(999));
    assert_eq!(table.resolve(h), Some(&5));
}

#[test]
fn replace_changes_only_the_addressed_entry() {
    let mut table: HandleTable<u32> = HandleTable::new();
    let a = register_at_index(&mut table, 1);
    let b = register_at_index(&mut table, 2);
    assert!(table.replace(b, 20));
    assert!(!table.replace(999, 7));
    assert_eq!(table.resolve(a), Some(&1));
    assert_eq!(table.resolve(b), Some(&20));
    assert_eq!(table.resolve(999), None);
}
