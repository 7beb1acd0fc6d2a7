//! The ownership bridge: single ownership, dead handles, null safety.

use glutin_shim::bridge::{Handle, ValueRegistry};
use glutin_shim::cstruct::{glutin_create_size_u64, glutin_destroy_size_u64, GlutinCString, GlutinSizeU64};

#[test]
fn create_then_get_returns_the_value() {
    let mut registry: ValueRegistry<u64> = ValueRegistry::new();
    let h = registry.create(42);
    assert_eq!(registry.get(h), Some(&42));
    assert!(registry.is_live(h));
}

#[test]
fn take_consumes_and_poisons_the_handle() {
    let mut registry: ValueRegistry<u64> = ValueRegistry::new();
    let h = registry.create(7);
    assert_eq!(registry.take(h), Some(7));
    assert_eq!(registry.get(h), None);
    assert_eq!(registry.take(h), None);
    assert!(!registry.release(h));
}

#[test]
fn release_drops_and_poisons_the_handle() {
    let mut registry: ValueRegistry<u64> = ValueRegistry::new();
    let h = registry.create(9);
    assert!(registry.release(h));
    assert_eq!(registry.get(h), None);
    assert!(!registry.release(h));
}

#[test]
fn a_fresh_handle_never_reuses_a_dead_slot() {
    let mut registry: ValueRegistry<u64> = ValueRegistry::new();
    let first = registry.create(1);
    assert_eq!(registry.take(first), Some(1));
    let second = registry.create(2);
    assert_ne!(first, second);
    assert_eq!(registry.get(first), None);
    assert_eq!(registry.get(second), Some(&2));
}

#[test]
fn replace_keeps_the_handle_live() {
    let mut registry: ValueRegistry<u64> = ValueRegistry::new();
    let h = registry.create(3);
    assert_eq!(registry.replace(h, 4), Some(3));
    assert_eq!(registry.get(h), Some(&4));
}

#[test]
fn replace_on_a_dead_handle_changes_nothing() {
    let mut registry: ValueRegistry<u64> = ValueRegistry::new();
    let h = registry.create(3);
    registry.release(h);
    assert_eq!(registry.replace(h, 4), None);
    assert_eq!(registry.get(h), None);
}

#[test]
fn out_of_range_handles_are_dead() {
    let registry: ValueRegistry<u64> = ValueRegistry::new();
    let bogus = Handle { index: 5 };
    assert_eq!(registry.get(bogus), None);
    assert!(!registry.is_live(bogus));
}

#[test]
fn size_entry_points_are_null_safe() {
    let mut registry: ValueRegistry<GlutinSizeU64> = ValueRegistry::new();
    let h = glutin_create_size_u64(&mut registry);
    assert_eq!(registry.get(h), Some(&GlutinSizeU64 { x: 0, y: 0 }));
    glutin_destroy_size_u64(&mut registry, None);
    assert!(registry.is_live(h));
    glutin_destroy_size_u64(&mut registry, Some(h));
    assert!(!registry.is_live(h));
    glutin_destroy_size_u64(&mut registry, Some(h));
}

#[test]
fn glutin_test_reports_loaded() {
    assert!(glutin_shim::glutin_test());
}

#[test]
fn a_boundary_string_counts_its_bytes() {
    let s = GlutinCString::from_bytes(vec![b'g', b'l']);
    assert_eq!(s.length, 2);
    assert_eq!(s.data, vec![b'g', b'l']);
    let empty = GlutinCString::from_bytes(Vec::new());
    assert_eq!(empty.length, 0);
}
