//! End-to-end session scenarios: lazy loading, effect tracking, cancellation,
//! and change-set extraction.

use std::cell::RefCell;

use raw_table::cell::Effect;
use raw_table::context::NativeTableContext;
use raw_table::errors::{Fault, OpError};
use raw_table::gas::GasParameters;
use raw_table::handle::{TableHandle, TableInfo, TypeTag};
use raw_table::ops::{
    borrow_box_value, borrow_box_value_mut, native_add_box, native_borrow_box,
    native_contains_box, native_destroy_empty_box, native_remove_box,
};
use raw_table::resolver::TableResolver;

/// An in-memory resolver over fixed entries, counting every consultation.
struct MapResolver {
    entries: Vec<(TableHandle, Vec<u8>, Vec<u8>)>,
    calls: RefCell<Vec<(Vec<u8>, Vec<u8>)>>,
}

impl MapResolver {
    fn new(entries: Vec<(TableHandle, Vec<u8>, Vec<u8>)>) -> Self {
        MapResolver {
            entries,
            calls: RefCell::new(Vec::new()),
        }
    }

    fn call_count(&self) -> usize {
        self.calls.borrow().len()
    }
}

impl TableResolver for MapResolver {
    fn resolve_table_entry(
        &self,
        handle: &TableHandle,
        key: &[u8],
    ) -> Result<Option<Vec<u8>>, anyhow::Error> {
        self.calls.borrow_mut().push((handle.0.to_vec(), key.to_vec()));
        for (h, k, v) in &self.entries {
            if h.0 == handle.0 && k.as_slice() == key {
                return Ok(Some(v.clone()));
            }
        }
        Ok(None)
    }
}

/// A resolver whose backend always fails.
struct FailingResolver;

impl TableResolver for FailingResolver {
    fn resolve_table_entry(
        &self,
        _handle: &TableHandle,
        _key: &[u8],
    ) -> Result<Option<Vec<u8>>, anyhow::Error> {
        Err(anyhow::Error::msg("backend down"))
    }
}

fn handle_of(tag: u8) -> TableHandle {
    let mut bytes = [0u8; 32];
    bytes[0] = tag;
    TableHandle(bytes)
}

fn key_type() -> TypeTag {
    TypeTag(vec![7])
}

#[test]
fn add_then_borrow_then_finalize_yields_insert() {
    // Key absent upstream: add succeeds with one load-failure charge, borrow
    // hits the cache at no further load charge, and the change set holds one
    // insert under the handle.
    let h = handle_of(1);
    let resolver = MapResolver::new(vec![]);
    let gas = GasParameters::zeros();
    let mut ctx = NativeTableContext::new(&resolver);

    let (_, status) = native_add_box(
        &gas.common,
        &gas.add_box,
        &mut ctx,
        &key_type(),
        h,
        vec![1, 2, 3],
        b"v1".to_vec(),
    )
    .unwrap();
    assert_eq!(status, Ok(()));
    assert_eq!(resolver.call_count(), 1);

    let (_, borrow_status) = native_borrow_box(
        &gas.common,
        &gas.borrow_box,
        &mut ctx,
        &key_type(),
        h,
        vec![1, 2, 3],
    )
    .unwrap();
    assert_eq!(borrow_status, Ok(()));
    let value = borrow_box_value(&ctx, &h, &[1, 2, 3]);
    assert_eq!(value.as_slice(), b"v1");
    // The borrow reused the cached cell: still exactly one consultation.
    assert_eq!(resolver.call_count(), 1);

    let change_set = ctx.into_change_set();
    assert_eq!(change_set.changes.len(), 1);
    let (ch, change) = &change_set.changes[0];
    assert_eq!(ch.0, h.0);
    assert_eq!(change.entries.len(), 1);
    assert_eq!(change.entries[0].0, vec![1, 2, 3]);
    assert!(matches!(&change.entries[0].1, Effect::Insert(v) if v.as_slice() == b"v1"));
}

#[test]
fn remove_persisted_key_yields_delete() {
    // Key present upstream with bytes "old": remove returns them and the
    // change set holds a delete for the key.
    let h = handle_of(2);
    let resolver = MapResolver::new(vec![(h, vec![9], b"old".to_vec())]);
    let gas = GasParameters::zeros();
    let mut ctx = NativeTableContext::new(&resolver);

    let (_, removed) =
        native_remove_box(&gas.common, &gas.remove_box, &mut ctx, &key_type(), h, vec![9])
            .unwrap();
    assert_eq!(removed, Ok(b"old".to_vec()));

    let change_set = ctx.into_change_set();
    assert_eq!(change_set.changes.len(), 1);
    let (ch, change) = &change_set.changes[0];
    assert_eq!(ch.0, h.0);
    assert_eq!(change.entries.len(), 1);
    assert_eq!(change.entries[0].0, vec![9]);
    assert!(matches!(change.entries[0].1, Effect::Delete));
}

#[test]
fn insert_then_remove_cancels_but_declaration_stays() {
    // A handle declared new whose only key was inserted and removed again:
    // the declaration survives, the per-table changes map stays empty.
    let h2 = handle_of(3);
    let resolver = MapResolver::new(vec![]);
    let gas = GasParameters::zeros();
    let mut ctx = NativeTableContext::new(&resolver);

    ctx.declare_new_table(h2, TableInfo::new(key_type()));
    let (_, status) = native_add_box(
        &gas.common,
        &gas.add_box,
        &mut ctx,
        &key_type(),
        h2,
        vec![1],
        b"x".to_vec(),
    )
    .unwrap();
    assert_eq!(status, Ok(()));
    let (_, removed) =
        native_remove_box(&gas.common, &gas.remove_box, &mut ctx, &key_type(), h2, vec![1])
            .unwrap();
    assert_eq!(removed, Ok(b"x".to_vec()));

    let change_set = ctx.into_change_set();
    assert_eq!(change_set.new_tables.len(), 1);
    assert_eq!(change_set.new_tables[0].0 .0, h2.0);
    assert!(change_set.changes.is_empty());
}

#[test]
fn add_on_present_key_fails_already_exists() {
    // The key already resolves present: add fails and the cell keeps the
    // persisted value.
    let h = handle_of(4);
    let resolver = MapResolver::new(vec![(h, vec![5], b"kept".to_vec())]);
    let gas = GasParameters::zeros();
    let mut ctx = NativeTableContext::new(&resolver);

    let (_, status) = native_add_box(
        &gas.common,
        &gas.add_box,
        &mut ctx,
        &key_type(),
        h,
        vec![5],
        b"clobber".to_vec(),
    )
    .unwrap();
    assert_eq!(status, Err(OpError::AlreadyExists));

    let (_, borrow_status) =
        native_borrow_box(&gas.common, &gas.borrow_box, &mut ctx, &key_type(), h, vec![5])
            .unwrap();
    assert_eq!(borrow_status, Ok(()));
    assert_eq!(borrow_box_value(&ctx, &h, &[5]).as_slice(), b"kept");

    // Nothing changed against the persistent store: no effects at all.
    let change_set = ctx.into_change_set();
    assert!(change_set.changes.is_empty());
}

#[test]
fn absent_key_not_found_and_contains_false() {
    // Remove and borrow on a key absent upstream fail with NotFound; contains
    // on the same key returns false and never fails.
    let h = handle_of(5);
    let resolver = MapResolver::new(vec![]);
    let gas = GasParameters::zeros();
    let mut ctx = NativeTableContext::new(&resolver);

    let (_, removed) =
        native_remove_box(&gas.common, &gas.remove_box, &mut ctx, &key_type(), h, vec![8])
            .unwrap();
    assert_eq!(removed, Err(OpError::NotFound));

    let (_, borrow_status) =
        native_borrow_box(&gas.common, &gas.borrow_box, &mut ctx, &key_type(), h, vec![8])
            .unwrap();
    assert_eq!(borrow_status, Err(OpError::NotFound));

    let (_, present) =
        native_contains_box(&gas.common, &gas.contains_box, &mut ctx, &key_type(), h, vec![8])
            .unwrap();
    assert!(!present);

    let change_set = ctx.into_change_set();
    assert!(change_set.changes.is_empty());
}

#[test]
fn resolver_consulted_once_per_pair() {
    // Many operations on one pair consult the resolver exactly once; a second
    // key consults it once more; keys never touched are never consulted.
    let h = handle_of(6);
    let resolver = MapResolver::new(vec![(h, vec![1], b"a".to_vec())]);
    let gas = GasParameters::zeros();
    let mut ctx = NativeTableContext::new(&resolver);

    for _ in 0..4 {
        let (_, present) = native_contains_box(
            &gas.common,
            &gas.contains_box,
            &mut ctx,
            &key_type(),
            h,
            vec![1],
        )
        .unwrap();
        assert!(present);
    }
    assert_eq!(resolver.call_count(), 1);

    let (_, _) =
        native_contains_box(&gas.common, &gas.contains_box, &mut ctx, &key_type(), h, vec![2])
            .unwrap();
    assert_eq!(resolver.call_count(), 2);
}

#[test]
fn readd_after_remove_reflects_final_state() {
    // Insert, remove, insert again: the net effect is a single insert of the
    // last value.
    let h = handle_of(7);
    let resolver = MapResolver::new(vec![]);
    let gas = GasParameters::zeros();
    let mut ctx = NativeTableContext::new(&resolver);

    let (_, s1) = native_add_box(
        &gas.common,
        &gas.add_box,
        &mut ctx,
        &key_type(),
        h,
        vec![1],
        b"first".to_vec(),
    )
    .unwrap();
    assert_eq!(s1, Ok(()));
    let (_, r1) =
        native_remove_box(&gas.common, &gas.remove_box, &mut ctx, &key_type(), h, vec![1])
            .unwrap();
    assert_eq!(r1, Ok(b"first".to_vec()));
    let (_, s2) = native_add_box(
        &gas.common,
        &gas.add_box,
        &mut ctx,
        &key_type(),
        h,
        vec![1],
        b"second".to_vec(),
    )
    .unwrap();
    assert_eq!(s2, Ok(()));

    let change_set = ctx.into_change_set();
    assert_eq!(change_set.changes.len(), 1);
    let change = &change_set.changes[0].1;
    assert_eq!(change.entries.len(), 1);
    assert!(matches!(&change.entries[0].1, Effect::Insert(v) if v.as_slice() == b"second"));
}

#[test]
fn rewriting_persisted_value_yields_update() {
    // A persisted value removed and re-added with different bytes nets to an
    // update; re-added with the very same bytes it nets to nothing.
    let h = handle_of(8);
    let resolver = MapResolver::new(vec![
        (h, vec![1], b"old".to_vec()),
        (h, vec![2], b"same".to_vec()),
    ]);
    let gas = GasParameters::zeros();
    let mut ctx = NativeTableContext::new(&resolver);

    let (_, r1) =
        native_remove_box(&gas.common, &gas.remove_box, &mut ctx, &key_type(), h, vec![1])
            .unwrap();
    assert_eq!(r1, Ok(b"old".to_vec()));
    let (_, s1) = native_add_box(
        &gas.common,
        &gas.add_box,
        &mut ctx,
        &key_type(),
        h,
        vec![1],
        b"new".to_vec(),
    )
    .unwrap();
    assert_eq!(s1, Ok(()));

    let (_, r2) =
        native_remove_box(&gas.common, &gas.remove_box, &mut ctx, &key_type(), h, vec![2])
            .unwrap();
    assert_eq!(r2, Ok(b"same".to_vec()));
    let (_, s2) = native_add_box(
        &gas.common,
        &gas.add_box,
        &mut ctx,
        &key_type(),
        h,
        vec![2],
        b"same".to_vec(),
    )
    .unwrap();
    assert_eq!(s2, Ok(()));

    let change_set = ctx.into_change_set();
    assert_eq!(change_set.changes.len(), 1);
    let change = &change_set.changes[0].1;
    assert_eq!(change.entries.len(), 1);
    assert_eq!(change.entries[0].0, vec![1]);
    assert!(matches!(&change.entries[0].1, Effect::Update(v) if v.as_slice() == b"new"));
}

#[test]
fn mutable_borrow_writes_through_to_change_set() {
    // Writing through the mutable borrow is reflected in the final change set
    // without any further store call.
    let h = handle_of(9);
    let resolver = MapResolver::new(vec![(h, vec![1], b"before".to_vec())]);
    let gas = GasParameters::zeros();
    let mut ctx = NativeTableContext::new(&resolver);

    let (_, status) =
        native_borrow_box(&gas.common, &gas.borrow_box, &mut ctx, &key_type(), h, vec![1])
            .unwrap();
    assert_eq!(status, Ok(()));
    let value = borrow_box_value_mut(&mut ctx, &h, &[1]);
    value.clear();
    value.extend_from_slice(b"after");

    let change_set = ctx.into_change_set();
    assert_eq!(change_set.changes.len(), 1);
    let change = &change_set.changes[0].1;
    assert!(matches!(&change.entries[0].1, Effect::Update(v) if v.as_slice() == b"after"));
}

#[test]
fn destroy_empty_succeeds_once_then_faults() {
    let h = handle_of(10);
    let resolver = MapResolver::new(vec![]);
    let gas = GasParameters::zeros();
    let mut ctx = NativeTableContext::new(&resolver);

    let first = native_destroy_empty_box(&gas.destroy_empty_box, &mut ctx, h);
    assert!(matches!(first, Ok(0)));
    let second = native_destroy_empty_box(&gas.destroy_empty_box, &mut ctx, h);
    assert!(matches!(second, Err(Fault::DuplicateDestroy)));

    let change_set = ctx.into_change_set();
    assert_eq!(change_set.removed_tables.len(), 1);
    assert_eq!(change_set.removed_tables[0].0, h.0);
}

#[test]
fn resolver_failure_aborts_with_fault() {
    let h = handle_of(11);
    let resolver = FailingResolver;
    let gas = GasParameters::zeros();
    let mut ctx = NativeTableContext::new(&resolver);

    let r = native_borrow_box(&gas.common, &gas.borrow_box, &mut ctx, &key_type(), h, vec![1]);
    match r {
        Err(Fault::ResolverFailure(msg)) => {
            assert!(msg.contains("remote table resolver failure"));
            assert!(msg.contains("backend down"));
        }
        other => panic!("expected a resolver failure, got {:?}", other.is_ok()),
    }
}

#[test]
fn untouched_keys_produce_no_effects() {
    // A session that only reads produces an empty diff.
    let h = handle_of(12);
    let resolver = MapResolver::new(vec![(h, vec![1], b"a".to_vec())]);
    let gas = GasParameters::zeros();
    let mut ctx = NativeTableContext::new(&resolver);

    let (_, present) =
        native_contains_box(&gas.common, &gas.contains_box, &mut ctx, &key_type(), h, vec![1])
            .unwrap();
    assert!(present);

    let change_set = ctx.into_change_set();
    assert!(change_set.new_tables.is_empty());
    assert!(change_set.removed_tables.is_empty());
    assert!(change_set.changes.is_empty());
}
