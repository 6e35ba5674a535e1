//! Charges of the cost model, the dispatch table, the abort codes, and the
//! build-output path helpers.

use std::cell::RefCell;

use raw_table::context::NativeTableContext;
use raw_table::dispatch::{dispatch_table_op, table_natives, OpReturn, TableOp};
use raw_table::errors::{OpError, ALREADY_EXISTS, ECATEGORY_INVALID_ARGUMENT, NOT_FOUND};
use raw_table::gas::{
    gas_add, gas_mul, op_cost, AddBoxGasParameters, BorrowBoxGasParameters, CommonGasParameters,
    ContainsBoxGasParameters, DestroyEmptyBoxGasParameters, DropUncheckedBoxGasParameters,
    GasParameters, RemoveGasParameters,
};
use raw_table::handle::{TableHandle, TypeTag};
use raw_table::ops::{native_add_box, native_borrow_box, native_drop_unchecked_box};
use raw_table::paths::{generated_dir, path_in_crate, stdlib_output_file};
use raw_table::resolver::TableResolver;

/// An in-memory resolver over fixed entries, counting every consultation.
struct FixedResolver {
    entries: Vec<(TableHandle, Vec<u8>, Vec<u8>)>,
    calls: RefCell<usize>,
}

impl FixedResolver {
    fn new(entries: Vec<(TableHandle, Vec<u8>, Vec<u8>)>) -> Self {
        FixedResolver {
            entries,
            calls: RefCell::new(0),
        }
    }
}

impl TableResolver for FixedResolver {
    fn resolve_table_entry(
        &self,
        handle: &TableHandle,
        key: &[u8],
    ) -> Result<Option<Vec<u8>>, anyhow::Error> {
        *self.calls.borrow_mut() += 1;
        for (h, k, v) in &self.entries {
            if h.0 == handle.0 && k.as_slice() == key {
                return Ok(Some(v.clone()));
            }
        }
        Ok(None)
    }
}

fn handle_of(tag: u8) -> TableHandle {
    let mut bytes = [0u8; 32];
    bytes[0] = tag;
    TableHandle(bytes)
}

fn key_type() -> TypeTag {
    TypeTag(vec![3])
}

fn test_gas() -> GasParameters {
    GasParameters {
        common: CommonGasParameters {
            load_base: 100,
            load_per_byte: 10,
            load_failure: 7,
        },
        add_box: AddBoxGasParameters {
            base: 1000,
            per_byte_serialized: 3,
        },
        borrow_box: BorrowBoxGasParameters {
            base: 2000,
            per_byte_serialized: 5,
        },
        contains_box: ContainsBoxGasParameters {
            base: 3000,
            per_byte_serialized: 11,
        },
        remove_box: RemoveGasParameters {
            base: 4000,
            per_byte_serialized: 13,
        },
        destroy_empty_box: DestroyEmptyBoxGasParameters { base: 5000 },
        drop_unchecked_box: DropUncheckedBoxGasParameters { base: 6000 },
    }
}

#[test]
fn load_failure_charged_on_first_touch_only() {
    // First touch of an absent key: add base, per key byte, load base and the
    // flat failure charge. A later borrow of the same key pays no load part.
    let h = handle_of(1);
    let resolver = FixedResolver::new(vec![]);
    let gas = test_gas();
    let mut ctx = NativeTableContext::new(&resolver);

    let (add_cost, status) = native_add_box(
        &gas.common,
        &gas.add_box,
        &mut ctx,
        &key_type(),
        h,
        vec![1, 2, 3],
        b"v1".to_vec(),
    )
    .unwrap();
    assert_eq!(status, Ok(()));
    assert_eq!(add_cost, 1000 + 3 * 3 + (100 + 7));

    let (borrow_cost, borrow_status) = native_borrow_box(
        &gas.common,
        &gas.borrow_box,
        &mut ctx,
        &key_type(),
        h,
        vec![1, 2, 3],
    )
    .unwrap();
    assert_eq!(borrow_status, Ok(()));
    assert_eq!(borrow_cost, 2000 + 5 * 3);
}

#[test]
fn loaded_bytes_charged_per_byte() {
    // First touch of a key persisted with five bytes: load base plus five
    // per-byte units on top of the borrow charges.
    let h = handle_of(2);
    let resolver = FixedResolver::new(vec![(h, vec![9, 9], b"fives".to_vec())]);
    let gas = test_gas();
    let mut ctx = NativeTableContext::new(&resolver);

    let (cost, status) = native_borrow_box(
        &gas.common,
        &gas.borrow_box,
        &mut ctx,
        &key_type(),
        h,
        vec![9, 9],
    )
    .unwrap();
    assert_eq!(status, Ok(()));
    assert_eq!(cost, 2000 + 5 * 2 + (100 + 10 * 5));
}

#[test]
fn drop_unchecked_charges_base_only() {
    let gas = test_gas();
    let cost = native_drop_unchecked_box(&gas.drop_unchecked_box, handle_of(3));
    assert_eq!(cost, 6000);
}

#[test]
fn charges_saturate_instead_of_overflowing() {
    assert_eq!(gas_add(u64::MAX, 1), u64::MAX);
    assert_eq!(gas_add(u64::MAX - 4, 4), u64::MAX);
    assert_eq!(gas_mul(u64::MAX / 2 + 1, 2), u64::MAX);
    assert_eq!(gas_mul(u64::MAX / 2, 2), u64::MAX - 1);
    assert_eq!(op_cost(u64::MAX, u64::MAX, u64::MAX, u64::MAX), u64::MAX);
    let common = CommonGasParameters {
        load_base: u64::MAX,
        load_per_byte: u64::MAX,
        load_failure: u64::MAX,
    };
    assert_eq!(common.calculate_load_cost(Some(Some(2))), u64::MAX);
    assert_eq!(common.calculate_load_cost(None), 0);
}

#[test]
fn zero_configuration_charges_nothing() {
    let h = handle_of(4);
    let resolver = FixedResolver::new(vec![(h, vec![1], b"abc".to_vec())]);
    let gas = GasParameters::zeros();
    let mut ctx = NativeTableContext::new(&resolver);

    let (cost, status) =
        native_borrow_box(&gas.common, &gas.borrow_box, &mut ctx, &key_type(), h, vec![1])
            .unwrap();
    assert_eq!(status, Ok(()));
    assert_eq!(cost, 0);
}

#[test]
fn native_table_lists_the_seven_operations() {
    let natives = table_natives();
    let names: Vec<&str> = natives.iter().map(|(n, _)| n.as_str()).collect();
    assert_eq!(
        names,
        vec![
            "add_box",
            "borrow_box",
            "borrow_box_mut",
            "remove_box",
            "contains_box",
            "destroy_empty_box",
            "drop_unchecked_box",
        ]
    );
    assert!(matches!(natives[0].1, TableOp::AddBox));
    assert!(matches!(natives[2].1, TableOp::BorrowBoxMut));
    assert!(matches!(natives[6].1, TableOp::DropUncheckedBox));
}

#[test]
fn dispatch_routes_and_maps_abort_codes() {
    let h = handle_of(5);
    let resolver = FixedResolver::new(vec![(h, vec![1], b"present".to_vec())]);
    let gas = GasParameters::zeros();
    let mut ctx = NativeTableContext::new(&resolver);

    // Adding over a persisted value aborts with the already-exists code.
    let out = dispatch_table_op(
        TableOp::AddBox,
        &gas,
        &mut ctx,
        &key_type(),
        h,
        Some(vec![1]),
        Some(b"x".to_vec()),
    )
    .unwrap();
    assert_eq!(out.result, Err(ALREADY_EXISTS));

    // Borrowing hands back a copy of the bytes.
    let out = dispatch_table_op(
        TableOp::BorrowBox,
        &gas,
        &mut ctx,
        &key_type(),
        h,
        Some(vec![1]),
        None,
    )
    .unwrap();
    assert!(matches!(out.result, Ok(OpReturn::Bytes(ref b)) if b.as_slice() == b"present"));

    // Contains reports the existence flag and never fails.
    let out = dispatch_table_op(
        TableOp::ContainsBox,
        &gas,
        &mut ctx,
        &key_type(),
        h,
        Some(vec![2]),
        None,
    )
    .unwrap();
    assert!(matches!(out.result, Ok(OpReturn::Flag(false))));

    // Removing an absent key aborts with the not-found code.
    let out = dispatch_table_op(
        TableOp::RemoveBox,
        &gas,
        &mut ctx,
        &key_type(),
        h,
        Some(vec![2]),
        None,
    )
    .unwrap();
    assert_eq!(out.result, Err(NOT_FOUND));

    // Destroy and drop return no value.
    let out = dispatch_table_op(
        TableOp::DestroyEmptyBox,
        &gas,
        &mut ctx,
        &key_type(),
        h,
        None,
        None,
    )
    .unwrap();
    assert!(matches!(out.result, Ok(OpReturn::Unit)));
    let out = dispatch_table_op(
        TableOp::DropUncheckedBox,
        &gas,
        &mut ctx,
        &key_type(),
        h,
        None,
        None,
    )
    .unwrap();
    assert!(matches!(out.result, Ok(OpReturn::Unit)));
}

#[test]
fn abort_codes_match_the_documented_values() {
    assert_eq!(OpError::AlreadyExists.abort_code(), 25607);
    assert_eq!(OpError::NotFound.abort_code(), 25863);
    assert_eq!(ALREADY_EXISTS, (100 << 8) + ECATEGORY_INVALID_ARGUMENT);
    assert_eq!(NOT_FOUND, (101 << 8) + ECATEGORY_INVALID_ARGUMENT);
}

#[test]
fn handles_compare_byte_wise() {
    let a = handle_of(1);
    let b = handle_of(1);
    let c = handle_of(2);
    assert!(a.equals(&b));
    assert!(!a.equals(&c));
}

#[test]
fn paths_join_behind_a_separator() {
    assert_eq!(path_in_crate("/work/crates/genesis", "framework"), "/work/crates/genesis/framework");
    assert_eq!(path_in_crate("/work", "../sibling"), "/work/../sibling");
    // An absolute relative path replaces the base, as the standard path
    // push does.
    assert_eq!(path_in_crate("/work", "/abs/path"), "/abs/path");
    assert_eq!(generated_dir("/m"), "/m/../rooch-genesis/generated");
    assert_eq!(stdlib_output_file("/m"), "/m/../rooch-genesis/generated/stdlib");
}
