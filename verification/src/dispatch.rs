//! Operation dispatch: the fixed table of named operations the module
//! registers with the virtual machine, and a dispatcher that routes one named
//! call, with the configuration passed explicitly, to its operation.

use vstd::prelude::*;

use crate::bytes::copy_bytes;
use crate::context::{cell_cached, cells_before, tables_after_touch, NativeTableContext};
use crate::errors::{Fault, OpError, ALREADY_EXISTS, NOT_FOUND};
use crate::gas::{spec_op_cost, GasParameters};
use crate::handle::{TableHandle, TypeTag};
use crate::ops::{
    borrow_box_value, native_add_box, native_borrow_box, native_contains_box,
    native_destroy_empty_box, native_drop_unchecked_box, native_remove_box, op_frame,
    present_after_load, spec_load_charge,
};
use crate::resolver::TableResolver;

verus! {

/// One of the fixed operations of the module.
#[derive(Clone, Copy, Debug, PartialEq, Eq, Structural)]
pub enum TableOp {
    AddBox,
    BorrowBox,
    BorrowBoxMut,
    RemoveBox,
    ContainsBox,
    DestroyEmptyBox,
    DropUncheckedBox,
}

/// The static native table of the module: each operation under the name the
/// virtual machine registers it by. The two borrow names share one
/// implementation apart from the mutability of the reference handed out.
pub fn table_natives() -> (r: Vec<(String, TableOp)>)
    ensures
        r@.len() == 7,
        r@[0].0@ == "add_box"@ && r@[0].1 == TableOp::AddBox,
        r@[1].0@ == "borrow_box"@ && r@[1].1 == TableOp::BorrowBox,
        r@[2].0@ == "borrow_box_mut"@ && r@[2].1 == TableOp::BorrowBoxMut,
        r@[3].0@ == "remove_box"@ && r@[3].1 == TableOp::RemoveBox,
        r@[4].0@ == "contains_box"@ && r@[4].1 == TableOp::ContainsBox,
        r@[5].0@ == "destroy_empty_box"@ && r@[5].1 == TableOp::DestroyEmptyBox,
        r@[6].0@ == "drop_unchecked_box"@ && r@[6].1 == TableOp::DropUncheckedBox,
{
    let mut natives: Vec<(String, TableOp)> = Vec::new();
    natives.push((String::from_str("add_box"), TableOp::AddBox));
    natives.push((String::from_str("borrow_box"), TableOp::BorrowBox));
    natives.push((String::from_str("borrow_box_mut"), TableOp::BorrowBoxMut));
    natives.push((String::from_str("remove_box"), TableOp::RemoveBox));
    natives.push((String::from_str("contains_box"), TableOp::ContainsBox));
    natives.push((String::from_str("destroy_empty_box"), TableOp::DestroyEmptyBox));
    natives.push((String::from_str("drop_unchecked_box"), TableOp::DropUncheckedBox));
    natives
}

/// A value handed back by a dispatched operation.
#[derive(Debug, PartialEq, Eq)]
pub enum OpReturn {
    /// No return value.
    Unit,
    /// A byte-encoded value: what a borrow read or a remove extracted.
    Bytes(Vec<u8>),
    /// An existence flag, from contains.
    Flag(bool),
}

/// The outcome of a dispatched operation that did not abort the session: the
/// charge, and either the returned value or the business abort code.
pub struct NativeOutcome {
    pub cost: u64,
    pub result: Result<OpReturn, u64>,
}

/// Whether an operation addresses a key.
pub open spec fn op_takes_key(op: TableOp) -> bool {
    match op {
        TableOp::AddBox | TableOp::BorrowBox | TableOp::BorrowBoxMut | TableOp::RemoveBox
            | TableOp::ContainsBox => true,
        TableOp::DestroyEmptyBox | TableOp::DropUncheckedBox => false,
    }
}

/// Routes one named operation to its implementation, with the cost
/// configuration passed explicitly. Through this entry a borrow hands back a
/// copy of the value's bytes; the live references are taken through
/// [`borrow_box_value`] and [`crate::ops::borrow_box_value_mut`].
pub fn dispatch_table_op<'a, R: TableResolver>(
    op: TableOp,
    gas_params: &GasParameters,
    context: &mut NativeTableContext<'a, R>,
    key_type: &TypeTag,
    handle: TableHandle,
    key_bytes: Option<Vec<u8>>,
    value_bytes: Option<Vec<u8>>,
) -> (r: Result<NativeOutcome, Fault>)
    requires
        old(context).wf(),
        op_takes_key(op) ==> key_bytes is Some,
        op is AddBox ==> value_bytes is Some,
    ensures
        final(context).wf(),
        (match op {
            TableOp::AddBox | TableOp::BorrowBox | TableOp::BorrowBoxMut | TableOp::RemoveBox
                | TableOp::ContainsBox => {
                let k = (key_bytes->0)@;
                let reg0 = old(context)@;
                &&& cell_cached(reg0, handle@, k) ==> r is Ok
                &&& match r {
                    Result::Err(f) => {
                        &&& f is ResolverFailure
                        &&& final(context)@.new_tables == reg0.new_tables
                        &&& final(context)@.removed_tables == reg0.removed_tables
                        &&& final(context)@.tables == tables_after_touch(reg0, handle@, key_type@)
                    },
                    Result::Ok(out) => {
                        let c1 = final(context)@.tables[handle@].cells[k];
                        let was = cell_cached(reg0, handle@, k);
                        let c0 = cells_before(reg0, handle@)[k];
                        let held = present_after_load(reg0, handle@, k, c1);
                        &&& op_frame(reg0, final(context)@, handle@, key_type@, k)
                        &&& was ==> c1.original == c0.original
                        &&& (match op {
                            TableOp::AddBox => {
                                &&& out.result == (if held {
                                    Result::<OpReturn, u64>::Err(ALREADY_EXISTS)
                                } else {
                                    Result::<OpReturn, u64>::Ok(OpReturn::Unit)
                                })
                                &&& c1.current == (if held {
                                    (if was {
                                        c0.current
                                    } else {
                                        c1.original
                                    })
                                } else {
                                    Option::Some((value_bytes->0)@)
                                })
                                &&& out.cost == spec_op_cost(
                                    gas_params.add_box.base as int,
                                    gas_params.add_box.per_byte_serialized as int,
                                    k.len() as int,
                                    spec_load_charge(gas_params.common, was, c1.original),
                                )
                            },
                            TableOp::BorrowBox | TableOp::BorrowBoxMut => {
                                &&& was ==> c1 == c0
                                &&& !was ==> c1.current == c1.original
                                &&& (match out.result {
                                    Result::Ok(v) => held && (v matches OpReturn::Bytes(b)
                                        && Option::Some(b@) == c1.current),
                                    Result::Err(code) => !held && code == NOT_FOUND,
                                })
                                &&& out.cost == spec_op_cost(
                                    gas_params.borrow_box.base as int,
                                    gas_params.borrow_box.per_byte_serialized as int,
                                    k.len() as int,
                                    spec_load_charge(gas_params.common, was, c1.original),
                                )
                            },
                            TableOp::ContainsBox => {
                                &&& was ==> c1 == c0
                                &&& !was ==> c1.current == c1.original
                                &&& out.result matches Result::Ok(v) && v
                                    == OpReturn::Flag(held)
                                &&& out.cost == spec_op_cost(
                                    gas_params.contains_box.base as int,
                                    gas_params.contains_box.per_byte_serialized as int,
                                    k.len() as int,
                                    spec_load_charge(gas_params.common, was, c1.original),
                                )
                            },
                            TableOp::RemoveBox => {
                                &&& c1.current is None
                                &&& (match out.result {
                                    Result::Ok(v) => held && (v matches OpReturn::Bytes(b)
                                        && Option::Some(b@) == (if was {
                                        c0.current
                                    } else {
                                        c1.original
                                    })),
                                    Result::Err(code) => !held && code == NOT_FOUND,
                                })
                                &&& out.cost == spec_op_cost(
                                    gas_params.remove_box.base as int,
                                    gas_params.remove_box.per_byte_serialized as int,
                                    k.len() as int,
                                    spec_load_charge(gas_params.common, was, c1.original),
                                )
                            },
                            _ => false,
                        })
                    },
                }
            },
            TableOp::DestroyEmptyBox => {
                &&& final(context)@.new_tables == old(context)@.new_tables
                &&& final(context)@.tables == old(context)@.tables
                &&& old(context)@.removed_tables.contains(handle@) ==> {
                    &&& r matches Result::Err(f) && f is DuplicateDestroy
                    &&& final(context)@ == old(context)@
                }
                &&& !old(context)@.removed_tables.contains(handle@) ==> {
                    &&& r matches Result::Ok(out) && out.cost == gas_params.destroy_empty_box.base
                        && out.result == Result::<OpReturn, u64>::Ok(OpReturn::Unit)
                    &&& final(context)@.removed_tables == old(context)@.removed_tables.insert(
                        handle@,
                    )
                }
            },
            TableOp::DropUncheckedBox => {
                &&& final(context)@ == old(context)@
                &&& r matches Result::Ok(out) && out.cost == gas_params.drop_unchecked_box.base
                    && out.result == Result::<OpReturn, u64>::Ok(OpReturn::Unit)
            },
        }),
{
    match op {
        TableOp::AddBox => {
            let key = key_bytes.unwrap();
            let value = value_bytes.unwrap();
            match native_add_box(
                &gas_params.common,
                &gas_params.add_box,
                context,
                key_type,
                handle,
                key,
                value,
            ) {
                Result::Err(f) => Result::Err(f),
                Result::Ok((cost, status)) => Result::Ok(
                    NativeOutcome {
                        cost,
                        result: match status {
                            Result::Ok(()) => Result::Ok(OpReturn::Unit),
                            Result::Err(e) => Result::Err(e.abort_code()),
                        },
                    },
                ),
            }
        },
        TableOp::BorrowBox | TableOp::BorrowBoxMut => {
            let key = key_bytes.unwrap();
            let key_copy = copy_bytes(&key);
            match native_borrow_box(
                &gas_params.common,
                &gas_params.borrow_box,
                context,
                key_type,
                handle,
                key,
            ) {
                Result::Err(f) => Result::Err(f),
                Result::Ok((cost, status)) => Result::Ok(
                    NativeOutcome {
                        cost,
                        result: match status {
                            Result::Ok(()) => {
                                let v = borrow_box_value(context, &handle, key_copy.as_slice());
                                Result::Ok(OpReturn::Bytes(copy_bytes(v)))
                            },
                            Result::Err(e) => Result::Err(e.abort_code()),
                        },
                    },
                ),
            }
        },
        TableOp::ContainsBox => {
            let key = key_bytes.unwrap();
            match native_contains_box(
                &gas_params.common,
                &gas_params.contains_box,
                context,
                key_type,
                handle,
                key,
            ) {
                Result::Err(f) => Result::Err(f),
                Result::Ok((cost, present)) => Result::Ok(
                    NativeOutcome { cost, result: Result::Ok(OpReturn::Flag(present)) },
                ),
            }
        },
        TableOp::RemoveBox => {
            let key = key_bytes.unwrap();
            match native_remove_box(
                &gas_params.common,
                &gas_params.remove_box,
                context,
                key_type,
                handle,
                key,
            ) {
                Result::Err(f) => Result::Err(f),
                Result::Ok((cost, res)) => Result::Ok(
                    NativeOutcome {
                        cost,
                        result: match res {
                            Result::Ok(v) => Result::Ok(OpReturn::Bytes(v)),
                            Result::Err(e) => Result::Err(e.abort_code()),
                        },
                    },
                ),
            }
        },
        TableOp::DestroyEmptyBox => {
            match native_destroy_empty_box(&gas_params.destroy_empty_box, context, handle) {
                Result::Err(f) => Result::Err(f),
                Result::Ok(cost) => Result::Ok(
                    NativeOutcome { cost, result: Result::Ok(OpReturn::Unit) },
                ),
            }
        },
        TableOp::DropUncheckedBox => {
            let cost = native_drop_unchecked_box(&gas_params.drop_unchecked_box, handle);
            Result::Ok(NativeOutcome { cost, result: Result::Ok(OpReturn::Unit) })
        },
    }
}

} // verus!
