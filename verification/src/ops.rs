//! The fixed set of named table operations exposed to the calling program,
//! each implemented against the session context and the cost model.
//!
//! Every key-addressed operation first ensures the touched cell is cached,
//! paying the one-time load charge exactly when the (handle, key) pair was
//! never touched this session, then acts on the cached cell alone. A business
//! failure leaves the cell exactly as the load step left it; only the charge
//! already incurred stands. Only the resolver can abort an operation, so on a
//! pair already cached — where no resolver is involved — every operation is
//! guaranteed not to fault.

use vstd::prelude::*;

use crate::bytes::copy_bytes;
use crate::cell::CellModel;
use crate::context::{cell_cached, cells_before, key_type_after, tables_after_touch, NativeTableContext};
use crate::errors::{Fault, OpError};
use crate::gas::{
    op_cost, spec_op_cost, AddBoxGasParameters, BorrowBoxGasParameters, CommonGasParameters,
    ContainsBoxGasParameters, DestroyEmptyBoxGasParameters, DropUncheckedBoxGasParameters,
    RemoveGasParameters,
};
use crate::handle::{TableHandle, TypeTag};
use crate::registry::RegistryModel;
use crate::resolver::TableResolver;

verus! {

/// Frame of one key-addressed operation: the declared-new and destroyed sets
/// are untouched, and so is every cell but the one addressed.
pub open spec fn op_frame(
    reg0: RegistryModel,
    reg1: RegistryModel,
    h: Seq<u8>,
    kt: Seq<u8>,
    k: Seq<u8>,
) -> bool {
    &&& reg1.new_tables == reg0.new_tables
    &&& reg1.removed_tables == reg0.removed_tables
    &&& reg1.tables.contains_key(h)
    &&& reg1.tables[h].handle == h
    &&& reg1.tables[h].key_type == key_type_after(reg0, h, kt)
    &&& reg1.tables == reg0.tables.insert(h, reg1.tables[h])
    &&& reg1.tables[h].cells.contains_key(k)
    &&& reg1.tables[h].cells == cells_before(reg0, h).insert(k, reg1.tables[h].cells[k])
}

/// Whether the addressed cell held a value once the operation's load step
/// completed: for a cached pair that is the cached state, for a fresh load it
/// is what the resolver reported, recorded in the cell's originating state.
pub open spec fn present_after_load(
    reg0: RegistryModel,
    h: Seq<u8>,
    k: Seq<u8>,
    c1: CellModel,
) -> bool {
    if cell_cached(reg0, h, k) {
        cells_before(reg0, h)[k].current is Some
    } else {
        c1.original is Some
    }
}

/// The load charge of one operation, reconstructed from the final cell: zero
/// on a cache hit; otherwise the resolver's outcome stands recorded in the
/// cell's originating state.
pub open spec fn spec_load_charge(
    common: CommonGasParameters,
    was_cached: bool,
    original: Option<Seq<u8>>,
) -> int {
    if was_cached {
        0
    } else {
        match original {
            Option::Some(b) => common.spec_load_cost(
                Option::Some(Option::Some(b.len() as u64)),
            ),
            Option::None => common.spec_load_cost(Option::Some(Option::None)),
        }
    }
}

/// Inserts `value_bytes` under `key_bytes`, failing with `AlreadyExists`, and
/// leaving the cell as the load step left it, when the key already resolves
/// present. Charged the add base and per-key-byte charges, plus the one-time
/// load charge when the pair was never touched before.
pub fn native_add_box<'a, R: TableResolver>(
    common_gas_params: &CommonGasParameters,
    gas_params: &AddBoxGasParameters,
    context: &mut NativeTableContext<'a, R>,
    key_type: &TypeTag,
    handle: TableHandle,
    key_bytes: Vec<u8>,
    value_bytes: Vec<u8>,
) -> (r: Result<(u64, Result<(), OpError>), Fault>)
    requires
        old(context).wf(),
    ensures
        final(context).wf(),
        cell_cached(old(context)@, handle@, key_bytes@) ==> r is Ok,
        (match r {
            Result::Err(f) => {
                &&& f is ResolverFailure
                &&& final(context)@.new_tables == old(context)@.new_tables
                &&& final(context)@.removed_tables == old(context)@.removed_tables
                &&& final(context)@.tables == tables_after_touch(
                    old(context)@,
                    handle@,
                    key_type@,
                )
            },
            Result::Ok((cost, status)) => {
                let reg0 = old(context)@;
                let c1 = final(context)@.tables[handle@].cells[key_bytes@];
                let was = cell_cached(reg0, handle@, key_bytes@);
                let c0 = cells_before(reg0, handle@)[key_bytes@];
                let held = present_after_load(reg0, handle@, key_bytes@, c1);
                &&& op_frame(reg0, final(context)@, handle@, key_type@, key_bytes@)
                &&& was ==> c1.original == c0.original
                &&& status == (if held {
                    Result::<(), OpError>::Err(OpError::AlreadyExists)
                } else {
                    Result::<(), OpError>::Ok(())
                })
                &&& c1.current == (if held {
                    (if was {
                        c0.current
                    } else {
                        c1.original
                    })
                } else {
                    Option::Some(value_bytes@)
                })
                &&& cost == spec_op_cost(
                    gas_params.base as int,
                    gas_params.per_byte_serialized as int,
                    key_bytes@.len() as int,
                    spec_load_charge(*common_gas_params, was, c1.original),
                )
            },
        }),
{
    let key_len: u64 = key_bytes.len() as u64;
    let key_copy = copy_bytes(&key_bytes);
    match context.load_cell(&handle, key_type, key_bytes) {
        Result::Err(f) => Result::Err(f),
        Result::Ok(loaded) => {
            let load_charge = common_gas_params.calculate_load_cost(loaded);
            let cost = op_cost(gas_params.base, gas_params.per_byte_serialized, key_len, load_charge);
            let ghost reg0 = old(context)@;
            let ghost mid = context@;
            let cell = context.cell_mut(&handle, key_copy.as_slice());
            let status = cell.move_to(value_bytes);
            proof {
                let h = handle@;
                let k = key_copy@;
                let t2 = final(context)@.tables[h];
                assert(final(context)@.tables =~= reg0.tables.insert(h, t2));
                assert(t2.cells =~= cells_before(reg0, h).insert(k, t2.cells[k]));
            }
            Result::Ok((cost, status))
        },
    }
}

/// Checks the borrow of the value under `key_bytes` and takes its charges:
/// succeeds exactly when the key resolves present, failing with `NotFound`
/// otherwise, and never mutates the cell. The reference itself is then taken
/// through [`borrow_box_value`] or [`borrow_box_value_mut`]; the charge here
/// is identical for the read-only and the mutable variant.
pub fn native_borrow_box<'a, R: TableResolver>(
    common_gas_params: &CommonGasParameters,
    gas_params: &BorrowBoxGasParameters,
    context: &mut NativeTableContext<'a, R>,
    key_type: &TypeTag,
    handle: TableHandle,
    key_bytes: Vec<u8>,
) -> (r: Result<(u64, Result<(), OpError>), Fault>)
    requires
        old(context).wf(),
    ensures
        final(context).wf(),
        cell_cached(old(context)@, handle@, key_bytes@) ==> r is Ok,
        (match r {
            Result::Err(f) => {
                &&& f is ResolverFailure
                &&& final(context)@.new_tables == old(context)@.new_tables
                &&& final(context)@.removed_tables == old(context)@.removed_tables
                &&& final(context)@.tables == tables_after_touch(
                    old(context)@,
                    handle@,
                    key_type@,
                )
            },
            Result::Ok((cost, status)) => {
                let reg0 = old(context)@;
                let c1 = final(context)@.tables[handle@].cells[key_bytes@];
                let was = cell_cached(reg0, handle@, key_bytes@);
                let held = present_after_load(reg0, handle@, key_bytes@, c1);
                &&& op_frame(reg0, final(context)@, handle@, key_type@, key_bytes@)
                &&& was ==> c1 == cells_before(reg0, handle@)[key_bytes@]
                &&& !was ==> c1.current == c1.original
                &&& status == (if held {
                    Result::<(), OpError>::Ok(())
                } else {
                    Result::<(), OpError>::Err(OpError::NotFound)
                })
                &&& cost == spec_op_cost(
                    gas_params.base as int,
                    gas_params.per_byte_serialized as int,
                    key_bytes@.len() as int,
                    spec_load_charge(*common_gas_params, was, c1.original),
                )
            },
        }),
{
    let key_len: u64 = key_bytes.len() as u64;
    let key_copy = copy_bytes(&key_bytes);
    match context.load_cell(&handle, key_type, key_bytes) {
        Result::Err(f) => Result::Err(f),
        Result::Ok(loaded) => {
            let load_charge = common_gas_params.calculate_load_cost(loaded);
            let cost = op_cost(gas_params.base, gas_params.per_byte_serialized, key_len, load_charge);
            let cell = context.cell(&handle, key_copy.as_slice());
            let status = if cell.is_present() {
                Result::Ok(())
            } else {
                Result::Err(OpError::NotFound)
            };
            Result::Ok((cost, status))
        },
    }
}

/// A reference to the value under a key whose cell is cached and present;
/// reading through it costs nothing further.
pub fn borrow_box_value<'x, 'a, R: TableResolver>(
    context: &'x NativeTableContext<'a, R>,
    handle: &TableHandle,
    key: &[u8],
) -> (r: &'x Vec<u8>)
    requires
        context.wf(),
        cell_cached(context@, handle@, key@),
        context@.tables[handle@].cells[key@].current is Some,
    ensures
        Option::Some(r@) == context@.tables[handle@].cells[key@].current,
{
    context.cell(handle, key).borrow_value()
}

/// A mutable reference to the value under a key whose cell is cached and
/// present: what the caller writes through it becomes the staged value,
/// reflected in the final change set with no further call and no further
/// charge.
pub fn borrow_box_value_mut<'x, 'a, R: TableResolver>(
    context: &'x mut NativeTableContext<'a, R>,
    handle: &TableHandle,
    key: &[u8],
) -> (r: &'x mut Vec<u8>)
    requires
        old(context).wf(),
        cell_cached(old(context)@, handle@, key@),
        old(context)@.tables[handle@].cells[key@].current is Some,
    ensures
        Option::Some(r@) == old(context)@.tables[handle@].cells[key@].current,
        final(context).wf(),
        final(context)@.new_tables == old(context)@.new_tables,
        final(context)@.removed_tables == old(context)@.removed_tables,
        final(context)@.tables == old(context)@.tables.insert(
            handle@,
            (crate::table::TableModel {
                handle: old(context)@.tables[handle@].handle,
                key_type: old(context)@.tables[handle@].key_type,
                cells: old(context)@.tables[handle@].cells.insert(
                    key@,
                    (CellModel {
                        original: old(context)@.tables[handle@].cells[key@].original,
                        current: Option::Some(final(r)@),
                    }),
                ),
            }),
        ),
{
    context.cell_mut(handle, key).borrow_value_mut()
}

/// Whether `key_bytes` resolves present. Never fails; performs the same
/// load-and-cache sequence as a borrow, takes the same shape of charge, and
/// mutates nothing.
pub fn native_contains_box<'a, R: TableResolver>(
    common_gas_params: &CommonGasParameters,
    gas_params: &ContainsBoxGasParameters,
    context: &mut NativeTableContext<'a, R>,
    key_type: &TypeTag,
    handle: TableHandle,
    key_bytes: Vec<u8>,
) -> (r: Result<(u64, bool), Fault>)
    requires
        old(context).wf(),
    ensures
        final(context).wf(),
        cell_cached(old(context)@, handle@, key_bytes@) ==> r is Ok,
        (match r {
            Result::Err(f) => {
                &&& f is ResolverFailure
                &&& final(context)@.new_tables == old(context)@.new_tables
                &&& final(context)@.removed_tables == old(context)@.removed_tables
                &&& final(context)@.tables == tables_after_touch(
                    old(context)@,
                    handle@,
                    key_type@,
                )
            },
            Result::Ok((cost, present)) => {
                let reg0 = old(context)@;
                let c1 = final(context)@.tables[handle@].cells[key_bytes@];
                let was = cell_cached(reg0, handle@, key_bytes@);
                &&& op_frame(reg0, final(context)@, handle@, key_type@, key_bytes@)
                &&& was ==> c1 == cells_before(reg0, handle@)[key_bytes@]
                &&& !was ==> c1.current == c1.original
                &&& present == present_after_load(reg0, handle@, key_bytes@, c1)
                &&& cost == spec_op_cost(
                    gas_params.base as int,
                    gas_params.per_byte_serialized as int,
                    key_bytes@.len() as int,
                    spec_load_charge(*common_gas_params, was, c1.original),
                )
            },
        }),
{
    let key_len: u64 = key_bytes.len() as u64;
    let key_copy = copy_bytes(&key_bytes);
    match context.load_cell(&handle, key_type, key_bytes) {
        Result::Err(f) => Result::Err(f),
        Result::Ok(loaded) => {
            let load_charge = common_gas_params.calculate_load_cost(loaded);
            let cost = op_cost(gas_params.base, gas_params.per_byte_serialized, key_len, load_charge);
            let present = context.cell(&handle, key_copy.as_slice()).is_present();
            Result::Ok((cost, present))
        },
    }
}

/// Extracts and returns the value under `key_bytes`, leaving the cell
/// loaded-absent, or fails with `NotFound`, and leaves the cell as the load
/// step left it, when the key resolves absent.
pub fn native_remove_box<'a, R: TableResolver>(
    common_gas_params: &CommonGasParameters,
    gas_params: &RemoveGasParameters,
    context: &mut NativeTableContext<'a, R>,
    key_type: &TypeTag,
    handle: TableHandle,
    key_bytes: Vec<u8>,
) -> (r: Result<(u64, Result<Vec<u8>, OpError>), Fault>)
    requires
        old(context).wf(),
    ensures
        final(context).wf(),
        cell_cached(old(context)@, handle@, key_bytes@) ==> r is Ok,
        (match r {
            Result::Err(f) => {
                &&& f is ResolverFailure
                &&& final(context)@.new_tables == old(context)@.new_tables
                &&& final(context)@.removed_tables == old(context)@.removed_tables
                &&& final(context)@.tables == tables_after_touch(
                    old(context)@,
                    handle@,
                    key_type@,
                )
            },
            Result::Ok((cost, res)) => {
                let reg0 = old(context)@;
                let c1 = final(context)@.tables[handle@].cells[key_bytes@];
                let was = cell_cached(reg0, handle@, key_bytes@);
                let c0 = cells_before(reg0, handle@)[key_bytes@];
                let held = present_after_load(reg0, handle@, key_bytes@, c1);
                &&& op_frame(reg0, final(context)@, handle@, key_type@, key_bytes@)
                &&& was ==> c1.original == c0.original
                &&& c1.current is None
                &&& (match res {
                    Result::Ok(v) => held && Option::Some(v@) == (if was {
                        c0.current
                    } else {
                        c1.original
                    }),
                    Result::Err(e) => !held && e == OpError::NotFound,
                })
                &&& cost == spec_op_cost(
                    gas_params.base as int,
                    gas_params.per_byte_serialized as int,
                    key_bytes@.len() as int,
                    spec_load_charge(*common_gas_params, was, c1.original),
                )
            },
        }),
{
    let key_len: u64 = key_bytes.len() as u64;
    let key_copy = copy_bytes(&key_bytes);
    match context.load_cell(&handle, key_type, key_bytes) {
        Result::Err(f) => Result::Err(f),
        Result::Ok(loaded) => {
            let load_charge = common_gas_params.calculate_load_cost(loaded);
            let cost = op_cost(gas_params.base, gas_params.per_byte_serialized, key_len, load_charge);
            let ghost reg0 = old(context)@;
            let cell = context.cell_mut(&handle, key_copy.as_slice());
            let res = cell.move_from();
            proof {
                let h = handle@;
                let k = key_copy@;
                let t2 = final(context)@.tables[h];
                assert(final(context)@.tables =~= reg0.tables.insert(h, t2));
                assert(t2.cells =~= cells_before(reg0, h).insert(k, t2.cells[k]));
            }
            Result::Ok((cost, res))
        },
    }
}

/// Unconditionally marks `handle` destroyed, charging the destroy base. The
/// caller guarantees the table is empty; that is not re-verified here. A
/// second destruction of the same handle in one session is an unrecoverable
/// fault and leaves the session state unchanged.
pub fn native_destroy_empty_box<'a, R: TableResolver>(
    gas_params: &DestroyEmptyBoxGasParameters,
    context: &mut NativeTableContext<'a, R>,
    handle: TableHandle,
) -> (r: Result<u64, Fault>)
    requires
        old(context).wf(),
    ensures
        final(context).wf(),
        final(context)@.new_tables == old(context)@.new_tables,
        final(context)@.tables == old(context)@.tables,
        old(context)@.removed_tables.contains(handle@) ==> {
            &&& r matches Result::Err(f) && f is DuplicateDestroy
            &&& final(context)@ == old(context)@
        },
        !old(context)@.removed_tables.contains(handle@) ==> {
            &&& r == Result::<u64, Fault>::Ok(gas_params.base)
            &&& final(context)@.removed_tables == old(context)@.removed_tables.insert(handle@)
        },
{
    match context.mark_removed(handle) {
        Result::Ok(()) => Result::Ok(gas_params.base),
        Result::Err(f) => Result::Err(f),
    }
}

/// Discards a handle with no observable effect on the change set, charging
/// only the drop base; for tables the caller guarantees safe to abandon.
pub fn native_drop_unchecked_box(
    gas_params: &DropUncheckedBoxGasParameters,
    handle: TableHandle,
) -> (r: u64)
    ensures
        r == gas_params.base,
{
    let _ = handle;
    gas_params.base
}

} // verus!
