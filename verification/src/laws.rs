//! Session-wide laws of the staging layer, stated over the same models its
//! operation contracts use and proved from them.

use vstd::prelude::*;

use crate::cell::EffectModel;
use crate::context::{cell_cached, cells_before};
use crate::gas::CommonGasParameters;
use crate::ops::{op_frame, spec_load_charge};
use crate::registry::RegistryModel;
use crate::table::{table_effects, TableModel};

verus! {

/// The resolver is consulted, and the load charge paid, at most once per
/// (handle, key) pair per session: every key-addressed operation leaves its
/// pair cached, and the contracts make the load charge of any operation on a
/// cached pair zero, with the load step leaving its cell untouched.
pub proof fn lemma_pair_loaded_at_most_once(
    reg0: RegistryModel,
    reg1: RegistryModel,
    h: Seq<u8>,
    kt: Seq<u8>,
    k: Seq<u8>,
    common: CommonGasParameters,
    original: Option<Seq<u8>>,
)
    requires
        op_frame(reg0, reg1, h, kt, k),
    ensures
        cell_cached(reg1, h, k),
        spec_load_charge(common, cell_cached(reg1, h, k), original) == 0,
{
}

/// A key-addressed operation touches only its own pair: any other pair is
/// cached afterwards exactly when it was cached before, with its cell
/// unchanged. A pair never touched in a session therefore never has a cell,
/// is never the subject of a resolver call, and is never charged a load cost.
pub proof fn lemma_op_touches_only_its_pair(
    reg0: RegistryModel,
    reg1: RegistryModel,
    h: Seq<u8>,
    kt: Seq<u8>,
    k: Seq<u8>,
    h2: Seq<u8>,
    k2: Seq<u8>,
)
    requires
        op_frame(reg0, reg1, h, kt, k),
        !(h2 == h && k2 == k),
    ensures
        cell_cached(reg1, h2, k2) == cell_cached(reg0, h2, k2),
        cell_cached(reg0, h2, k2) ==> cells_before(reg1, h2)[k2] == cells_before(reg0, h2)[k2],
{
}

/// A key inserted and removed within one session, absent before it, yields
/// no entry in its table's effect map: the creation and the deletion cancel.
pub proof fn lemma_cancelled_key_yields_no_effect(t: TableModel, k: Seq<u8>)
    requires
        t.cells.contains_key(k),
        t.cells[k].original is None,
        t.cells[k].current is None,
    ensures
        !table_effects(t).dom().contains(k),
{
}

/// A key that held a persisted value before the session and was removed
/// yields a delete in its table's effect map.
pub proof fn lemma_removed_persisted_key_yields_delete(t: TableModel, k: Seq<u8>)
    requires
        t.cells.contains_key(k),
        t.cells[k].original is Some,
        t.cells[k].current is None,
    ensures
        table_effects(t).dom().contains(k),
        table_effects(t)[k] == EffectModel::Delete,
{
}

/// The net effect of a key reflects only its final state: however many
/// inserts and removes preceded it — the operations rewrite only the staged
/// value, never the originating state — a key absent before the session that
/// ends staged with `v` yields exactly an insert of `v`.
pub proof fn lemma_readded_key_effect_is_final(t: TableModel, k: Seq<u8>, v: Seq<u8>)
    requires
        t.cells.contains_key(k),
        t.cells[k].original is None,
        t.cells[k].current == Option::Some(v),
    ensures
        table_effects(t).dom().contains(k),
        table_effects(t)[k] == EffectModel::Insert(v),
{
}

/// Destroy-empty succeeds exactly once per handle per session: a successful
/// destruction puts the handle into the destroyed set, and the destroy
/// contract faults on exactly the handles that set already holds, leaving
/// the session state unchanged.
pub proof fn lemma_destroy_succeeds_once(reg0: RegistryModel, reg1: RegistryModel, h: Seq<u8>)
    requires
        !reg0.removed_tables.contains(h),
        reg1.removed_tables == reg0.removed_tables.insert(h),
    ensures
        reg1.removed_tables.contains(h),
{
}

} // verus!
