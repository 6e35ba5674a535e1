//! The session context: the object attached to one execution session. It
//! owns the table registry, holds the resolver for the session's lifetime,
//! and is consumed at session end to produce the change set.

use vstd::prelude::*;

use crate::cell::{CellModel, ValueCell};
use crate::changeset::TableChangeSet;
use crate::errors::Fault;
use crate::gas::LoadedInfo;
use crate::handle::{TableHandle, TableInfo, TypeTag};
use crate::registry::{registry_changes, RegistryModel, TableData};
use crate::resolver::TableResolver;
use crate::table::{freshly_loaded, TableModel};

verus! {

/// The cells cached for `h` before an operation: empty when the handle was
/// never touched.
pub open spec fn cells_before(reg: RegistryModel, h: Seq<u8>) -> Map<Seq<u8>, CellModel> {
    if reg.tables.contains_key(h) {
        reg.tables[h].cells
    } else {
        Map::empty()
    }
}

/// Whether the cell for (`h`, `k`) is cached, so that an operation touching
/// it consults no resolver and charges no load cost.
pub open spec fn cell_cached(reg: RegistryModel, h: Seq<u8>, k: Seq<u8>) -> bool {
    cells_before(reg, h).contains_key(k)
}

/// The key type a table for `h` carries after a touch that named `kt`: the
/// type fixed at the handle's first touch wins.
pub open spec fn key_type_after(reg: RegistryModel, h: Seq<u8>, kt: Seq<u8>) -> Seq<u8> {
    if reg.tables.contains_key(h) {
        reg.tables[h].key_type
    } else {
        kt
    }
}

/// The table map after a touch of `h` with key type `kt` that cached nothing
/// new: unchanged when the handle was touched before, extended by an empty
/// table otherwise.
pub open spec fn tables_after_touch(reg: RegistryModel, h: Seq<u8>, kt: Seq<u8>) -> Map<
    Seq<u8>,
    TableModel,
> {
    if reg.tables.contains_key(h) {
        reg.tables
    } else {
        reg.tables.insert(
            h,
            TableModel { handle: h, key_type: kt, cells: Map::<Seq<u8>, CellModel>::empty() },
        )
    }
}

/// The native table context of one execution session: the resolver fixed at
/// construction, and the mutable registry of everything touched so far.
pub struct NativeTableContext<'a, R: TableResolver> {
    resolver: &'a R,
    table_data: TableData,
}

impl<'a, R: TableResolver> View for NativeTableContext<'a, R> {
    type V = RegistryModel;

    closed spec fn view(&self) -> RegistryModel {
        self.table_data@
    }
}

impl<'a, R: TableResolver> NativeTableContext<'a, R> {
    /// Well-formedness of the cached state.
    pub closed spec fn wf(&self) -> bool {
        self.table_data.wf()
    }

    /// A fresh context for one session, over the given resolver.
    pub fn new(resolver: &'a R) -> (r: Self)
        ensures
            r.wf(),
            r@.new_tables == Map::<Seq<u8>, Seq<u8>>::empty(),
            r@.removed_tables == Set::<Seq<u8>>::empty(),
            r@.tables == Map::<Seq<u8>, TableModel>::empty(),
    {
        NativeTableContext { resolver, table_data: TableData::new() }
    }

    /// Ensures the cell for (`handle`, `key`) is cached, materializing the
    /// table on the handle's first touch and consulting the resolver exactly
    /// when the pair was never touched this session. Reports what the
    /// consultation loaded: `None` on a cache hit, `Some(Some(n))` when `n`
    /// persisted bytes were fetched, `Some(None)` when the key is absent
    /// upstream. A resolver failure aborts with a fault; already-buffered
    /// cells are never disturbed, and a cached pair involves no outside call,
    /// so on it the load cannot fail.
    pub fn load_cell(&mut self, handle: &TableHandle, key_type: &TypeTag, key: Vec<u8>) -> (r:
        Result<LoadedInfo, Fault>)
        requires
            old(self).wf(),
        ensures
            final(self).wf(),
            final(self)@.new_tables == old(self)@.new_tables,
            final(self)@.removed_tables == old(self)@.removed_tables,
            cell_cached(old(self)@, handle@, key@) ==> r is Ok,
            (match r {
                Result::Err(f) => {
                    &&& f is ResolverFailure
                    &&& final(self)@.tables == tables_after_touch(old(self)@, handle@, key_type@)
                },
                Result::Ok(loaded) => {
                    let t1 = final(self)@.tables[handle@];
                    let c1 = t1.cells[key@];
                    &&& final(self)@.tables.contains_key(handle@)
                    &&& t1.cells.contains_key(key@)
                    &&& t1.handle == handle@
                    &&& t1.key_type == key_type_after(old(self)@, handle@, key_type@)
                    &&& final(self)@.tables == old(self)@.tables.insert(handle@, t1)
                    &&& t1.cells == cells_before(old(self)@, handle@).insert(key@, c1)
                    &&& cell_cached(old(self)@, handle@, key@) ==> loaded is None && c1
                        == cells_before(old(self)@, handle@)[key@]
                    &&& !cell_cached(old(self)@, handle@, key@) ==> freshly_loaded(c1, loaded)
                        && loaded is Some
                },
            }),
    {
        self.table_data.touch_table(*handle, key_type);
        let r = self.table_data.load_cell(self.resolver, handle, key);
        proof {
            let h = handle@;
            let k = key@;
            let reg0 = old(self)@;
            old(self).table_data.lemma_consistent();
            self.table_data.lemma_consistent();
            match r {
                Result::Err(_) => {
                    if reg0.tables.contains_key(h) {
                        assert(reg0.tables.insert(h, reg0.tables[h]) =~= reg0.tables);
                    }
                },
                Result::Ok(loaded) => {
                    let t1 = self@.tables[h];
                    if reg0.tables.contains_key(h) {
                        assert(self@.tables =~= reg0.tables.insert(h, t1));
                        if reg0.tables[h].cells.contains_key(k) {
                            assert(t1.cells =~= cells_before(reg0, h).insert(k, t1.cells[k]));
                        }
                    } else {
                        assert(self@.tables =~= reg0.tables.insert(h, t1));
                        assert(t1.cells =~= cells_before(reg0, h).insert(k, t1.cells[k]));
                    }
                },
            }
        }
        r
    }

    /// The cached cell for a (handle, key) pair touched before.
    pub fn cell(&self, handle: &TableHandle, key: &[u8]) -> (r: &ValueCell)
        requires
            self.wf(),
            cell_cached(self@, handle@, key@),
        ensures
            r@ == self@.tables[handle@].cells[key@],
    {
        self.table_data.cell(handle, key)
    }

    /// The cached cell for a (handle, key) pair touched before, mutably: the
    /// cell the caller leaves behind replaces the cached one; nothing else in
    /// the session moves.
    pub fn cell_mut(&mut self, handle: &TableHandle, key: &[u8]) -> (r: &mut ValueCell)
        requires
            old(self).wf(),
            cell_cached(old(self)@, handle@, key@),
        ensures
            r@ == old(self)@.tables[handle@].cells[key@],
            final(self).wf(),
            final(self)@.new_tables == old(self)@.new_tables,
            final(self)@.removed_tables == old(self)@.removed_tables,
            final(self)@.tables == old(self)@.tables.insert(
                handle@,
                (TableModel {
                    handle: old(self)@.tables[handle@].handle,
                    key_type: old(self)@.tables[handle@].key_type,
                    cells: old(self)@.tables[handle@].cells.insert(key@, final(r)@),
                }),
            ),
    {
        self.table_data.cell_mut(handle, key)
    }

    /// Records that `handle` was declared new this session; its key type is
    /// preserved verbatim into the change set.
    pub fn declare_new_table(&mut self, handle: TableHandle, info: TableInfo)
        requires
            old(self).wf(),
        ensures
            final(self).wf(),
            final(self)@.new_tables == old(self)@.new_tables.insert(handle@, info@),
            final(self)@.removed_tables == old(self)@.removed_tables,
            final(self)@.tables == old(self)@.tables,
    {
        self.table_data.declare_new(handle, info)
    }

    /// Marks `handle` destroyed, faulting on a duplicate destruction.
    pub fn mark_removed(&mut self, handle: TableHandle) -> (r: Result<(), Fault>)
        requires
            old(self).wf(),
        ensures
            final(self).wf(),
            final(self)@.new_tables == old(self)@.new_tables,
            final(self)@.tables == old(self)@.tables,
            old(self)@.removed_tables.contains(handle@) ==> {
                &&& r matches Result::Err(f) && f is DuplicateDestroy
                &&& final(self)@ == old(self)@
            },
            !old(self)@.removed_tables.contains(handle@) ==> {
                &&& r matches Result::Ok(u) && u == ()
                &&& final(self)@.removed_tables == old(self)@.removed_tables.insert(handle@)
            },
    {
        self.table_data.mark_removed(handle)
    }

    /// Consumes the session into its change set: declared-new and destroyed
    /// handles are copied through verbatim, and each touched table
    /// contributes one effect per key whose final state differs from its
    /// originating state, the table being omitted when no effect remains.
    pub fn into_change_set(self) -> (r: TableChangeSet)
        requires
            self.wf(),
        ensures
            r.wf(),
            r@.new_tables == self@.new_tables,
            r@.removed_tables == self@.removed_tables,
            r@.changes == registry_changes(self@.tables),
    {
        self.table_data.into_change_set()
    }
}

} // verus!
