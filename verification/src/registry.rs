//! The table registry: the per-session set of lazily materialized tables,
//! the handles declared new, and the handles destroyed.

use vstd::prelude::*;

use crate::cell::ValueCell;
use crate::changeset::{
    handles_distinct, handles_set, lemma_handles_set_contains, lemma_handles_set_push, TableChange,
    TableChangeSet,
};
use crate::errors::Fault;
use crate::gas::LoadedInfo;
use crate::handle::{TableHandle, TableInfo, TypeTag};
use crate::kvmap::{
    kv_distinct, kv_map, lemma_kv_distinct_push, lemma_kv_map_domain, lemma_kv_map_index,
    lemma_kv_map_push, lemma_kv_map_update,
};
use crate::resolver::TableResolver;
use crate::table::{freshly_loaded, table_effects, Table, TableModel};

verus! {

/// The map held by a table list, keyed by each table's own handle.
pub open spec fn tables_map(s: Seq<Table>) -> Map<Seq<u8>, TableModel>
    decreases s.len(),
{
    if s.len() == 0 {
        Map::empty()
    } else {
        tables_map(s.drop_last()).insert(s.last()@.handle, s.last()@)
    }
}

/// Whether a table list holds no handle twice.
pub open spec fn tables_distinct(s: Seq<Table>) -> bool {
    forall|i: int, j: int| 0 <= i < j < s.len() ==> s[i]@.handle != s[j]@.handle
}

/// A handle is in the map exactly when some table carries it.
pub proof fn lemma_tables_map_domain(s: Seq<Table>, h: Seq<u8>)
    ensures
        tables_map(s).contains_key(h) <==> exists|i: int| 0 <= i < s.len() && s[i]@.handle == h,
    decreases s.len(),
{
    if s.len() > 0 {
        lemma_tables_map_domain(s.drop_last(), h);
        if s.last()@.handle == h {
            assert(s[s.len() - 1]@.handle == h);
        } else if tables_map(s).contains_key(h) {
            let i = choose|i: int| 0 <= i < s.drop_last().len() && s.drop_last()[i]@.handle == h;
            assert(s[i]@.handle == h);
        } else if exists|i: int| 0 <= i < s.len() && s[i]@.handle == h {
            let i = choose|i: int| 0 <= i < s.len() && s[i]@.handle == h;
            assert(s.drop_last()[i]@.handle == h);
        }
    }
}

/// With distinct handles, the map sends each table's handle to that table.
pub proof fn lemma_tables_map_index(s: Seq<Table>, i: int)
    requires
        tables_distinct(s),
        0 <= i < s.len(),
    ensures
        tables_map(s).contains_key(s[i]@.handle),
        tables_map(s)[s[i]@.handle] == s[i]@,
    decreases s.len(),
{
    if i < s.len() - 1 {
        assert(tables_distinct(s.drop_last()));
        assert(s.drop_last()[i] == s[i]);
        lemma_tables_map_index(s.drop_last(), i);
        assert(s[i]@.handle != s.last()@.handle);
    }
}

/// Appending a table inserts it under its handle.
pub proof fn lemma_tables_map_push(s: Seq<Table>, t: Table)
    ensures
        tables_map(s.push(t)) == tables_map(s).insert(t@.handle, t@),
        tables_distinct(s) && !tables_map(s).contains_key(t@.handle) ==> tables_distinct(
            s.push(t),
        ),
{
    assert(s.push(t).drop_last() =~= s);
    lemma_tables_map_domain(s, t@.handle);
    if tables_distinct(s) && !tables_map(s).contains_key(t@.handle) {
        let u = s.push(t);
        assert forall|i: int, j: int| 0 <= i < j < u.len() implies u[i]@.handle != u[j]@.handle by {
            if j == u.len() - 1 {
                assert(u[i] == s[i]);
            } else {
                assert(u[i] == s[i] && u[j] == s[j]);
            }
        }
    }
}

/// Replacing the table at `i` with one that keeps its handle updates the map
/// at that handle.
pub proof fn lemma_tables_map_update(s: Seq<Table>, i: int, t: Table)
    requires
        tables_distinct(s),
        0 <= i < s.len(),
        t@.handle == s[i]@.handle,
    ensures
        tables_map(s.update(i, t)) == tables_map(s).insert(s[i]@.handle, t@),
        tables_distinct(s.update(i, t)),
    decreases s.len(),
{
    let u = s.update(i, t);
    assert(tables_distinct(u));
    if i == s.len() - 1 {
        assert(u.drop_last() =~= s.drop_last());
        assert(u.last() == t);
        assert(tables_map(u) =~= tables_map(s).insert(s[i]@.handle, t@));
    } else {
        assert(tables_distinct(s.drop_last()));
        assert(s.drop_last()[i] == s[i]);
        lemma_tables_map_update(s.drop_last(), i, t);
        assert(u.drop_last() =~= s.drop_last().update(i, t));
        assert(u.last() == s.last());
        assert(s[i]@.handle != s.last()@.handle);
        assert(tables_map(u) =~= tables_map(s).insert(s[i]@.handle, t@));
    }
}

/// The map of a table list sends each handle in its domain to a table that
/// carries that very handle.
pub proof fn lemma_tables_map_consistent(s: Seq<Table>, h: Seq<u8>)
    ensures
        tables_map(s).contains_key(h) ==> tables_map(s)[h].handle == h,
    decreases s.len(),
{
    if s.len() > 0 && s.last()@.handle != h {
        lemma_tables_map_consistent(s.drop_last(), h);
    }
}

/// Whether a table contributes at least one effect to the change set.
pub open spec fn has_effects(t: TableModel) -> bool {
    exists|k: Seq<u8>| table_effects(t).dom().contains(k)
}

/// The per-table changes a family of tables contributes: one entry per table
/// with at least one effect.
pub open spec fn registry_changes(tables: Map<Seq<u8>, TableModel>) -> Map<
    Seq<u8>,
    Map<Seq<u8>, crate::cell::EffectModel>,
> {
    Map::new(
        |h: Seq<u8>| tables.contains_key(h) && has_effects(tables[h]),
        |h: Seq<u8>| table_effects(tables[h]),
    )
}

/// The mathematical form of the registry.
pub struct RegistryModel {
    /// Handle to declared key type, for tables declared new this session.
    pub new_tables: Map<Seq<u8>, Seq<u8>>,
    /// Handles destroyed this session.
    pub removed_tables: Set<Seq<u8>>,
    /// Handle to cached table state, for every handle touched this session.
    pub tables: Map<Seq<u8>, TableModel>,
}

/// The mutable session state: all tables touched so far, the handles declared
/// new, and the handles destroyed.
pub struct TableData {
    new_tables: Vec<(TableHandle, TableInfo)>,
    removed_tables: Vec<TableHandle>,
    tables: Vec<Table>,
}

impl View for TableData {
    type V = RegistryModel;

    closed spec fn view(&self) -> RegistryModel {
        RegistryModel {
            new_tables: kv_map(self.new_tables@),
            removed_tables: handles_set(self.removed_tables@),
            tables: tables_map(self.tables@),
        }
    }
}

impl TableData {
    /// Well-formedness: no handle is recorded twice in any collection, and
    /// every cached table is itself well-formed.
    pub closed spec fn wf(&self) -> bool {
        &&& kv_distinct(self.new_tables@)
        &&& handles_distinct(self.removed_tables@)
        &&& tables_distinct(self.tables@)
        &&& forall|i: int| 0 <= i < self.tables@.len() ==> (#[trigger] self.tables@[i]).wf()
    }

    /// Every cached table carries the handle it is filed under.
    pub proof fn lemma_consistent(&self)
        ensures
            forall|h: Seq<u8>|
                self@.tables.contains_key(h) ==> (#[trigger] self@.tables[h]).handle == h,
    {
        assert forall|h: Seq<u8>| self@.tables.contains_key(h) implies (#[trigger] self@.tables[
            h
        ]).handle == h by {
            lemma_tables_map_consistent(self.tables@, h);
        }
    }

    /// The empty registry of a fresh session.
    pub fn new() -> (r: Self)
        ensures
            r.wf(),
            r@.new_tables == Map::<Seq<u8>, Seq<u8>>::empty(),
            r@.removed_tables == Set::<Seq<u8>>::empty(),
            r@.tables == Map::<Seq<u8>, TableModel>::empty(),
    {
        TableData { new_tables: Vec::new(), removed_tables: Vec::new(), tables: Vec::new() }
    }

    /// The index of the cached table for `handle`, if the handle was touched
    /// before.
    fn find_table_index(&self, handle: &TableHandle) -> (r: Option<usize>)
        requires
            self.wf(),
        ensures
            (match r {
                Option::Some(i) => {
                    &&& i < self.tables@.len()
                    &&& self.tables@[i as int]@.handle == handle@
                    &&& self@.tables.contains_key(handle@)
                    &&& self@.tables[handle@] == self.tables@[i as int]@
                },
                Option::None => !self@.tables.contains_key(handle@),
            }),
    {
        let n = self.tables.len();
        let mut i: usize = 0;
        while i < n
            invariant
                i <= n,
                n == self.tables@.len(),
                self.wf(),
                forall|j: int| 0 <= j < i ==> (#[trigger] self.tables@[j])@.handle != handle@,
            decreases n - i,
        {
            if self.tables[i].handle().equals(handle) {
                proof {
                    lemma_tables_map_index(self.tables@, i as int);
                }
                return Option::Some(i);
            }
            i += 1;
        }
        proof {
            lemma_tables_map_domain(self.tables@, handle@);
        }
        Option::None
    }

    /// Ensures a table for `handle` is materialized, creating it with the
    /// given key type on the handle's first touch this session; a later touch
    /// leaves the registry unchanged, whatever key type it names.
    pub fn touch_table(&mut self, handle: TableHandle, key_type: &TypeTag)
        requires
            old(self).wf(),
        ensures
            final(self).wf(),
            final(self)@.tables.contains_key(handle@),
            final(self)@.new_tables == old(self)@.new_tables,
            final(self)@.removed_tables == old(self)@.removed_tables,
            old(self)@.tables.contains_key(handle@) ==> final(self)@ == old(self)@,
            !old(self)@.tables.contains_key(handle@) ==> final(self)@.tables == old(
                self,
            )@.tables.insert(
                handle@,
                (TableModel {
                    handle: handle@,
                    key_type: key_type@,
                    cells: Map::<Seq<u8>, crate::cell::CellModel>::empty(),
                }),
            ),
    {
        match self.find_table_index(&handle) {
            Option::Some(_) => (),
            Option::None => {
                let t = Table::new(handle, key_type.duplicate());
                proof {
                    lemma_tables_map_push(self.tables@, t);
                }
                self.tables.push(t);
            },
        }
    }

    /// Ensures the cell for `key` in the table of a touched `handle` is
    /// cached, consulting the resolver exactly when the (handle, key) pair
    /// was never touched this session, and reports what the consultation
    /// loaded, as in [`Table::load_cell`]. A resolver failure aborts with a
    /// fault and leaves the registry unchanged; a cached pair involves no
    /// outside call, so on it the load cannot fail.
    pub fn load_cell<R: TableResolver>(
        &mut self,
        resolver: &R,
        handle: &TableHandle,
        key: Vec<u8>,
    ) -> (r: Result<LoadedInfo, Fault>)
        requires
            old(self).wf(),
            old(self)@.tables.contains_key(handle@),
        ensures
            final(self).wf(),
            final(self)@.new_tables == old(self)@.new_tables,
            final(self)@.removed_tables == old(self)@.removed_tables,
            old(self)@.tables[handle@].cells.contains_key(key@) ==> r is Ok,
            (match r {
                Result::Err(f) => final(self)@ == old(self)@ && f is ResolverFailure,
                Result::Ok(loaded) => {
                    let t0 = old(self)@.tables[handle@];
                    let t1 = final(self)@.tables[handle@];
                    &&& final(self)@.tables.contains_key(handle@)
                    &&& final(self)@.tables == old(self)@.tables.insert(handle@, t1)
                    &&& t1.handle == t0.handle
                    &&& t1.key_type == t0.key_type
                    &&& t1.cells.contains_key(key@)
                    &&& t0.cells.contains_key(key@) ==> loaded is None && t1 == t0
                    &&& !t0.cells.contains_key(key@) ==> t1.cells == t0.cells.insert(
                        key@,
                        t1.cells[key@],
                    ) && freshly_loaded(t1.cells[key@], loaded)
                },
            }),
    {
        match self.find_table_index(handle) {
            Option::Some(i) => {
                let ghost s = self.tables@;
                proof {
                    assert forall|p: Table| p@.handle == s[i as int]@.handle implies #[trigger]
                        tables_map(s.update(i as int, p)) == tables_map(s).insert(
                        s[i as int]@.handle,
                        p@,
                    ) && tables_distinct(s.update(i as int, p)) by {
                        lemma_tables_map_update(s, i as int, p);
                    }
                }
                let t = &mut self.tables[i];
                let r = t.load_cell(resolver, key);
                proof {
                    if old(self)@.tables[handle@].cells.contains_key(key@) {
                        assert(tables_map(s).insert(handle@, s[i as int]@) =~= tables_map(s));
                    }
                }
                r
            },
            Option::None => unreached(),
        }
    }

    /// The cached cell for a (handle, key) pair touched before.
    pub fn cell(&self, handle: &TableHandle, key: &[u8]) -> (r: &ValueCell)
        requires
            self.wf(),
            self@.tables.contains_key(handle@),
            self@.tables[handle@].cells.contains_key(key@),
        ensures
            r@ == self@.tables[handle@].cells[key@],
    {
        match self.find_table_index(handle) {
            Option::Some(i) => self.tables[i].cell(key),
            Option::None => unreached(),
        }
    }

    /// The cached cell for a (handle, key) pair touched before, mutably: the
    /// cell the caller leaves behind replaces the cached one; nothing else in
    /// the registry moves.
    pub fn cell_mut(&mut self, handle: &TableHandle, key: &[u8]) -> (r: &mut ValueCell)
        requires
            old(self).wf(),
            old(self)@.tables.contains_key(handle@),
            old(self)@.tables[handle@].cells.contains_key(key@),
        ensures
            r@ == old(self)@.tables[handle@].cells[key@],
            final(self).wf(),
            final(self)@.new_tables == old(self)@.new_tables,
            final(self)@.removed_tables == old(self)@.removed_tables,
            final(self)@.tables == old(self)@.tables.insert(
                handle@,
                (TableModel {
                    handle: old(self)@.tables[handle@].handle,
                    key_type: old(self)@.tables[handle@].key_type,
                    cells: old(self)@.tables[handle@].cells.insert(key@, final(r)@),
                }),
            ),
    {
        match self.find_table_index(handle) {
            Option::Some(i) => {
                let ghost s = self.tables@;
                proof {
                    assert forall|p: Table| p@.handle == s[i as int]@.handle implies #[trigger]
                        tables_map(s.update(i as int, p)) == tables_map(s).insert(
                        s[i as int]@.handle,
                        p@,
                    ) && tables_distinct(s.update(i as int, p)) by {
                        lemma_tables_map_update(s, i as int, p);
                    }
                }
                let t = &mut self.tables[i];
                t.cell_mut(key)
            },
            Option::None => unreached(),
        }
    }

    /// Records that `handle` was declared new this session, preserving its
    /// key type for the change set; a second declaration of the same handle
    /// replaces the recorded type.
    pub fn declare_new(&mut self, handle: TableHandle, info: TableInfo)
        requires
            old(self).wf(),
        ensures
            final(self).wf(),
            final(self)@.new_tables == old(self)@.new_tables.insert(handle@, info@),
            final(self)@.removed_tables == old(self)@.removed_tables,
            final(self)@.tables == old(self)@.tables,
    {
        let n = self.new_tables.len();
        let mut i: usize = 0;
        while i < n
            invariant
                i <= n,
                *self == *old(self),
                n == self.new_tables@.len(),
                self.wf(),
                forall|j: int| 0 <= j < i ==> (#[trigger] self.new_tables@[j]).0@ != handle@,
            decreases n - i,
        {
            if self.new_tables[i].0.equals(&handle) {
                let ghost s = self.new_tables@;
                proof {
                    lemma_kv_map_index(s, i as int);
                    lemma_kv_map_update(s, i as int, (handle, info));
                }
                let pair = &mut self.new_tables[i];
                *pair = (handle, info);
                return ;
            }
            i += 1;
        }
        proof {
            lemma_kv_map_domain::<TableHandle, TableInfo>(self.new_tables@, handle@);
            lemma_kv_distinct_push(self.new_tables@, handle, info);
            lemma_kv_map_push(self.new_tables@, handle, info);
        }
        self.new_tables.push((handle, info));
    }

    /// Marks `handle` destroyed. The first destruction of a handle in a
    /// session succeeds; a second one is a fault and leaves the registry
    /// unchanged.
    pub fn mark_removed(&mut self, handle: TableHandle) -> (r: Result<(), Fault>)
        requires
            old(self).wf(),
        ensures
            final(self).wf(),
            final(self)@.new_tables == old(self)@.new_tables,
            final(self)@.tables == old(self)@.tables,
            old(self)@.removed_tables.contains(handle@) ==> {
                &&& r matches Result::Err(f) && f is DuplicateDestroy
                &&& final(self)@ == old(self)@
            },
            !old(self)@.removed_tables.contains(handle@) ==> {
                &&& r matches Result::Ok(u) && u == ()
                &&& final(self)@.removed_tables == old(self)@.removed_tables.insert(handle@)
            },
    {
        let n = self.removed_tables.len();
        let mut i: usize = 0;
        while i < n
            invariant
                i <= n,
                *self == *old(self),
                n == self.removed_tables@.len(),
                self.wf(),
                forall|j: int| 0 <= j < i ==> (#[trigger] self.removed_tables@[j])@ != handle@,
            decreases n - i,
        {
            if self.removed_tables[i].equals(&handle) {
                proof {
                    lemma_handles_set_contains(self.removed_tables@, handle@);
                }
                return Result::Err(Fault::DuplicateDestroy);
            }
            i += 1;
        }
        proof {
            lemma_handles_set_contains(self.removed_tables@, handle@);
            lemma_handles_set_push(self.removed_tables@, handle);
        }
        self.removed_tables.push(handle);
        Result::Ok(())
    }

    /// Consumes the registry into the session's change set: the declared-new
    /// and destroyed sets are copied through verbatim, and each cached table
    /// contributes its effect map unless that map is empty, in which case the
    /// table is omitted.
    pub fn into_change_set(self) -> (r: TableChangeSet)
        requires
            self.wf(),
        ensures
            r.wf(),
            r@.new_tables == self@.new_tables,
            r@.removed_tables == self@.removed_tables,
            r@.changes == registry_changes(self@.tables),
    {
        let TableData { new_tables, removed_tables, tables } = self;
        let ghost s = tables@;
        let mut rest = tables;
        let mut changes: Vec<(TableHandle, TableChange)> = Vec::new();
        let mut i: usize = 0;
        let total: usize = rest.len();
        proof {
            assert(s.len() == total);
            assert(s.take(0) =~= Seq::<Table>::empty());
            assert(kv_map(changes@) =~= registry_changes(tables_map(s.take(0 as int))));
        }
        while rest.len() > 0
            invariant
                i <= s.len(),
                s.len() <= usize::MAX,
                rest@ == s.skip(i as int),
                tables_distinct(s),
                forall|j: int| 0 <= j < s.len() ==> (#[trigger] s[j]).wf(),
                kv_distinct(changes@),
                forall|j: int|
                    0 <= j < changes@.len() ==> (#[trigger] changes@[j].1).wf(),
                kv_map(changes@) == registry_changes(tables_map(s.take(i as int))),
                forall|h: Seq<u8>| #[trigger]
                    kv_map(changes@).contains_key(h) ==> tables_map(
                        s.take(i as int),
                    ).contains_key(h),
            decreases rest@.len(),
        {
            let ghost prefix = s.take(i as int);
            proof {
                assert(s.skip(i as int).len() > 0);
                assert(i < s.len());
            }
            let t = rest.remove(0);
            let handle = *t.handle();
            let ghost tm = t@;
            proof {
                assert(s.skip(i as int)[0] == s[i as int]);
                assert(t == s[i as int]);
                assert(rest@ =~= s.skip(i as int + 1));
                assert(s.take(i as int + 1).drop_last() =~= prefix);
                assert(s.take(i as int + 1).last() == s[i as int]);
                assert(tables_map(s.take(i as int + 1)) == tables_map(prefix).insert(handle@, tm));
                lemma_tables_map_domain(prefix, handle@);
                assert(forall|j: int| 0 <= j < prefix.len() ==> prefix[j] == s[j]);
                assert(!tables_map(prefix).contains_key(handle@));
            }
            let entries = t.into_entries();
            if entries.len() > 0 {
                let change = TableChange { entries };
                proof {
                    assert(change@.contains_key(change.entries@[0].0@)) by {
                        lemma_kv_map_domain::<Vec<u8>, crate::cell::Effect>(
                            change.entries@,
                            change.entries@[0].0@,
                        );
                    }
                    assert(has_effects(tm));
                    lemma_kv_distinct_push(changes@, handle, change);
                    lemma_kv_map_push(changes@, handle, change);
                    assert(registry_changes(tables_map(prefix).insert(handle@, tm)) =~= kv_map(
                        changes@,
                    ).insert(handle@, change@));
                }
                changes.push((handle, change));
            } else {
                proof {
                    assert(kv_map(entries@) =~= Map::<Seq<u8>, crate::cell::EffectModel>::empty())
                        by {
                        assert(entries@.len() == 0);
                    }
                    assert(!has_effects(tm)) by {
                        if has_effects(tm) {
                            let k = choose|k: Seq<u8>| table_effects(tm).dom().contains(k);
                            assert(kv_map(entries@).contains_key(k));
                        }
                    }
                    assert(registry_changes(tables_map(prefix).insert(handle@, tm)) =~= kv_map(
                        changes@,
                    ));
                }
            }
            i += 1;
        }
        proof {
            assert(s.take(i as int) =~= s);
        }
        TableChangeSet { new_tables, removed_tables, changes }
    }
}

} // verus!
