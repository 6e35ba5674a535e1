//! One table: the key type it was first touched with and the map from
//! encoded key bytes to value cells, populated lazily from the resolver.

use vstd::prelude::*;

use crate::bytes::bytes_equal;
use crate::cell::{cell_effect, CellModel, Effect, EffectModel, ValueCell};
use crate::errors::Fault;
use crate::gas::LoadedInfo;
use crate::handle::{TableHandle, TypeTag};
use crate::kvmap::{
    kv_distinct, kv_map, lemma_kv_distinct_push, lemma_kv_map_domain, lemma_kv_map_index,
    lemma_kv_map_push, lemma_kv_map_update,
};
use crate::resolver::{resolver_failure_message, TableResolver};

verus! {

/// The mathematical form of one table.
pub struct TableModel {
    pub handle: Seq<u8>,
    pub key_type: Seq<u8>,
    pub cells: Map<Seq<u8>, CellModel>,
}

/// The effects contributed by a family of cells: one entry per key whose
/// final state differs from its originating state.
pub open spec fn effects_of_cells(cells: Map<Seq<u8>, CellModel>) -> Map<Seq<u8>, EffectModel> {
    Map::new(
        |k: Seq<u8>| cells.contains_key(k) && cell_effect(cells[k]) is Some,
        |k: Seq<u8>| cell_effect(cells[k])->0,
    )
}

/// The effect map a table contributes to the change set.
pub open spec fn table_effects(t: TableModel) -> Map<Seq<u8>, EffectModel> {
    effects_of_cells(t.cells)
}

/// What the resolver consultation of a fresh load recorded in the new cell.
pub open spec fn freshly_loaded(c: CellModel, loaded: LoadedInfo) -> bool {
    &&& c.current == c.original
    &&& match loaded {
        Option::None => false,
        Option::Some(Option::Some(n)) => c.original matches Some(b) && b.len() == n as nat,
        Option::Some(Option::None) => c.original is None,
    }
}

/// A single table, owned by the session context for the session's lifetime.
pub struct Table {
    handle: TableHandle,
    key_type: TypeTag,
    content: Vec<(Vec<u8>, ValueCell)>,
}

impl View for Table {
    type V = TableModel;

    closed spec fn view(&self) -> TableModel {
        TableModel {
            handle: self.handle@,
            key_type: self.key_type@,
            cells: kv_map(self.content@),
        }
    }
}

impl Table {
    /// Well-formedness: no key is cached twice.
    pub closed spec fn wf(&self) -> bool {
        kv_distinct(self.content@)
    }

    /// A fresh table with no key touched yet. The key type is fixed here,
    /// on first touch of the handle, and never changes afterwards.
    pub fn new(handle: TableHandle, key_type: TypeTag) -> (r: Self)
        ensures
            r.wf(),
            r@.handle == handle@,
            r@.key_type == key_type@,
            r@.cells == Map::<Seq<u8>, CellModel>::empty(),
    {
        Table { handle, key_type, content: Vec::new() }
    }

    /// The handle this table is addressed by.
    pub fn handle(&self) -> (r: &TableHandle)
        ensures
            r@ == self@.handle,
    {
        &self.handle
    }

    /// The index of the cached cell for `key`, if the key was touched before.
    fn find_index(&self, key: &[u8]) -> (r: Option<usize>)
        requires
            self.wf(),
        ensures
            (match r {
                Option::Some(i) => {
                    &&& i < self.content@.len()
                    &&& self.content@[i as int].0@ == key@
                    &&& self@.cells.contains_key(key@)
                    &&& self@.cells[key@] == self.content@[i as int].1@
                },
                Option::None => !self@.cells.contains_key(key@),
            }),
    {
        let n = self.content.len();
        let mut i: usize = 0;
        while i < n
            invariant
                i <= n,
                n == self.content@.len(),
                self.wf(),
                forall|j: int| 0 <= j < i ==> self.content@[j].0@ != key@,
            decreases n - i,
        {
            let pair = &self.content[i];
            if bytes_equal(pair.0.as_slice(), key) {
                proof {
                    lemma_kv_map_index(self.content@, i as int);
                }
                return Option::Some(i);
            }
            i += 1;
        }
        proof {
            lemma_kv_map_domain::<Vec<u8>, ValueCell>(self.content@, key@);
        }
        Option::None
    }

    /// Ensures the cell for `key` is cached, consulting the resolver exactly
    /// when the key was never touched in this session, and reports what that
    /// consultation loaded: `None` on a cache hit (nothing was consulted and
    /// nothing may be charged), `Some(Some(n))` when `n` persisted bytes were
    /// fetched, `Some(None)` when the key is absent upstream. A resolver
    /// failure aborts with a fault and leaves the table unchanged; a cached
    /// key involves no outside call, so on it the load cannot fail.
    pub fn load_cell<R: TableResolver>(&mut self, resolver: &R, key: Vec<u8>) -> (r: Result<
        LoadedInfo,
        Fault,
    >)
        requires
            old(self).wf(),
        ensures
            final(self).wf(),
            final(self)@.handle == old(self)@.handle,
            final(self)@.key_type == old(self)@.key_type,
            old(self)@.cells.contains_key(key@) ==> r is Ok,
            (match r {
                Result::Err(f) => final(self)@ == old(self)@ && f is ResolverFailure,
                Result::Ok(loaded) => {
                    &&& final(self)@.cells.contains_key(key@)
                    &&& old(self)@.cells.contains_key(key@) ==> loaded is None && final(self)@
                        == old(self)@
                    &&& !old(self)@.cells.contains_key(key@) ==> {
                        &&& final(self)@.cells == old(self)@.cells.insert(
                            key@,
                            final(self)@.cells[key@],
                        )
                        &&& freshly_loaded(final(self)@.cells[key@], loaded)
                    }
                },
            }),
    {
        match self.find_index(key.as_slice()) {
            Option::Some(_) => Result::Ok(Option::None),
            Option::None => {
                match resolver.resolve_table_entry(&self.handle, key.as_slice()) {
                    Result::Err(e) => Result::Err(
                        Fault::ResolverFailure(resolver_failure_message(&e)),
                    ),
                    Result::Ok(found) => {
                        let (cell, loaded) = match found {
                            Option::Some(bytes) => {
                                let n: u64 = bytes.len() as u64;
                                (ValueCell::cached(bytes), Option::Some(Option::Some(n)))
                            },
                            Option::None => (ValueCell::vacant(), Option::Some(Option::None)),
                        };
                        proof {
                            lemma_kv_distinct_push(self.content@, key, cell);
                            lemma_kv_map_push(self.content@, key, cell);
                        }
                        let ghost old_content = self.content@;
                        self.content.push((key, cell));
                        proof {
                            assert(self.content@ == old_content.push((key, cell)));
                            assert(self@.cells[key@] == cell@);
                        }
                        Result::Ok(loaded)
                    },
                }
            },
        }
    }

    /// The cached cell for a key touched before.
    pub fn cell(&self, key: &[u8]) -> (r: &ValueCell)
        requires
            self.wf(),
            self@.cells.contains_key(key@),
        ensures
            r@ == self@.cells[key@],
    {
        match self.find_index(key) {
            Option::Some(i) => &self.content[i].1,
            Option::None => unreached(),
        }
    }

    /// The cached cell for a key touched before, mutably: the cell the caller
    /// leaves behind replaces the cached one.
    pub fn cell_mut(&mut self, key: &[u8]) -> (r: &mut ValueCell)
        requires
            old(self).wf(),
            old(self)@.cells.contains_key(key@),
        ensures
            r@ == old(self)@.cells[key@],
            final(self).wf(),
            final(self)@.handle == old(self)@.handle,
            final(self)@.key_type == old(self)@.key_type,
            final(self)@.cells == old(self)@.cells.insert(key@, final(r)@),
    {
        match self.find_index(key) {
            Option::Some(i) => {
                let ghost s = self.content@;
                proof {
                    assert forall|p: (Vec<u8>, ValueCell)| p.0@ == s[i as int].0@ implies #[trigger]
                        kv_map(s.update(i as int, p)) == kv_map(s).insert(s[i as int].0@, p.1@)
                        && kv_distinct(s.update(i as int, p)) by {
                        lemma_kv_map_update(s, i as int, p);
                    }
                }
                let pair = &mut self.content[i];
                &mut pair.1
            },
            Option::None => unreached(),
        }
    }

    /// Consumes the table into its change-set entries: one entry per key
    /// whose final state differs from its originating state; keys whose
    /// creation and deletion cancelled out are omitted.
    pub fn into_entries(self) -> (r: Vec<(Vec<u8>, Effect)>)
        requires
            self.wf(),
        ensures
            kv_distinct(r@),
            kv_map(r@) == table_effects(self@),
    {
        let Table { handle: _, key_type: _, content } = self;
        let ghost s = content@;
        let mut rest = content;
        let mut entries: Vec<(Vec<u8>, Effect)> = Vec::new();
        let mut i: usize = 0;
        let total: usize = rest.len();
        proof {
            assert(s.len() == total);
            assert(s.take(0) =~= Seq::<(Vec<u8>, ValueCell)>::empty());
            assert(kv_map(entries@) =~= effects_of_cells(kv_map(s.take(0 as int))));
        }
        while rest.len() > 0
            invariant
                i <= s.len(),
                s.len() <= usize::MAX,
                rest@ == s.skip(i as int),
                kv_distinct(s),
                kv_distinct(entries@),
                kv_map(entries@) == effects_of_cells(kv_map(s.take(i as int))),
                forall|k: Seq<u8>| #[trigger]
                    kv_map(entries@).contains_key(k) ==> kv_map(s.take(i as int)).contains_key(k),
            decreases rest@.len(),
        {
            let ghost prefix = s.take(i as int);
            proof {
                assert(s.skip(i as int).len() > 0);
                assert(i < s.len());
            }
            let (key, cell) = rest.remove(0);
            proof {
                assert(s.skip(i as int)[0] == s[i as int]);
                assert((key, cell) == s[i as int]);
                assert(rest@ =~= s.skip(i as int + 1));
                assert(s.take(i as int + 1).drop_last() =~= prefix);
                assert(s.take(i as int + 1).last() == s[i as int]);
                assert(kv_map(s.take(i as int + 1)) == kv_map(prefix).insert(key@, cell@));
                lemma_kv_map_domain::<Vec<u8>, ValueCell>(prefix, key@);
                assert(!kv_map(prefix).contains_key(key@));
            }
            let ghost cellm = cell@;
            match cell.into_effect() {
                Option::Some(eff) => {
                    proof {
                        lemma_kv_distinct_push(entries@, key, eff);
                        lemma_kv_map_push(entries@, key, eff);
                        assert(effects_of_cells(kv_map(prefix).insert(key@, cellm)) =~= kv_map(
                            entries@,
                        ).insert(key@, eff@));
                    }
                    entries.push((key, eff));
                },
                Option::None => {
                    proof {
                        assert(effects_of_cells(kv_map(prefix).insert(key@, cellm)) =~= kv_map(
                            entries@,
                        ));
                    }
                },
            }
            i += 1;
        }
        proof {
            assert(s.take(i as int) =~= s);
        }
        entries
    }
}

} // verus!
