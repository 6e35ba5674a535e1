//! The change set: the session's sole output, a minimal typed diff that the
//! surrounding storage-application layer applies to the persistent store.

use vstd::prelude::*;

use crate::cell::{Effect, EffectModel};
use crate::handle::{TableHandle, TableInfo};
use crate::kvmap::{kv_distinct, kv_map};

verus! {

/// The changes of a single table: one effect per key whose final state
/// differs from its originating state.
pub struct TableChange {
    pub entries: Vec<(Vec<u8>, Effect)>,
}

impl View for TableChange {
    type V = Map<Seq<u8>, EffectModel>;

    open spec fn view(&self) -> Map<Seq<u8>, EffectModel> {
        kv_map(self.entries@)
    }
}

impl TableChange {
    /// Well-formedness: no key carries two effects.
    pub open spec fn wf(&self) -> bool {
        kv_distinct(self.entries@)
    }
}

/// The mathematical form of a change set.
pub struct ChangeSetModel {
    /// Handle to declared key type, for tables declared new this session.
    pub new_tables: Map<Seq<u8>, Seq<u8>>,
    /// Handles destroyed this session.
    pub removed_tables: Set<Seq<u8>>,
    /// Handle to effect map, for tables with at least one effect.
    pub changes: Map<Seq<u8>, Map<Seq<u8>, EffectModel>>,
}

/// A table change set: tables declared new, tables destroyed, and the
/// per-table effect maps. Tables whose effects cancelled out entirely are
/// omitted from `changes`, though they still appear in the two sets.
pub struct TableChangeSet {
    pub new_tables: Vec<(TableHandle, TableInfo)>,
    pub removed_tables: Vec<TableHandle>,
    pub changes: Vec<(TableHandle, TableChange)>,
}

/// The set of handles held by a handle list.
pub open spec fn handles_set(s: Seq<TableHandle>) -> Set<Seq<u8>>
    decreases s.len(),
{
    if s.len() == 0 {
        Set::empty()
    } else {
        handles_set(s.drop_last()).insert(s.last()@)
    }
}

/// Whether a handle list names no handle twice.
pub open spec fn handles_distinct(s: Seq<TableHandle>) -> bool {
    forall|i: int, j: int| 0 <= i < j < s.len() ==> s[i]@ != s[j]@
}

/// A handle is in the set exactly when some entry carries it.
pub proof fn lemma_handles_set_contains(s: Seq<TableHandle>, h: Seq<u8>)
    ensures
        handles_set(s).contains(h) <==> exists|i: int| 0 <= i < s.len() && s[i]@ == h,
    decreases s.len(),
{
    if s.len() > 0 {
        lemma_handles_set_contains(s.drop_last(), h);
        if s.last()@ == h {
            assert(s[s.len() - 1]@ == h);
        } else if handles_set(s).contains(h) {
            let i = choose|i: int| 0 <= i < s.drop_last().len() && s.drop_last()[i]@ == h;
            assert(s[i]@ == h);
        } else if exists|i: int| 0 <= i < s.len() && s[i]@ == h {
            let i = choose|i: int| 0 <= i < s.len() && s[i]@ == h;
            assert(s.drop_last()[i]@ == h);
        }
    }
}

/// Appending a handle inserts it into the set.
pub proof fn lemma_handles_set_push(s: Seq<TableHandle>, h: TableHandle)
    ensures
        handles_set(s.push(h)) == handles_set(s).insert(h@),
        handles_distinct(s) && !handles_set(s).contains(h@) ==> handles_distinct(s.push(h)),
{
    assert(s.push(h).drop_last() =~= s);
    lemma_handles_set_contains(s, h@);
    if handles_distinct(s) && !handles_set(s).contains(h@) {
        let t = s.push(h);
        assert forall|i: int, j: int| 0 <= i < j < t.len() implies t[i]@ != t[j]@ by {
            if j == t.len() - 1 {
                assert(t[i] == s[i]);
            } else {
                assert(t[i] == s[i] && t[j] == s[j]);
            }
        }
    }
}

impl View for TableChangeSet {
    type V = ChangeSetModel;

    open spec fn view(&self) -> ChangeSetModel {
        ChangeSetModel {
            new_tables: kv_map(self.new_tables@),
            removed_tables: handles_set(self.removed_tables@),
            changes: kv_map(self.changes@),
        }
    }
}

impl TableChangeSet {
    /// Well-formedness: each collection names a handle or key at most once,
    /// and each per-table change is itself well-formed.
    pub open spec fn wf(&self) -> bool {
        &&& kv_distinct(self.new_tables@)
        &&& handles_distinct(self.removed_tables@)
        &&& kv_distinct(self.changes@)
        &&& forall|i: int| 0 <= i < self.changes@.len() ==> (#[trigger] self.changes@[i].1).wf()
    }
}

} // verus!
