//! Table handles and the per-table type information recorded for the change
//! set.

use vstd::prelude::*;

verus! {

/// The number of bytes in a table handle.
pub const HANDLE_LENGTH: usize = 32;

/// The representation of a table handle: an opaque fixed-size identifier
/// naming one table, generated by the surrounding transaction machinery.
/// Equality is byte-wise.
#[derive(Clone, Copy, Debug)]
pub struct TableHandle(pub [u8; 32]);

impl View for TableHandle {
    type V = Seq<u8>;

    open spec fn view(&self) -> Seq<u8> {
        self.0@
    }
}

impl TableHandle {
    /// Byte-wise equality of two handles.
    pub fn equals(&self, other: &TableHandle) -> (r: bool)
        ensures
            r <==> self@ == other@,
    {
        let mut i: usize = 0;
        while i < 32
            invariant
                i <= 32,
                forall|j: int| 0 <= j < i ==> self.0@[j] == other.0@[j],
            decreases 32 - i,
        {
            if self.0[i] != other.0[i] {
                return false;
            }
            i += 1;
        }
        proof {
            assert(self.0@ =~= other.0@);
        }
        true
    }
}

/// An opaque runtime type descriptor, recorded when a table is declared and
/// handed back with the change set. The staging layer never inspects it;
/// equality is byte-wise over its encoding.
#[derive(Clone, Debug)]
pub struct TypeTag(pub Vec<u8>);

impl View for TypeTag {
    type V = Seq<u8>;

    open spec fn view(&self) -> Seq<u8> {
        self.0@
    }
}

impl TypeTag {
    /// A fresh descriptor holding the same encoding.
    pub fn duplicate(&self) -> (r: Self)
        ensures
            r@ == self@,
    {
        TypeTag(crate::bytes::copy_bytes(&self.0))
    }
}

/// Records the key type of a declared table; produced when a table is first
/// declared and preserved for the lifetime of the change set.
#[derive(Clone, Debug)]
pub struct TableInfo {
    pub key_type: TypeTag,
}

impl View for TableInfo {
    type V = Seq<u8>;

    open spec fn view(&self) -> Seq<u8> {
        self.key_type@
    }
}

impl TableInfo {
    pub fn new(key_type: TypeTag) -> (r: Self)
        ensures
            r@ == key_type@,
    {
        Self { key_type }
    }
}

} // verus!
