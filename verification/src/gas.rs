//! The cost model: a flat per-operation base charge plus a per-byte charge on
//! the encoded key, and a shared load charge applied once per distinct
//! (handle, key) pair, on the call that first populates its value cell.
//!
//! All charges are computed with saturating arithmetic, so no configuration
//! can make an operation panic.

use vstd::prelude::*;

verus! {

/// Mathematical form of saturating `u64` addition.
pub open spec fn sat_add(a: int, b: int) -> int {
    if a + b > u64::MAX {
        u64::MAX as int
    } else {
        a + b
    }
}

/// Mathematical form of saturating `u64` multiplication.
pub open spec fn sat_mul(a: int, b: int) -> int {
    if a * b > u64::MAX {
        u64::MAX as int
    } else {
        a * b
    }
}

/// Saturating addition of two gas amounts.
pub fn gas_add(a: u64, b: u64) -> (r: u64)
    ensures
        r == sat_add(a as int, b as int),
{
    if a <= u64::MAX - b {
        a + b
    } else {
        u64::MAX
    }
}

/// Saturating multiplication of a per-unit gas amount by a unit count.
pub fn gas_mul(a: u64, b: u64) -> (r: u64)
    ensures
        r == sat_mul(a as int, b as int),
{
    match a.checked_mul(b) {
        Some(p) => p,
        None => u64::MAX,
    }
}

/// What the resolver consultation of one operation loaded:
/// `None` when the cell was already cached (no consultation),
/// `Some(Some(n))` when a persisted value of `n` bytes was fetched,
/// `Some(None)` when the resolver confirmed the key absent.
pub type LoadedInfo = Option<Option<u64>>;

/// Configuration of the shared load charge.
#[derive(Debug, Clone)]
pub struct CommonGasParameters {
    pub load_base: u64,
    pub load_per_byte: u64,
    pub load_failure: u64,
}

impl CommonGasParameters {
    /// Mathematical form of the load charge: nothing on a cache hit, the base
    /// charge plus a per-byte charge on a successful fetch, and the base
    /// charge plus the flat failure charge when the key is absent upstream.
    pub open spec fn spec_load_cost(&self, loaded: LoadedInfo) -> int {
        match loaded {
            None => 0,
            Some(Some(n)) => sat_add(
                self.load_base as int,
                sat_mul(self.load_per_byte as int, n as int),
            ),
            Some(None) => sat_add(self.load_base as int, self.load_failure as int),
        }
    }

    /// The one-time load charge for the given consultation outcome.
    pub fn calculate_load_cost(&self, loaded: LoadedInfo) -> (r: u64)
        ensures
            r == self.spec_load_cost(loaded),
            loaded is None ==> r == 0,
    {
        match loaded {
            None => 0,
            Some(Some(n)) => gas_add(self.load_base, gas_mul(self.load_per_byte, n)),
            Some(None) => gas_add(self.load_base, self.load_failure),
        }
    }
}

/// Mathematical form of one operation's total charge: base, plus per-byte on
/// the encoded key, plus the load charge already computed.
pub open spec fn spec_op_cost(base: int, per_byte: int, key_len: int, load: int) -> int {
    sat_add(sat_add(base, sat_mul(per_byte, key_len)), load)
}

/// The total charge of one key-addressed operation.
pub fn op_cost(base: u64, per_byte: u64, key_len: u64, load: u64) -> (r: u64)
    ensures
        r == spec_op_cost(base as int, per_byte as int, key_len as int, load as int),
{
    gas_add(gas_add(base, gas_mul(per_byte, key_len)), load)
}

#[derive(Debug, Clone)]
pub struct AddBoxGasParameters {
    pub base: u64,
    pub per_byte_serialized: u64,
}

#[derive(Debug, Clone)]
pub struct BorrowBoxGasParameters {
    pub base: u64,
    pub per_byte_serialized: u64,
}

#[derive(Debug, Clone)]
pub struct ContainsBoxGasParameters {
    pub base: u64,
    pub per_byte_serialized: u64,
}

#[derive(Debug, Clone)]
pub struct RemoveGasParameters {
    pub base: u64,
    pub per_byte_serialized: u64,
}

#[derive(Debug, Clone)]
pub struct DestroyEmptyBoxGasParameters {
    pub base: u64,
}

#[derive(Debug, Clone)]
pub struct DropUncheckedBoxGasParameters {
    pub base: u64,
}

/// One parameter group per operation plus the shared load-cost group.
#[derive(Debug, Clone)]
pub struct GasParameters {
    pub common: CommonGasParameters,
    pub add_box: AddBoxGasParameters,
    pub borrow_box: BorrowBoxGasParameters,
    pub contains_box: ContainsBoxGasParameters,
    pub remove_box: RemoveGasParameters,
    pub destroy_empty_box: DestroyEmptyBoxGasParameters,
    pub drop_unchecked_box: DropUncheckedBoxGasParameters,
}

impl GasParameters {
    /// Whether every configured charge is zero.
    pub open spec fn all_zero(&self) -> bool {
        &&& self.common.load_base == 0
        &&& self.common.load_per_byte == 0
        &&& self.common.load_failure == 0
        &&& self.add_box.base == 0
        &&& self.add_box.per_byte_serialized == 0
        &&& self.borrow_box.base == 0
        &&& self.borrow_box.per_byte_serialized == 0
        &&& self.contains_box.base == 0
        &&& self.contains_box.per_byte_serialized == 0
        &&& self.remove_box.base == 0
        &&& self.remove_box.per_byte_serialized == 0
        &&& self.destroy_empty_box.base == 0
        &&& self.drop_unchecked_box.base == 0
    }

    /// The all-zero configuration, under which every operation charges
    /// nothing; intended for deterministic testing.
    pub fn zeros() -> (r: Self)
        ensures
            r.all_zero(),
    {
        Self {
            common: CommonGasParameters { load_base: 0, load_per_byte: 0, load_failure: 0 },
            add_box: AddBoxGasParameters { base: 0, per_byte_serialized: 0 },
            borrow_box: BorrowBoxGasParameters { base: 0, per_byte_serialized: 0 },
            contains_box: ContainsBoxGasParameters { base: 0, per_byte_serialized: 0 },
            remove_box: RemoveGasParameters { base: 0, per_byte_serialized: 0 },
            destroy_empty_box: DestroyEmptyBoxGasParameters { base: 0 },
            drop_unchecked_box: DropUncheckedBoxGasParameters { base: 0 },
        }
    }
}

} // verus!
