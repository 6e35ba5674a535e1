//! The value cell: one cached slot for a single key inside a single table.
//!
//! A cell comes into being the first time its key is touched in a session,
//! recording both the value that was persisted before the session (if any)
//! and the value currently staged. At session end [`ValueCell::into_effect`]
//! distills the pair into at most one effect; a value created and removed
//! within the same session cancels out and yields none.

use vstd::prelude::*;

use crate::bytes::{bytes_equal, copy_bytes};
use crate::errors::OpError;

verus! {

/// One typed entry of a table's effect map.
#[derive(Debug)]
pub enum Effect {
    /// The key held nothing before the session and holds these bytes now.
    Insert(Vec<u8>),
    /// The key held a persisted value and now holds these different bytes.
    Update(Vec<u8>),
    /// The key held a persisted value and holds nothing now.
    Delete,
}

/// The mathematical form of an effect.
pub enum EffectModel {
    Insert(Seq<u8>),
    Update(Seq<u8>),
    Delete,
}

impl View for Effect {
    type V = EffectModel;

    open spec fn view(&self) -> EffectModel {
        match *self {
            Effect::Insert(v) => EffectModel::Insert(v@),
            Effect::Update(v) => EffectModel::Update(v@),
            Effect::Delete => EffectModel::Delete,
        }
    }
}

/// The mathematical form of a value cell: the bytes persisted for its key
/// before the session began, and the bytes staged for it now.
pub struct CellModel {
    pub original: Option<Seq<u8>>,
    pub current: Option<Seq<u8>>,
}

/// The effect a cell contributes at session end: none when the final state
/// equals the originating state, otherwise an insert, update or delete.
pub open spec fn cell_effect(c: CellModel) -> Option<EffectModel> {
    match (c.original, c.current) {
        (Option::None, Option::None) => Option::None,
        (Option::None, Option::Some(v)) => Option::Some(EffectModel::Insert(v)),
        (Option::Some(_), Option::None) => Option::Some(EffectModel::Delete),
        (Option::Some(o), Option::Some(v)) => if v == o {
            Option::None
        } else {
            Option::Some(EffectModel::Update(v))
        },
    }
}

/// The byte sequence held by an optional byte vector.
pub open spec fn opt_bytes_model(o: Option<Vec<u8>>) -> Option<Seq<u8>> {
    match o {
        Option::Some(v) => Option::Some(v@),
        Option::None => Option::None,
    }
}

/// A cached slot for one (handle, key) pair.
pub struct ValueCell {
    original: Option<Vec<u8>>,
    current: Option<Vec<u8>>,
}

impl View for ValueCell {
    type V = CellModel;

    closed spec fn view(&self) -> CellModel {
        CellModel { original: opt_bytes_model(self.original), current: opt_bytes_model(self.current) }
    }
}

impl ValueCell {
    /// A cell for a key whose value the resolver just fetched: the bytes are
    /// both the originating and the current state.
    pub fn cached(bytes: Vec<u8>) -> (r: Self)
        ensures
            r@.original == Option::Some(bytes@),
            r@.current == Option::Some(bytes@),
    {
        let copy = copy_bytes(&bytes);
        ValueCell { original: Option::Some(copy), current: Option::Some(bytes) }
    }

    /// A cell for a key the resolver just confirmed absent.
    pub fn vacant() -> (r: Self)
        ensures
            r@.original is None,
            r@.current is None,
    {
        ValueCell { original: Option::None, current: Option::None }
    }

    /// Whether the cell currently stages a value.
    pub fn is_present(&self) -> (r: bool)
        ensures
            r <==> self@.current is Some,
    {
        self.current.is_some()
    }

    /// Stages `value` under the key, failing with `AlreadyExists`, and
    /// leaving the cell unchanged, when a value is already staged.
    pub fn move_to(&mut self, value: Vec<u8>) -> (r: Result<(), OpError>)
        ensures
            final(self)@.original == old(self)@.original,
            old(self)@.current is Some ==> {
                &&& r == Result::<(), OpError>::Err(OpError::AlreadyExists)
                &&& final(self)@.current == old(self)@.current
            },
            old(self)@.current is None ==> {
                &&& r == Result::<(), OpError>::Ok(())
                &&& final(self)@.current == Option::Some(value@)
            },
    {
        if self.current.is_some() {
            Err(OpError::AlreadyExists)
        } else {
            self.current = Option::Some(value);
            Ok(())
        }
    }

    /// Extracts the staged value, failing with `NotFound`, and leaving the
    /// cell unchanged, when none is staged.
    pub fn move_from(&mut self) -> (r: Result<Vec<u8>, OpError>)
        ensures
            final(self)@.original == old(self)@.original,
            final(self)@.current is None,
            old(self)@.current is None ==> r == Result::<Vec<u8>, OpError>::Err(OpError::NotFound),
            old(self)@.current matches Some(v) ==> (r matches Result::Ok(out) && out@ == v),
    {
        match self.current.take() {
            Option::Some(v) => Ok(v),
            Option::None => Err(OpError::NotFound),
        }
    }

    /// A reference to the staged value.
    pub fn borrow_value(&self) -> (r: &Vec<u8>)
        requires
            self@.current is Some,
        ensures
            Option::Some(r@) == self@.current,
    {
        match &self.current {
            Option::Some(v) => v,
            Option::None => unreached(),
        }
    }

    /// A mutable reference to the staged value; what the caller writes
    /// through it becomes the cell's staged value.
    pub fn borrow_value_mut(&mut self) -> (r: &mut Vec<u8>)
        requires
            old(self)@.current is Some,
        ensures
            Option::Some(r@) == old(self)@.current,
            final(self)@.original == old(self)@.original,
            final(self)@.current == Option::Some(final(r)@),
    {
        match self.current.as_mut() {
            Option::Some(v) => v,
            Option::None => unreached(),
        }
    }

    /// Consumes the cell into the effect it contributes to the change set.
    pub fn into_effect(self) -> (r: Option<Effect>)
        ensures
            (match r {
                Option::Some(e) => cell_effect(self@) == Option::Some(e@),
                Option::None => cell_effect(self@) is None,
            }),
    {
        match (self.original, self.current) {
            (Option::None, Option::None) => Option::None,
            (Option::None, Option::Some(v)) => Option::Some(Effect::Insert(v)),
            (Option::Some(_), Option::None) => Option::Some(Effect::Delete),
            (Option::Some(o), Option::Some(v)) => {
                if bytes_equal(o.as_slice(), v.as_slice()) {
                    Option::None
                } else {
                    Option::Some(Effect::Update(v))
                }
            },
        }
    }
}

} // verus!
