//! The resolver capability: the session's window onto the persistent store.

use vstd::prelude::*;

use crate::handle::TableHandle;

verus! {

/// The error type with which a resolver reports a backend failure.
#[verifier::external_type_specification]
#[verifier::external_body]
pub struct ExAnyhowError(anyhow::Error);

/// A table resolver, provided by the environment for the lifetime of one
/// session. It looks up the bytes persisted for a key in remote storage:
/// `Ok(Some(bytes))` when a value is persisted, `Ok(None)` when none is, and
/// `Err` on a backend failure, which aborts the session.
///
/// Nothing is assumed of an implementation; every operation of the staging
/// layer states what holds of the cache whatever a call of this returns.
pub trait TableResolver {
    fn resolve_table_entry(&self, handle: &TableHandle, key: &[u8]) -> Result<
        Option<Vec<u8>>,
        anyhow::Error,
    >;
}

/// Relies on `core::fmt::Display` for `anyhow::Error` to render a backend
/// failure into the message carried by the session-aborting fault.
#[verifier::external_body]
pub(crate) fn resolver_failure_message(err: &anyhow::Error) -> String {
    format!("remote table resolver failure: {}", err)
}

} // verus!
