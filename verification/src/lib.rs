//! An in-memory key-value staging layer for table operations executed inside
//! one transaction session.
//!
//! Tables are addressed by an opaque [`handle::TableHandle`]. During a session
//! every read is served from a lazily populated cache fed by an external
//! [`resolver::TableResolver`], every write is buffered, and at session end
//! the accumulated mutations are distilled into a minimal typed diff, the
//! [`changeset::TableChangeSet`].

pub mod bytes;
pub mod cell;
pub mod changeset;
pub mod context;
pub mod dispatch;
pub mod errors;
pub mod gas;
pub mod handle;
pub mod kvmap;
pub mod laws;
pub mod ops;
pub mod paths;
pub mod registry;
pub mod resolver;
pub mod table;
