//! Column-metadata registry for the card/note browser tables, plus the
//! encoding of computed rows into the wire shape the frontend consumes.
//!
//! The crate covers: the closed enumeration of displayable columns with their
//! stable string keys, derivation of per-column display descriptors from an
//! injected localization provider, assembly of the per-entity column lists
//! sorted by localized label, parsing of persisted column-key lists, and the
//! structural reshape of computed rows into wire rows.

pub mod column;
pub mod i18n;
pub mod order;
pub mod registry;
pub mod row;
