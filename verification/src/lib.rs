//! Select-field cell codec for a grid (spreadsheet-like) data model.
//!
//! A select-type field (single-select, multi-select or checklist-select)
//! owns an ordered registry of named, colored options.  A cell of such a
//! field persists its current selection as a single comma-joined string of
//! option ids.  This crate provides, with machine-checked contracts:
//! the option registry operations (insert, delete, create), the codec that
//! decodes a persisted cell string against a registry into a structured
//! view, and the changeset applier that turns an instruction (insert
//! and/or delete of one option id) plus the previous persisted string into
//! the next persisted string.

pub mod cell_data;
pub mod changeset;
pub mod checklist_select;
pub mod dispatch;
pub mod errors;
pub mod field_type;
pub mod ids;
pub mod multi_select;
pub mod operation;
pub mod payload;
pub mod registry;
pub mod select_option;
pub mod single_select;
