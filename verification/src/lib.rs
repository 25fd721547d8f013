//! Declarations of mutually exclusive extras and dependency groups.
//!
//! A [`Conflicts`] value lists sets of extras and groups of packages that may
//! not be enabled together, so that a resolver can treat each alternative on
//! its own. This crate holds the data model and its rules, and nothing that
//! interprets them:
//!
//! - a [`ConflictItem`] is a package with one of its extras or groups;
//! - a [`ConflictSet`] holds two or more items, in order;
//! - [`Conflicts`] is a list of sets, possibly empty;
//! - [`ConflictItemWire`] is the flat record in which an item is stored, with
//!   every field optional, and the conversions out of it decide what counts
//!   as an item;
//! - the schema types are the same declaration as a user writes it, where an
//!   item may leave its package out, and
//!   [`SchemaConflicts::to_conflicts_with_package_name`] fills it in.
//!
//! Contracts speak of a value through its view (`@`): the texts of the names
//! it holds.

pub mod conflicts;
pub mod error;
pub mod item;
pub mod kind;
pub mod names;
pub mod schema;
pub mod set;
pub mod wire;

pub use conflicts::{any_set_holds, Conflicts};
pub use error::{error_text, ConflictError};
pub use item::{item_order, ConflictItem, ConflictItemRef, ItemView};
pub use kind::{kind_order, ConflictKind, ConflictKindRef, KindView};
pub use names::{extra_name_text, group_name_text, package_name_text, text_order};
pub use schema::{
    package_field_order, resolve_conflicts, resolve_item, resolve_set,
    schema_conflicts_from_wire, schema_conflicts_to_wire, schema_item_from_wire,
    schema_item_order, schema_item_to_wire, schema_set_from_wire, schema_set_to_wire,
    SchemaConflictItem, SchemaConflictSet, SchemaConflicts, SchemaItemView,
};
pub use set::{length_error, ConflictSet};
pub use wire::{
    conflicts_from_wire, conflicts_to_wire, convert_each, item_from_wire, item_to_wire,
    kind_from_wire, kind_to_wire, set_from_wire, set_to_wire, ConflictItemWire, WireView,
};
