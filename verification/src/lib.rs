//! Semantic queries over an immutable JSX syntax tree.
//!
//! A linter asks small questions of the elements it visits: is this
//! attribute there, can a later spread override it, is this element a
//! component or a native tag, can assistive technology reach this content.
//! This crate answers them over a tree that a parser has built, and states
//! each answer as a contract that is proved of the code.
//!
//! - [`kind`], [`tree`] and [`syntax`] hold the tree itself: the kinds of its
//!   entries, the builder that checks a tree while it is put together, and the
//!   read-only views on a finished tree.
//! - [`nodes`] is the typed layer: one view per kind of node, and the unions
//!   over the shapes that can stand in one place.
//! - [`static_value`] reads constants off literal expressions.
//! - [`attributes`], [`element`] and [`accessibility`] are the queries.
//! - [`rule`] is the contract between a lint rule and the driver that runs it.
//! - [`text`] holds source ranges and the string operations the rest relies on.
pub mod accessibility;
pub mod attributes;
pub mod element;
pub mod kind;
pub mod nodes;
pub mod rule;
pub mod static_value;
pub mod syntax;
pub mod text;
pub mod tree;
