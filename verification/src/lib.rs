//! A builder of injection-safe queries for a graph-relational query language.
//!
//! A statement is assembled value by value. Every piece of caller data is
//! bound to a placeholder, and the finished statement renders in two ways:
//! parameterized, with the placeholders left in the text and the bound
//! values listed beside it, and raw, with every value written out.
//!
//! The modules, from the leaves up:
//!
//! - [`text`]: decimal numbers and separated lists as text;
//! - [`literal`]: the literal text of values, as the database crate writes
//!   it;
//! - [`value`]: the values that a query can hold;
//! - [`error`]: problems that are recorded while a query is assembled;
//! - [`binding`]: bindings, and the allocator that numbers their
//!   placeholders;
//! - [`fragment`]: query text in pieces, and its two renderings;
//! - [`field`]: fields, parameters and tables;
//! - [`filter`]: conditions;
//! - [`order`]: sort keys, and fields to group by and to split at;
//! - [`select`]: the SELECT statement;
//! - [`clause`]: addressing in the graph;
//! - [`functions`]: calls of the time functions.

pub mod binding;
pub mod clause;
pub mod error;
pub mod field;
pub mod filter;
pub mod fragment;
pub mod functions;
pub mod literal;
pub mod order;
pub mod select;
pub mod text;
pub mod value;
