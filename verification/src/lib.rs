//! Order bookkeeping over a single relational table.
//!
//! The crate holds the resource access layer of an order service: the
//! entity, the paging arithmetic, the statements sent to the store, and the
//! decisions each operation takes between one answer and the next. Talking
//! to a pool or a database is left to the caller, who performs each
//! [`repository::Step`] and hands the answer back.
//!
//! * [`model`], [`error`]: the order, its inputs, a page, and the ways an
//!   operation can fail.
//! * [`pagination`]: from page number and page size to offset and
//!   "more follows".
//! * [`ident`]: minting identifiers.
//! * [`store`], [`placeholders`]: the statements, their bound values and
//!   their texts.
//! * [`repository`]: the five operations as conversations.
//! * [`table`], [`session`], [`laws`]: a model of the table, of a store that
//!   keeps it faithfully, and what the repository guarantees against it.
//! * [`memory`]: a table in memory that behaves like that model.
//! * [`status`]: the status a transport reports for each result.

pub mod error;
pub mod ident;
pub mod laws;
pub mod memory;
pub mod model;
pub mod pagination;
pub mod placeholders;
pub mod repository;
pub mod session;
pub mod status;
pub mod store;
pub mod table;
