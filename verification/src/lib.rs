//! A to-do list: short texts with a completion flag, kept in one table and
//! shown as HTML.
//!
//! - [`item`]: the to-do item.
//! - [`template`]: the page, the row of one item and the error fragment.
//! - [`handler`]: what each request is answered with, given what the table
//!   gave back.
//! - [`error`]: what can go wrong between the application and its table.
//! - [`table`]: the table held in memory, with its four operations.
//! - [`service`]: the application over the table in memory, and what holds
//!   of it.
//! - [`schema`]: table definitions as plain values.
//! - [`statement`]: `CREATE TABLE` and `DROP TABLE` statements built from
//!   them.
//! - [`migration`]: the migration that creates the table.

pub mod error;
pub mod handler;
pub mod item;
pub mod migration;
pub mod schema;
pub mod service;
pub mod statement;
pub mod table;
pub mod template;
