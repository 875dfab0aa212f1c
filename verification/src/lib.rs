//! The core of a personal expense tracker: stores for users, categories
//! and records of expenses, the rules a record must meet before it is
//! stored, and the failures every operation can report.
//!
//! The stores live in memory and know nothing of the wire or of locks:
//! an adapter wraps each of them in whatever guards it needs, calls the
//! operations below and renders what they answer.
//!
//! - [`users`], [`categories`], [`records`]: the entities, their stores
//!   and the answers to the routes of each resource.
//! - [`database`]: the table the stores keep their rows in.
//! - [`error`], [`status`]: the failures and the status codes.
//! - [`storage`]: what the answers of an outside storage mean.
//! - [`amount`], [`clock`], [`identity`]: sums of money, creation times
//!   and fresh identifiers.
//! - [`health`]: the health report.

pub mod amount;
pub mod categories;
pub mod clock;
pub mod database;
pub mod error;
pub mod health;
pub mod identity;
pub mod records;
pub mod status;
pub mod storage;
pub mod users;
