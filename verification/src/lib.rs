//! Core of a blog-style content API: tiered request authorization built on
//! signed, time-limited bearer credentials, and a generic windowed pager
//! that returns a bounded page of rows together with the total row count
//! of the unbounded query.
//!
//! The HTTP routing surface and the storage layer are collaborators that
//! live outside this crate; they hand plain values in and take plain
//! values back.

pub mod auth;
pub mod config;
pub mod models;
pub mod pager;
