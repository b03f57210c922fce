//! Value objects for users, profiles and articles.

pub mod article;
pub mod user;
