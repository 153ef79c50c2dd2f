//! The library's maintenance logic: librarian definitions and topic
//! routing, and the circulation desk's job decisions.

pub mod librarian_def;
pub mod librarian;
pub mod circulation;
pub mod registry;
pub mod library;
pub mod services;
