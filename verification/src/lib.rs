//! Menu service of the system administration back end: query descriptions,
//! record construction and the menu tree, with their contracts.

pub mod error;
pub mod menu;
pub mod outside;
pub mod query;
pub mod record;
pub mod service;
pub mod text;
pub mod tree;
