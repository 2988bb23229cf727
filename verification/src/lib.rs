//! Server-side listing core for a multi-module content site: filter
//! specifications, parameterized SQL generation with bound values, listing
//! semantics over a table snapshot, list/pager view models, and the small
//! lookup tables and input checks that the site's modules share.

pub mod book;
pub mod comment;
pub mod config;
pub mod db;
pub mod error;
pub mod hu;
pub mod image;
pub mod md;
pub mod list;
pub mod message;
pub mod query;
pub mod render;
pub mod store;
pub mod text;
pub mod user;
pub mod widget;
pub mod xi;
