//! A small joke directory: three fixed records, looked up by id or listed in
//! full, and the replies a web front end sends for them.

pub mod arith;
pub mod directory;
pub mod joke;
pub mod json;
pub mod reply;
pub mod service;
