//! A small todo-tracking library: the record model, a patch merge, offset/limit
//! pagination, an in-memory backing store with autoincrementing ids, and the
//! repository that mediates every read and write of todo records.

pub mod cli;
pub mod command;
pub mod pagination;
pub mod store;
pub mod todo;
