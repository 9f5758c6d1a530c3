//! Decision core of an auto splitter: it turns sampled process memory into
//! the three timer decisions `start`, `split` and `reset`.

pub mod cells;
pub mod decision;
pub mod engine;
pub mod layout;
pub mod path;
pub mod resolver;
pub mod settings;
pub mod signature;
pub mod tier;
pub mod watcher;
