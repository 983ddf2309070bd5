//! Core logic of a community game-key catalog bot: a time-boxed refresh
//! cache for autocomplete snapshots, an interactive paginator for browsing
//! query results, and the pure record-building and formatting steps of the
//! command handlers. Storage and the chat platform are collaborators that
//! hand plain values in and take plain values back.

pub mod cache;
pub mod game_cmds;
pub mod gamekey_cmds;
pub mod keylist_cmds;
pub mod links;
pub mod paginate;
pub mod records;
pub mod statistic;
pub mod steam;
pub mod text;
