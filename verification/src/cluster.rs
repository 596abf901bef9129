//! Watching the agents of a cluster from outside.
pub mod agents_stream_watcher;
pub mod assert_slots_total_at_least;
