//! Client-side synchronization of a remote task list: mutation dispatchers
//! with version counters, a collection resource that refetches on version
//! changes and keeps only the newest fetch, and an optimistic overlay of
//! creates that have not settled yet.
pub mod record;
pub mod dispatcher;
pub mod overlay;
pub mod resource;
pub mod todos;
