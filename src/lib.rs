//! A queued coordinator in front of a remote object store, and the catalog of
//! well-known PostgreSQL types.
//!
//! `queue` holds the coordinator's decisions: which operation a worker runs,
//! when a download is enqueued, how uploads and downloads are checked, which
//! result a waiting caller takes, and which cached files the reconciler removes.
//! `path_set` is the set of paths those decisions keep; `pg_type` the catalog;
//! `text` the string helpers they share.

pub mod path_set;
pub mod pg_type;
pub mod queue;
pub mod text;
