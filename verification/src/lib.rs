//! Incremental synchronisation of a syndication feed to a social-posting
//! endpoint.
//!
//! A run takes a lease so that runs do not overlap, fetches the feed,
//! compares it with the watermark left by the last run, posts the items
//! that are new, oldest first, moves the watermark and releases the lease.
//! The library decides; it leaves the store, the network and the scheduler
//! to its caller.
//!
//! - [`timestamp`]: the instants of the feed and of the store.
//! - [`lease`]: when a lease is honoured and when it is taken over.
//! - [`feed`]: from the bytes of a document to a dated snapshot.
//! - [`selection`]: which items are new, and in which order they go out.
//! - [`reconcile`]: the plan of a run for a snapshot under a watermark.
//! - [`publish`]: the request for one item, and the reading of the answer.
//! - [`run`]: the state machine of one run.
//! - [`store`]: the two records of the store and what a run does to them.
//! - [`trace`]: what holds of whole runs.

pub mod feed;
pub mod lease;
pub mod publish;
pub mod reconcile;
pub mod run;
pub mod selection;
pub mod store;
pub mod timestamp;
pub mod trace;
