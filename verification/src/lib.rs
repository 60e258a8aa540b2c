//! The control-loop core of a small operator: it watches one collection of a
//! custom resource and hands every observed change to application logic.
//!
//! The crate holds the decisions only. A driver opens the watch session,
//! reads from it, sleeps and calls the application's handler; after each of
//! these it tells the [`informer::Informer`] what happened and is told what to
//! do next.

pub mod resource;
pub mod event;
pub mod queue;
pub mod retry;
pub mod informer;
pub mod laws;
pub mod report;
pub mod collection;
pub mod wire;
