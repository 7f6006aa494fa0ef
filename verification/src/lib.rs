//! Control-plane core of a data-serving runtime.
//!
//! The crate turns a declarative snapshot of datasets and models into
//! load, update and remove decisions, drives each dataset through a
//! retrying multi-step load pipeline, tracks per-entity lifecycle
//! status, and picks the attachment strategy (view, pass-through,
//! accelerated copy, write replication) for every dataset.  All
//! decisions are pure functions with proved contracts; the query
//! engine, connector registry, secret backends and servers are
//! collaborators that an embedding binary drives from the returned
//! actions.

pub mod attach;
pub mod component;
pub mod connector;
pub mod depends;
pub mod engine;
pub mod error;
pub mod pipeline;
pub mod reconcile;
pub mod registry;
pub mod runtime;
pub mod secrets;
pub mod status;
