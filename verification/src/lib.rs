//! Verified core of a document store kept in TiKV: how keys are namespaced per
//! project, how stored bytes become documents, how batch answers are shaped, and
//! when a failed write is retried.

pub mod batch;
pub mod client;
pub mod documents;
pub mod error;
pub mod ids;
pub mod json;
pub mod keys;
pub mod settings;
pub mod text;
