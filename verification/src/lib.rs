//! Resumable ingestion of compressed archives of forum submissions and
//! comments: tolerant record decoding, checkpointed progress, allow-list
//! routing, schema reconciliation and an idempotent insert layer.
//!
//! The modules here hold the decision logic of the pipeline; process
//! orchestration (subprocesses, channels, the database round trips) lives
//! with the embedding application, which calls into these verified parts
//! with plain values.

pub mod cfg;
pub mod db_comments;
pub mod db_object;
pub mod db_submission;
pub mod db_submission_small;
pub mod decode;
pub mod diagnostics;
pub mod engine;
pub mod ingest;
pub mod json;
pub mod numstr;
pub mod progress;
pub mod raw_comment;
pub mod raw_object;
pub mod raw_submission;
pub mod route;
pub mod schema;
pub mod strutil;
