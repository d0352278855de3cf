//! Capture, batch and upload pipeline for an unattended screen recorder.
//!
//! The library holds the decisions of the pipeline: where a recording landed,
//! when clips form a batch, how a batch moves through join, upload with
//! bounded retries, registration and cleanup, and the text handed to the
//! outside tools. The program around it performs the process spawns, file
//! and network work, and feeds the results back in.
pub mod buffer;
pub mod job;
pub mod muxer;
pub mod process;
pub mod provision;
pub mod recorder;
pub mod report;
pub mod search;
pub mod text;
pub mod upload;
