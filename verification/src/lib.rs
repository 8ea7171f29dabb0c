//! Turns a directory of text files, images and PDFs into one length-controlled
//! summary request: file classification, per-file extraction requests,
//! aggregation with word accounting, target-length planning and prompt
//! construction, each with a machine-checked contract.

pub mod api;
pub mod classify;
pub mod config;
pub mod logger;
pub mod messages;
pub mod order;
pub mod scanner;
pub mod summary;
pub mod text;
