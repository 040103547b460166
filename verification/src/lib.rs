//! Verified rules of a local model platform: the legacy profile store and
//! the model registry, task routing with its privacy, lifecycle, capability
//! and benchmark gates, the runtime leases and process decisions of the
//! model server manager, endpoint privacy, transport limits, and the
//! preparation and reading of model inputs and outputs.
pub mod text;
pub mod seqs;
pub mod errors;
pub mod domain;
pub mod fingerprint;
pub mod platform;
pub mod router;
pub mod runtime;
pub mod runtime_service;
pub mod page_window;
pub mod config;
pub mod geometry;
pub mod model_text;
pub mod migration;
pub mod input_image;
pub mod process_status;
pub mod process_identity;
pub mod runtime_table;
pub mod lease;
pub mod server_control;
pub mod model_step;
pub mod endpoint_privacy;
pub mod gateway_transport;
pub mod benchmark;
pub mod capability_probe;
pub mod json;
pub mod model_reply;
pub mod ocr_reply;
pub mod rubric_reply;
pub mod speaking_reply;
pub mod scoring_reply;
