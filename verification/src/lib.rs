//! Orchestration core for acquiring a container's root filesystem inside a
//! confidential-computing guest agent.
//!
//! The library decides; a thin unverified driver performs. It resolves a
//! filesystem-safe container id, classifies the request (pause image vs.
//! registry image), brings a decryption side-service up at most once per
//! process, selects between two mutually exclusive pull backends, sequences
//! the copy/unpack/cleanup steps of a pull as an explicit state machine, and
//! records the outcome in a shared image registry. Every subprocess argument
//! vector, path, and configuration value handed to the outside world is
//! produced here with a proved contract.

pub mod commands;
pub mod errors;
pub mod ident;
pub mod orchestrator;
pub mod paths;
pub mod registry;
pub mod sideservice;
pub mod strutil;
