//! Core engine of a video-clipping backend: it assembles invocations of an
//! external encoder binary, parses the encoder's machine-readable progress
//! telemetry into structured records, and carries the pure decision logic of
//! the surrounding process supervision.
//!
//! Everything here is executable code with verified contracts; the thin layer
//! that actually touches the filesystem and spawns processes lives outside
//! this crate and hands plain values in and out.

pub mod builder;
pub mod cleaning;
pub mod config;
pub mod decimal;
pub mod factory;
pub mod formats;
pub mod gst;
pub mod hashing;
pub mod media;
pub mod progress;
pub mod strategy;
pub mod text;
pub mod version;
