//! Measurement and scoring of an internet connection: latency statistics
//! under load, bufferbloat grading, throughput, and use-case quality scores.

pub mod config;
pub mod fixed;
pub mod handlers;
pub mod models;
pub mod services;
pub mod stats;
pub mod text;
