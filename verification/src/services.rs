//! The services of a measurement session.

pub mod ai_insights;
pub mod aim_scoring;
pub mod binary_protocol;
pub mod consistency;
pub mod database;
pub mod loaded_latency;
pub mod measurement;
pub mod packet_loss;
pub mod real_measurement;
pub mod session;
