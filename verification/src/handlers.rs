//! What the endpoints of the server decide. The endpoints themselves, which
//! take requests and write responses, are kept by the boundary.

pub mod download;
pub mod enhanced_test;
pub mod health;
pub mod servers;
pub mod test;
