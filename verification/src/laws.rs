//! What holds of the device as a whole: how its operations relate to each other,
//! and what each of them preserves.
pub mod functions;
pub mod outside;
pub mod queues;
pub mod requests;
pub mod service;
pub mod tables;
pub mod transport;
pub mod wire;
pub mod worker;
