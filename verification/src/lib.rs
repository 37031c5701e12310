//! A virtio-iommu device.
//!
//! The guest groups endpoints, which are devices that access its memory, into
//! domains, and gives each domain mappings from virtual to physical addresses.
//! The device keeps them in its translation tables, through which the accesses
//! of the endpoints go.
//!
//! - `byte_order`: integers in memory;
//! - `protocol`: the wire format of requests and of the configuration space;
//! - `mapping`: the translation tables;
//! - `external`: devices with translation hardware of their own;
//! - `memory`: access to guest memory;
//! - `request`: what a request is, and what it does;
//! - `handler`: how the request queue is served;
//! - `event_loop`: the decisions of the thread that serves the queues;
//! - `device`: features, configuration space and reset;
//! - `activation`: the decisions of an activation;
//! - `error`: what can go wrong;
//! - `laws`: what holds of all of these together.
pub mod activation;
pub mod byte_order;
pub mod device;
pub mod error;
pub mod event_loop;
pub mod external;
pub mod handler;
pub mod laws;
pub mod mapping;
pub mod memory;
pub mod protocol;
pub mod request;
