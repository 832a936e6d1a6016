//! Functions: their names, deployments, instances and what they ask of the host.
pub mod abi;
pub mod deployment;
pub mod id;
pub mod instance;
pub mod memory;
pub mod resource;
