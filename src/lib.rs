//! A minimal container runtime's logic: the filesystem layout and image resolution,
//! the cgroup rules, the registry pull protocol, and the container lifecycle. Every
//! decision is made here; the caller performs the I/O that each one asks for.

pub mod cgroup;
pub mod container;
pub mod images;
pub mod layout;
pub mod pull;
pub mod registry;
pub mod text;
