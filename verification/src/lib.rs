//! Core logic of a sysroot-cache manager for cross compilation: deriving the
//! on-disk location of a per-target-triple sysroot cache, coordinating
//! shared/exclusive advisory locks on it, resolving a layered project
//! configuration document, and planning the external build invocation.

pub mod config;
pub mod errors;
pub mod home;
pub mod invoke;
pub mod locks;
pub mod paths;
pub mod resolver;
