//! Confined-application launcher core: the logic that plans a sandboxed
//! launch (bind mounts, capabilities, descriptor layout), resolves delegated
//! sub-id ranges, and drives the multi-process synchronization protocol
//! between the launcher, an optional bus filter proxy, the sandbox-creation
//! executable, and the privileged identity-mapping helpers.

pub mod bus;
pub mod config;
pub mod decimal;
pub mod errors;
pub mod fdset;
pub mod idmap;
pub mod plan;
pub mod protocol;
pub mod registry;
pub mod strs;

pub use config::Config;
pub use config::has_true;
pub use errors::LaunchError;
