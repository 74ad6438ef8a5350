//! Build-plan decisions for Node.js projects: runtime version, package
//! manager, install/build/start commands, caches and system packages.
pub mod laws;
pub mod model;
pub mod plan;
pub mod provider;
pub mod text;
pub mod version;
