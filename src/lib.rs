//! Validation and projection of the supervisor's `start` command line: the
//! option schema of the command, the checks that gate option values, and the
//! rules that turn the values given into the startup parameter set.
pub mod text;
pub mod addr;
pub mod service_group;
pub mod service;
pub mod validate;
pub mod schema;
pub mod params;
