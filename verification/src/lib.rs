//! What a cargo build script needs to know and to say: the variables cargo
//! sets for it, the platform triples among them, and the lines by which it
//! answers cargo.
//!
//! Nothing here reads the process environment or writes to standard output.
//! A script hands in an [`Environment`] and writes out the lines it gets
//! back.

pub mod directive;
pub mod environment;
pub mod error;
pub mod target;
pub mod text;

pub use directive::{add_link_lib, add_link_libs, rerun_if_changed, rerun_if_env_changed, warning};
pub use environment::{
    build_release, crate_directory, env_var, host, output_directory, target, Environment,
};
pub use error::BuildError;
pub use target::{parse_target, Target};
