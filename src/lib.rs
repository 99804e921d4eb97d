//! Build-script protocol: encodes build directives as single text lines and
//! reads the values that the build orchestrator places in the environment.

mod cargo;
mod directive;
mod env;
mod laws;
mod rustc;
mod sink;

pub use cargo::{BuildPath, Cargo, EnvKey, EnvValue, ValueKind};
pub use directive::{Directive, LinkSearchKind, LinkTarget};
pub use env::{Environment, LookupError};
pub use laws::{
    law_binary_key_is_exact, law_cfg_quoting, law_directive_is_one_line, law_link_search_prefixes,
    law_presence_not_value, law_primary_marker_presence,
};
pub use rustc::Rustc;
pub use sink::DirectiveLog;
