//! Layered resolution of a daemon's start-up configuration.
//!
//! The configuration of the daemon comes from several sources: the defaults,
//! a file, the environment, the command line. Each source gives a sparse
//! record, a [`PartialConfig`], in which a field that the source does not
//! mention is absent. The [`ConfigResolver`] merges the records, which stand
//! in order of precedence, into one [`ResolvedConfig`]: each field has the
//! value of the first source that gives it.

pub mod default;
pub mod merge_laws;
pub mod partial;
pub mod resolver;
pub mod slots;
pub mod source;
pub mod timeout;

pub use crate::default::DefaultConfig;
pub use crate::partial::PartialConfig;
pub use crate::resolver::{ConfigResolver, ResolvedConfig};
pub use crate::source::{ConfigError, PartialConfigBuilder};
