//! Sources of configuration: what each of them can do, and how one can fail.

use vstd::prelude::*;
use crate::partial::PartialConfig;

verus! {

/// Why a source gave no record. Each variant carries the report of the
/// source that failed.
#[derive(Debug, PartialEq, Eq)]
pub enum ConfigError {
    /// The source is not there, as an optional file may not be. Resolution
    /// goes on as if the source had said nothing.
    SourceUnavailable(String),
    /// The source is there and cannot be read as a configuration. Resolution
    /// stops with this error.
    SourceMalformed(String),
}

impl ConfigError {
    /// Whether resolution has to stop on this error.
    pub open spec fn is_fatal(self) -> bool {
        self is SourceMalformed
    }

    /// Whether resolution has to stop on this error.
    pub fn fatal(&self) -> (fatal: bool)
        ensures
            fatal == self.is_fatal(),
    {
        match self {
            ConfigError::SourceUnavailable(_) => false,
            ConfigError::SourceMalformed(_) => true,
        }
    }
}

impl Clone for ConfigError {
    fn clone(&self) -> (copy: Self)
        ensures
            copy == *self,
    {
        match self {
            ConfigError::SourceUnavailable(report) => ConfigError::SourceUnavailable(
                report.clone(),
            ),
            ConfigError::SourceMalformed(report) => ConfigError::SourceMalformed(report.clone()),
        }
    }
}

/// What every source of configuration can do: the defaults, a file, the
/// environment, the command line. A source may read what it stands for, and
/// changes nothing; as long as that stays the same, it gives the same answer.
pub trait PartialConfigBuilder {
    /// The record of this source, with a slot absent wherever the source says
    /// nothing of the field; or the reason why there is no record. A source
    /// that fails gives no part of a record.
    fn build(self) -> Result<PartialConfig, ConfigError>;
}

} // verus!
