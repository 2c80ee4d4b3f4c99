//! Application-level configuration and its resolution into a native one.

use vstd::prelude::*;
use crate::error::Error;
use crate::native::{create_config, set_argv, PyConfig};

verus! {

/// Application-level interpreter-embedding configuration. The placeholder
/// option stands in for the full option surface: it records whether the
/// user customized the configuration at all.
#[derive(Debug)]
pub struct OxidizedPythonInterpreterConfig {
    pub placeholder: Option<()>,
}

/// An application-level configuration once resolution has begun: immutable
/// and owned by the caller.
#[derive(Debug)]
pub struct ResolvedOxidizedPythonInterpreterConfig {
    pub(crate) inner: OxidizedPythonInterpreterConfig,
}

impl ResolvedOxidizedPythonInterpreterConfig {
    /// Whether the user set the placeholder option.
    pub closed spec fn placeholder_set(self) -> bool {
        self.inner.placeholder is Some
    }

    /// Wraps an application-level configuration for resolution.
    pub fn new(inner: OxidizedPythonInterpreterConfig) -> (r:
        ResolvedOxidizedPythonInterpreterConfig)
        ensures
            r.placeholder_set() == (inner.placeholder is Some),
    {
        ResolvedOxidizedPythonInterpreterConfig { inner }
    }

    /// Resolves the application-level configuration into a ready-to-use
    /// native configuration: obtains a fresh isolated-mode configuration,
    /// installs the minimal argument vector — a single empty placeholder
    /// argument — and requires the placeholder option to be unset.
    ///
    /// With the placeholder option unset the result is the resolved
    /// default configuration ([`PyConfig::is_resolved_default`]): the
    /// isolated-mode preset with exactly one argv entry, the empty string.
    /// With the placeholder option set, no translation of the option into
    /// native fields exists yet and resolution fails with
    /// [`Error::UnsupportedOptionError`].
    pub fn try_into(&self) -> (r: Result<PyConfig, Error>)
        ensures
            r is Ok <==> !self.placeholder_set(),
            r matches Ok(c) ==> c.is_resolved_default() && c.wf(),
            r is Err ==> (r matches Err(e) && e matches Error::UnsupportedOptionError),
    {
        let mut config: PyConfig = match create_config() {
            Ok(config) => config,
            Err(e) => {
                return Err(e);
            },
        };

        let args: Vec<Vec<u8>> = vec![Vec::new()];
        match set_argv(&mut config, &args) {
            Ok(()) => {},
            Err(e) => {
                return Err(e);
            },
        }

        if self.inner.placeholder.is_some() {
            return Err(Error::UnsupportedOptionError);
        }

        proof {
            assert(args@.map_values(|a: Vec<u8>| a@) =~= seq![Seq::<u8>::empty()]);
        }
        Ok(config)
    }
}

} // verus!
