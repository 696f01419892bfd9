//! Configuration of the AtomSpace and the inference engine.

use vstd::prelude::*;

verus! {

/// The text of an optional string.
pub open spec fn opt_text(o: Option<String>) -> Option<Seq<char>> {
    match o {
        Some(s) => Some(s@),
        None => None,
    }
}

/// AtomSpace configuration.
#[derive(Debug)]
pub struct AtomSpaceConfig {
    /// Initial AtomSpace size
    pub initial_size: usize,
    /// Enable persistence
    pub persistence: bool,
    /// Persistence path
    pub persistence_path: Option<String>,
}

impl AtomSpaceConfig {
    /// Two configurations say the same thing.
    pub open spec fn same_as(self, other: AtomSpaceConfig) -> bool {
        &&& self.initial_size == other.initial_size
        &&& self.persistence == other.persistence
        &&& opt_text(self.persistence_path) == opt_text(other.persistence_path)
    }
}

impl Default for AtomSpaceConfig {
    /// Room for 1000 atoms, no persistence.
    fn default() -> (c: AtomSpaceConfig)
        ensures
            c.initial_size == 1000,
            !c.persistence,
            c.persistence_path is None,
    {
        AtomSpaceConfig { initial_size: 1000, persistence: false, persistence_path: None }
    }
}

impl Clone for AtomSpaceConfig {
    fn clone(&self) -> (c: AtomSpaceConfig)
        ensures
            c.same_as(*self),
    {
        let persistence_path = match &self.persistence_path {
            Some(p) => Some(p.clone()),
            None => None,
        };
        AtomSpaceConfig {
            initial_size: self.initial_size,
            persistence: self.persistence,
            persistence_path,
        }
    }
}

/// Inference engine configuration.
#[derive(Debug, Clone, Copy, PartialEq, Eq, Structural)]
pub struct InferenceConfig {
    /// Maximum inference steps
    pub max_steps: usize,
    /// Timeout for inference operations (in milliseconds)
    pub timeout_ms: u64,
    /// Enable pattern matching optimization
    pub optimize_patterns: bool,
}

impl Default for InferenceConfig {
    /// At most 1000 steps, a five-second timeout, optimised patterns.
    fn default() -> (c: InferenceConfig)
        ensures
            c.max_steps == 1000,
            c.timeout_ms == 5000,
            c.optimize_patterns,
    {
        InferenceConfig { max_steps: 1000, timeout_ms: 5000, optimize_patterns: true }
    }
}

/// OpenCog configuration options.
#[derive(Debug)]
pub struct OpenCogConfig {
    /// Enable OpenCog inference engine
    pub enabled: bool,
    /// AtomSpace backend configuration
    pub atomspace: AtomSpaceConfig,
    /// Inference engine settings
    pub inference: InferenceConfig,
}

impl Default for OpenCogConfig {
    /// Disabled, with the default AtomSpace and inference settings.
    fn default() -> (c: OpenCogConfig)
        ensures
            !c.enabled,
            c.atomspace.initial_size == 1000,
            !c.atomspace.persistence,
            c.atomspace.persistence_path is None,
            c.inference.max_steps == 1000,
            c.inference.timeout_ms == 5000,
            c.inference.optimize_patterns,
    {
        OpenCogConfig {
            enabled: false,
            atomspace: AtomSpaceConfig::default(),
            inference: InferenceConfig::default(),
        }
    }
}

impl Clone for OpenCogConfig {
    fn clone(&self) -> (c: OpenCogConfig)
        ensures
            c.enabled == self.enabled,
            c.atomspace.same_as(self.atomspace),
            c.inference == self.inference,
    {
        OpenCogConfig {
            enabled: self.enabled,
            atomspace: self.atomspace.clone(),
            inference: self.inference,
        }
    }
}

} // verus!
