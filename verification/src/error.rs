//! The adapter's error taxonomy.
//!
//! Every failure of an invocation surfaces as one of these variants,
//! carrying the diagnostic of the failing stage. A guest trap is not an
//! adapter-level error: it is reported as a failed exit status instead
//! (see the invocation state machine).

use vstd::prelude::*;

verus! {

/// One adapter-level failure, with the underlying diagnostic.
#[derive(Debug, Clone, PartialEq, Eq)]
pub enum EngineError {
    /// A required host-context field was absent or malformed.
    ConfigError(String),
    /// The supplied bytes are not a well-formed module.
    LoadError(String),
    /// Allocating the per-invocation execution environment failed.
    ResourceError(String),
    /// The requested export is absent or has an incompatible signature.
    LookupError(String),
    /// Binding the guest stdio channels to the host streams failed.
    IOError(String),
}

} // verus!
