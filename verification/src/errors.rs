//! The failure kinds surfaced by the extension machinery, together with the
//! propagation policy each one obeys.

use vstd::prelude::*;

verus! {

/// A failure raised by the extension-side machinery.
///
/// Every variant carries what a diagnostic line needs: the offending field,
/// the colliding registration key, or the reported reason.
#[derive(Debug, PartialEq, Eq)]
pub enum ExtensionError {
    /// A supplied configuration field is unknown to the plugin's schema, or a
    /// required field with no declared default is absent; holds the name of
    /// the offending field.
    ConfigInvalid(String),
    /// A `(namespace, name)` pair was registered a second time; holds the
    /// colliding namespace and name.
    DuplicateRegistration(String, String),
    /// A plugin's fallible construction reported failure; holds the reason.
    /// The failure is not retried here: retry policy belongs to the caller.
    ConstructionFailed(String),
    /// The startup pre-flight check failed; the host's main loop must never
    /// begin. Holds the reason.
    PreconditionFailed(String),
    /// A teardown hook reported a failure; recorded only, never fatal,
    /// because shutdown must proceed regardless.
    TeardownFailed(String),
}

impl ExtensionError {
    /// Whether this failure aborts startup (all kinds but a teardown
    /// failure, which is swallowed after being recorded).
    pub fn is_fatal(&self) -> (fatal: bool)
        ensures
            fatal == !(self is TeardownFailed),
    {
        match self {
            ExtensionError::TeardownFailed(_) => false,
            _ => true,
        }
    }
}

} // verus!
