//! The error taxonomy of the bridge.
//!
//! Every failure is returned synchronously at the point it is detected;
//! nothing is retried or logged inside the bridge, and all recovery policy
//! belongs to the embedding driver.

use vstd::prelude::*;

verus! {

/// Why an operation of the bridge failed.  Each variant carries the
/// diagnostic text produced at the point of failure.
#[derive(Debug, Clone, PartialEq, Eq)]
pub enum BridgeError {
    /// The execution backend could not be initialized with the requested
    /// limits.  Fatal; surfaced immediately by engine or store creation.
    Configuration(String),
    /// The guest source text failed validation (malformed syntax, type
    /// errors, unsupported instructions).  No partial module is produced.
    Compile(String),
    /// An import could not be resolved, or its signature did not match, at
    /// instantiation time.  No partial instance is produced.
    Link(String),
    /// A guest-triggered fault: out-of-bounds access, unreachable
    /// instruction, explicit abort, or exhaustion of the preemption budget.
    /// An execution outcome, not a process-fatal condition.
    Trap(String),
    /// Export resolution failed because the instance has no export of the
    /// requested name.  The carried text is that name.
    NotFound(String),
    /// Export resolution failed because the export's signature is not the
    /// supported niladic, void-returning shape.
    SignatureMismatch(String),
    /// A failure during a pump cycle, such as a host import call that
    /// reported an error.
    Execution(String),
}

impl BridgeError {
    /// The diagnostic text carried by the error.
    pub open spec fn message_view(&self) -> Seq<char> {
        match self {
            BridgeError::Configuration(m) => m@,
            BridgeError::Compile(m) => m@,
            BridgeError::Link(m) => m@,
            BridgeError::Trap(m) => m@,
            BridgeError::NotFound(m) => m@,
            BridgeError::SignatureMismatch(m) => m@,
            BridgeError::Execution(m) => m@,
        }
    }

    /// The diagnostic text carried by the error.
    pub fn message(&self) -> (r: &String)
        ensures
            r@ == self.message_view(),
    {
        match self {
            BridgeError::Configuration(m) => m,
            BridgeError::Compile(m) => m,
            BridgeError::Link(m) => m,
            BridgeError::Trap(m) => m,
            BridgeError::NotFound(m) => m,
            BridgeError::SignatureMismatch(m) => m,
            BridgeError::Execution(m) => m,
        }
    }
}

} // verus!
