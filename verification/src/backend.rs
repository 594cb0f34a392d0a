//! The platform backend capability: the mechanism that actually obscures the
//! local display. The core state machine drives it through the `Backend`
//! trait and never depends on how a particular platform implements it.

use vstd::prelude::*;

verus! {

/// A backend-specific failure reason, reported by `enable` / `disable`.
/// The core never inspects it; it only decides success or failure from the
/// surrounding `Result`.
#[derive(Clone, Copy, Debug, PartialEq, Eq, Structural)]
pub struct BackendError {
    pub code: u64,
}

/// The capability a platform must provide: activate and deactivate the
/// privacy overlay, and say whether completion is signalled asynchronously.
///
/// `enable` and `disable` carry no postcondition: whether they succeed is the
/// platform's decision, and the core states what holds of every outcome.
pub trait Backend {
    /// Whether this backend signals completion asynchronously.
    spec fn spec_is_async(&self) -> bool;

    /// Capability flag: callers that need confirmation before proceeding can
    /// poll after an acquire when this is true.
    fn is_async(&self) -> (r: bool)
        ensures
            r == self.spec_is_async(),
    ;

    /// Activate the privacy overlay.
    fn enable(&mut self) -> (r: Result<(), BackendError>);

    /// Deactivate the privacy overlay.
    fn disable(&mut self) -> (r: Result<(), BackendError>);
}

/// Failure code used by `CountingBackend` when it is told to refuse a call.
pub const BACKEND_REFUSED: u64 = 1;

/// A deterministic, synchronous in-memory backend. It records how often each
/// operation was invoked and can be told to fail, which makes the core's
/// behaviour under backend failure observable from tests.
#[derive(Clone, Copy, Debug, PartialEq, Eq, Structural)]
pub struct CountingBackend {
    /// How many times `enable` has run (saturating).
    pub enable_calls: u64,
    /// How many times `disable` has run (saturating).
    pub disable_calls: u64,
    /// When true, `enable` fails with `BACKEND_REFUSED`.
    pub fail_enable: bool,
    /// When true, `disable` fails with `BACKEND_REFUSED`.
    pub fail_disable: bool,
}

impl CountingBackend {
    /// A fresh backend that has run nothing and succeeds on every call.
    pub fn new() -> (r: Self)
        ensures
            r.enable_calls == 0,
            r.disable_calls == 0,
            !r.fail_enable,
            !r.fail_disable,
    {
        CountingBackend { enable_calls: 0, disable_calls: 0, fail_enable: false, fail_disable: false }
    }
}

impl Backend for CountingBackend {
    open spec fn spec_is_async(&self) -> bool {
        false
    }

    fn is_async(&self) -> (r: bool) {
        false
    }

    fn enable(&mut self) -> (r: Result<(), BackendError>) {
        if self.enable_calls < u64::MAX {
            self.enable_calls = self.enable_calls + 1;
        }
        if self.fail_enable {
            Err(BackendError { code: BACKEND_REFUSED })
        } else {
            Ok(())
        }
    }

    fn disable(&mut self) -> (r: Result<(), BackendError>) {
        if self.disable_calls < u64::MAX {
            self.disable_calls = self.disable_calls + 1;
        }
        if self.fail_disable {
            Err(BackendError { code: BACKEND_REFUSED })
        } else {
            Ok(())
        }
    }
}

} // verus!
