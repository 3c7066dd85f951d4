use vstd::prelude::*;

verus! {

/// The error a guard reports when it cannot determine its condition.
///
/// It carries a human-readable cause for diagnostics; the gating engine
/// never propagates it to its caller, it only downgrades it to a denial.
#[derive(Debug, PartialEq)]
pub struct GuardError {
    pub message: String,
}

impl GuardError {
    /// The human-readable cause.
    pub fn message(&self) -> (r: &String)
        ensures
            r@ == self.message@,
    {
        &self.message
    }
}

/// The guard capability: evaluate one precondition to a boolean or an error.
///
/// `Ok(true)` means the guarded condition holds, `Ok(false)` that it does
/// not, and `Err` that the guard could not decide. Each guard declares the
/// outcome it reports as a function of its own state, so a verified guard
/// is deterministic; what that outcome means for the run decision is the
/// business of the flow control wrapping it.
pub trait Initializer {
    /// The outcome this guard reports: `Some(b)` when it returns `Ok(b)`,
    /// `None` when it cannot decide.
    spec fn outcome(&self) -> Option<bool>;

    /// Evaluate the guarded condition.
    fn initialize(&self) -> (r: Result<bool, GuardError>)
        ensures
            match r {
                Ok(b) => self.outcome() == Some(b),
                Err(_) => self.outcome() is None,
            },
    ;
}

/// How a guard's outcome bears on the run decision.
///
/// The variant set is closed and matched exhaustively; a new
/// interpretation (say, run-only-if) would be a new variant here, not a
/// change to any guard.
pub enum FlowControl {
    /// Evaluate the guard; if it reports true, the owning step must be
    /// excluded from execution.
    SkipIf(Box<dyn Initializer>),
}

impl FlowControl {
    /// The outcome of the wrapped guard.
    pub open spec fn outcome(&self) -> Option<bool> {
        match self {
            FlowControl::SkipIf(guard) => guard.outcome(),
        }
    }

    /// Whether this entry votes to let the step run.
    ///
    /// Only a guard that cleanly reports false does. A guard that reports
    /// true asks for the skip, and a guard that cannot decide is treated
    /// the same way: when in doubt, do not run (fail-safe).
    pub open spec fn allows(&self) -> bool {
        self.outcome() == Some(false)
    }
}

/// A guard double that reports exactly the boolean it holds.
pub struct Echo(pub bool);

impl Initializer for Echo {
    open spec fn outcome(&self) -> Option<bool> {
        Some(self.0)
    }

    fn initialize(&self) -> (r: Result<bool, GuardError>) {
        Ok(self.0)
    }
}

/// A guard double that can never decide its condition.
pub struct Failing;

impl Initializer for Failing {
    open spec fn outcome(&self) -> Option<bool> {
        None
    }

    fn initialize(&self) -> (r: Result<bool, GuardError>) {
        Err(GuardError { message: String::from_str("this guard always fails") })
    }
}

} // verus!
