use vstd::prelude::*;

verus! {

use crate::steps::initializers::GuardError;

/// The finalizer guard capability, mirroring the initializer one.
///
/// A step carries finalizer flow controls so that work can be gated after
/// its atom has run, but when and how the surrounding scheduler evaluates
/// them is its own affair; this core only holds them.
pub trait Finalizer {
    /// The outcome this guard reports: `Some(b)` when it returns `Ok(b)`,
    /// `None` when it cannot decide.
    spec fn outcome(&self) -> Option<bool>;

    /// Evaluate the guarded condition.
    fn finalize(&self) -> (r: Result<bool, GuardError>)
        ensures
            match r {
                Ok(b) => self.outcome() == Some(b),
                Err(_) => self.outcome() is None,
            },
    ;
}

/// How a finalizer guard's outcome is to be interpreted.
pub enum FlowControl {
    /// If the guard reports true, the finalizing work is to be skipped.
    SkipIf(Box<dyn Finalizer>),
}

impl FlowControl {
    /// The outcome of the wrapped guard.
    pub open spec fn outcome(&self) -> Option<bool> {
        match self {
            FlowControl::SkipIf(guard) => guard.outcome(),
        }
    }
}

/// A finalizer guard double that reports exactly the boolean it holds.
pub struct Echo(pub bool);

impl Finalizer for Echo {
    open spec fn outcome(&self) -> Option<bool> {
        Some(self.0)
    }

    fn finalize(&self) -> (r: Result<bool, GuardError>) {
        Ok(self.0)
    }
}

} // verus!
