//! Chaining of stages that pass a state along and stop at the first error:
//! `Machine::init(state).then(stage).then(stage).unwrap(finish)`.
use vstd::prelude::*;

verus! {

/// A state, or the error that stopped the chain.
pub struct Machine<St, E> {
    state: Result<St, E>,
}

impl<St, E> Machine<St, E> {
    /// What the chain holds so far.
    pub closed spec fn spec_state(&self) -> Result<St, E> {
        self.state
    }

    /// A machine in the state `state`.
    pub fn init(state: St) -> (r: Self)
        ensures
            r.spec_state() == Ok::<St, E>(state),
    {
        Self { state: Ok(state) }
    }

    /// Runs `stage` on the state, unless an earlier stage failed: then the
    /// error passes through and `stage` is not run.
    pub fn then<Ret, F: Fn(St) -> Result<Ret, E>>(self, stage: F) -> (r: Machine<Ret, E>)
        requires
            self.spec_state() is Ok ==> stage.requires((self.spec_state()->Ok_0,)),
        ensures
            match self.spec_state() {
                Ok(s) => stage.ensures((s,), r.spec_state()),
                Err(e) => r.spec_state() == Err::<Ret, E>(e),
            },
    {
        match self.state {
            Ok(s) => Machine { state: stage(s) },
            Err(e) => Machine { state: Err(e) },
        }
    }

    /// Maps the chain's outcome, a state or an error, to a final value.
    pub fn unwrap<R, F: Fn(Result<St, E>) -> R>(self, finish: F) -> (r: R)
        requires
            finish.requires((self.spec_state(),)),
        ensures
            finish.ensures((self.spec_state(),), r),
    {
        finish(self.state)
    }

    /// The chain's outcome.
    pub fn result(self) -> (r: Result<St, E>)
        ensures
            r == self.spec_state(),
    {
        self.state
    }
}

} // verus!
