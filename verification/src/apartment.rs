//! Per-thread apartment context for the object-model runtime.
//!
//! The runtime must be initialized in single-threaded ("apartment") mode on
//! every thread that performs interop work, exactly once per thread, and
//! released exactly once when that thread is done. `ApartmentContext` is the
//! bookkeeping for one thread: it records whether this thread currently holds
//! a live runtime initialization. The raw initialization call itself is made
//! by the unverified shell around this library, which hands the returned
//! status code to [`ApartmentContext::ensure_initialized`].
//!
//! A status code follows the platform convention: negative means failure,
//! zero or positive means success (including "already initialized in this
//! mode", which the runtime reports as a positive success code).

use vstd::prelude::*;

use crate::errors::CloakError;

verus! {

/// The apartment state of one thread: how many live runtime initializations
/// this context holds. Exclusively owned by the thread that created it; it is
/// never shared with or handed to another thread.
pub struct ApartmentContext {
    /// How many live runtime initializations this thread holds; meaningful
    /// states keep it at most 1 (see [`ApartmentContext::wf`]).
    pub inits: u8,
}

impl ApartmentContext {
    /// How many live runtime initializations this context holds.
    pub open spec fn live_inits(self) -> nat {
        self.inits as nat
    }

    /// The context holds exactly one live initialization.
    pub open spec fn initialized(self) -> bool {
        self.live_inits() == 1
    }

    /// At most one live initialization per thread, ever.
    pub open spec fn wf(self) -> bool {
        self.live_inits() <= 1
    }

    /// The initialization step, as a function of the current context and of
    /// the status code the runtime would report if it were called: an
    /// already-initialized context is left untouched and no error is raised;
    /// otherwise a non-negative status installs the single live
    /// initialization, and a negative status leaves the context empty and
    /// fails.
    pub open spec fn init_step(self, status: i32) -> (ApartmentContext, Result<(), CloakError>) {
        if self.initialized() {
            (self, Ok(()))
        } else if status >= 0 {
            (ApartmentContext { inits: 1 }, Ok(()))
        } else {
            (ApartmentContext { inits: 0 }, Err(CloakError::ApartmentInitFailed))
        }
    }

    /// A fresh context for the current thread: no live initialization yet.
    pub fn new() -> (c: ApartmentContext)
        ensures
            c.wf(),
            !c.initialized(),
            c.live_inits() == 0,
    {
        ApartmentContext { inits: 0 }
    }

    /// Whether this thread already holds a live initialization. When it does,
    /// the caller must not call into the runtime again before using this
    /// layer.
    pub fn is_initialized(&self) -> (b: bool)
        ensures
            b == self.initialized(),
    {
        self.inits == 1
    }

    /// Record the outcome of the initialization step. `status` is the code
    /// the runtime reported, and is consulted only when the context holds no
    /// live initialization yet: on an already-initialized context the step is
    /// a no-op that cannot fail, whatever `status` says.
    pub fn ensure_initialized(&mut self, status: i32) -> (r: Result<(), CloakError>)
        requires
            old(self).wf(),
        ensures
            final(self).wf(),
            (*final(self), r) == old(self).init_step(status),
            r is Ok <==> (old(self).initialized() || status >= 0),
            r is Ok ==> final(self).initialized(),
            r is Err ==> r == Err::<(), CloakError>(CloakError::ApartmentInitFailed)
                && !final(self).initialized(),
    {
        if self.inits == 1 {
            Ok(())
        } else if status >= 0 {
            self.inits = 1;
            Ok(())
        } else {
            self.inits = 0;
            Err(CloakError::ApartmentInitFailed)
        }
    }

    /// Release the context at thread exit. Returns whether a live
    /// initialization was held, in which case the caller owes the runtime
    /// exactly one teardown call; afterwards the context holds nothing.
    pub fn release(&mut self) -> (was: bool)
        requires
            old(self).wf(),
        ensures
            final(self).wf(),
            !final(self).initialized(),
            final(self).live_inits() == 0,
            was == old(self).initialized(),
    {
        let was = self.inits == 1;
        self.inits = 0;
        was
    }
}

/// Law: the initialization step is idempotent. Once a step has succeeded on a
/// thread's context, a further step on the same context is a no-op: it cannot
/// fail, it leaves the context exactly as it was, and the thread still holds
/// at most one live initialization — a second one is never created.
pub proof fn lemma_init_step_idempotent(c: ApartmentContext, s1: i32, s2: i32)
    requires
        c.wf(),
    ensures
        ({
            let (c1, r1) = c.init_step(s1);
            r1 is Ok ==> {
                let (c2, r2) = c1.init_step(s2);
                &&& r2 is Ok
                &&& c2 == c1
                &&& c2.live_inits() == 1
            }
        }),
{
}

} // verus!
