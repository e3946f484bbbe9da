//! The verified chain driven against an instrumented stub shell: a test
//! double that hands out reference-counted handle tokens, records every
//! release and every cloak invocation, and can be wired to fail at any step.

use cloak::apartment::ApartmentContext;
use cloak::chain::{Action, CloakChain, Event, Phase};
use cloak::errors::CloakError;

/// A stand-in for the shell side of the chain: provider, collection and view
/// objects are just numbered tokens with a live-reference ledger.
struct StubShell {
    /// Window handles the stub currently tracks, each with the view token it
    /// hands out for that window.
    known_windows: Vec<(u64, u64)>,
    /// Next fresh handle token.
    next_handle: u64,
    /// Tokens handed out and not yet released (reference count one each).
    live: Vec<u64>,
    /// Every release, in the order it happened.
    released: Vec<u64>,
    /// Every cloak invocation: (view token, cloak_type, flags).
    invocations: Vec<(u64, u32, i32)>,
    /// Status reported for apartment initialization.
    init_status: i32,
    /// Status reported for provider creation; negative fails the step.
    provider_status: i32,
    /// Status reported for the collection query; negative fails the step.
    collection_status: i32,
    /// Status reported by the cloak-setting method itself.
    invoke_status: i32,
}

impl StubShell {
    fn new() -> StubShell {
        StubShell {
            known_windows: Vec::new(),
            next_handle: 100,
            live: Vec::new(),
            released: Vec::new(),
            invocations: Vec::new(),
            init_status: 0,
            provider_status: 0,
            collection_status: 0,
            invoke_status: 0,
        }
    }

    fn track_window(&mut self, window: u64) {
        let view = self.fresh();
        self.known_windows.push((window, view));
    }

    fn fresh(&mut self) -> u64 {
        let h = self.next_handle;
        self.next_handle += 1;
        h
    }

    fn acquire(&mut self, h: u64) -> u64 {
        self.live.push(h);
        h
    }

    fn release(&mut self, h: u64) {
        let pos = self
            .live
            .iter()
            .position(|&x| x == h)
            .expect("released a handle that was not live");
        self.live.remove(pos);
        self.released.push(h);
    }

    fn view_for(&self, window: u64) -> Option<u64> {
        self.known_windows
            .iter()
            .find(|&&(w, _)| w == window)
            .map(|&(_, v)| v)
    }
}

/// Drive one full invocation of the verified machine against the stub,
/// exactly as the unverified shell around the library would: perform each
/// demanded action, report its outcome, release what the machine says to
/// release, and return what it reports.
fn run_chain(
    shell: &mut StubShell,
    window: u64,
    cloak_type: u32,
    flags: i32,
) -> Result<(), CloakError> {
    let mut chain = CloakChain::new(window, cloak_type, flags);
    loop {
        match chain.next_action() {
            Action::InitApartment => {
                let status = shell.init_status;
                chain.step(Event::ApartmentInit { status });
            }
            Action::CreateProvider => {
                let status = shell.provider_status;
                let provider = if status >= 0 {
                    let h = shell.fresh();
                    shell.acquire(h)
                } else {
                    0
                };
                chain.step(Event::ProviderCreated { status, provider });
            }
            Action::QueryCollection { provider } => {
                assert!(shell.live.contains(&provider));
                let status = shell.collection_status;
                let collection = if status >= 0 {
                    let h = shell.fresh();
                    shell.acquire(h)
                } else {
                    0
                };
                chain.step(Event::CollectionQueried { status, collection });
            }
            Action::LookupView { collection, window } => {
                assert!(shell.live.contains(&collection));
                match shell.view_for(window) {
                    Some(v) => {
                        let view = shell.acquire(v);
                        chain.step(Event::ViewLookedUp { found: true, view });
                    }
                    None => {
                        chain.step(Event::ViewLookedUp {
                            found: false,
                            view: 0,
                        });
                    }
                }
            }
            Action::InvokeCloak {
                view,
                cloak_type,
                flags,
            } => {
                assert!(shell.live.contains(&view));
                shell.invocations.push((view, cloak_type, flags));
                let status = shell.invoke_status;
                chain.step(Event::CloakInvoked { status });
            }
            Action::ReleaseAll => {
                for h in chain.drain_releases() {
                    shell.release(h);
                }
            }
            Action::Report => return chain.outcome(),
        }
    }
}

/// The original smoke test, against the stub: a window looked up by the
/// shell, cloak arguments forwarded verbatim.
#[test]
fn test_set_cloak() {
    let mut shell = StubShell::new();
    shell.track_window(1234);
    let r = run_chain(&mut shell, 1234, 1234, 1234);
    assert_eq!(r, Ok(()));
    let view = shell.view_for(1234).unwrap();
    assert_eq!(shell.invocations, vec![(view, 1234, 1234)]);
    assert!(shell.live.is_empty());
}

#[test]
fn apartment_init_is_idempotent() {
    let mut ctx = ApartmentContext::new();
    assert!(!ctx.is_initialized());
    assert_eq!(ctx.ensure_initialized(0), Ok(()));
    assert!(ctx.is_initialized());
    // A second step is a no-op: it cannot fail, whatever status it is handed,
    // and no second live initialization appears.
    assert_eq!(ctx.ensure_initialized(-1), Ok(()));
    assert!(ctx.is_initialized());
    assert_eq!(ctx.inits, 1);
    // Release pairs with the single initialization exactly once.
    assert!(ctx.release());
    assert!(!ctx.is_initialized());
    assert!(!ctx.release());
}

#[test]
fn apartment_init_failure_is_surfaced() {
    let mut ctx = ApartmentContext::new();
    assert_eq!(
        ctx.ensure_initialized(-2147417850),
        Err(CloakError::ApartmentInitFailed)
    );
    assert!(!ctx.is_initialized());
    // The chain reports the same failure when the step is forced to fail.
    let mut shell = StubShell::new();
    shell.init_status = -1;
    let r = run_chain(&mut shell, 1, 0, 0);
    assert_eq!(r, Err(CloakError::ApartmentInitFailed));
    assert!(shell.live.is_empty());
    assert!(shell.invocations.is_empty());
}

#[test]
fn provider_failure_releases_nothing_and_surfaces() {
    let mut shell = StubShell::new();
    shell.provider_status = -1;
    let r = run_chain(&mut shell, 1, 0, 0);
    assert_eq!(r, Err(CloakError::ServiceUnavailable));
    assert!(shell.live.is_empty());
    assert!(shell.released.is_empty());
    assert!(shell.invocations.is_empty());
}

#[test]
fn collection_failure_releases_provider() {
    let mut shell = StubShell::new();
    shell.collection_status = -1;
    let r = run_chain(&mut shell, 1, 0, 0);
    assert_eq!(r, Err(CloakError::InterfaceNotSupported));
    // The provider was acquired before the forced failure and is released.
    assert!(shell.live.is_empty());
    assert_eq!(shell.released.len(), 1);
    assert!(shell.invocations.is_empty());
}

#[test]
fn view_failure_releases_collection_then_provider() {
    let mut shell = StubShell::new();
    // No window is known to the stub: the lookup is the forced failure.
    let r = run_chain(&mut shell, 1, 0, 0);
    assert_eq!(r, Err(CloakError::ViewNotFound));
    assert!(shell.live.is_empty());
    // Released in reverse acquisition order: collection first, provider last.
    assert_eq!(shell.released.len(), 2);
    let provider = shell.released[1];
    let collection = shell.released[0];
    assert!(provider < collection);
    assert!(shell.invocations.is_empty());
}

#[test]
fn invoke_failure_releases_all_three_and_surfaces_status() {
    let mut shell = StubShell::new();
    shell.track_window(8);
    shell.invoke_status = -5;
    let r = run_chain(&mut shell, 8, 3, 4);
    assert_eq!(r, Err(CloakError::MethodCallFailed(-5)));
    // The invocation happened, with the arguments intact, and every handle
    // acquired before the failure was still released.
    assert_eq!(shell.invocations.len(), 1);
    assert!(shell.live.is_empty());
    assert_eq!(shell.released.len(), 3);
}

#[test]
fn unknown_window_is_normal_failure() {
    let mut shell = StubShell::new();
    shell.track_window(7);
    let r = run_chain(&mut shell, 999, 1, 0);
    assert_eq!(r, Err(CloakError::ViewNotFound));
    assert!(shell.live.is_empty());
    assert!(shell.invocations.is_empty());
    // The same shell still serves the window it does track: no earlier
    // state was corrupted by the failed call.
    let r2 = run_chain(&mut shell, 7, 1, 0);
    assert_eq!(r2, Ok(()));
    assert!(shell.live.is_empty());
}

#[test]
fn arguments_pass_through_unchanged() {
    let mut shell = StubShell::new();
    shell.track_window(31);
    let r = run_chain(&mut shell, 31, 4294967295, -2147483648);
    assert_eq!(r, Ok(()));
    let view = shell.view_for(31).unwrap();
    assert_eq!(shell.invocations, vec![(view, 4294967295, -2147483648)]);
}

#[test]
fn two_chains_are_isolated() {
    // Two full chains, each with its own context, shell and machine, stepped
    // in lockstep: neither observes the other's state, and each reaches its
    // own independent result.
    let mut ctx_a = ApartmentContext::new();
    let mut ctx_b = ApartmentContext::new();
    assert_eq!(ctx_a.ensure_initialized(0), Ok(()));
    assert_eq!(ctx_b.ensure_initialized(0), Ok(()));

    let mut shell_a = StubShell::new();
    let mut shell_b = StubShell::new();
    shell_a.track_window(41);
    shell_b.track_window(43);

    let mut chain_a = CloakChain::new(41, 1, 0);
    let mut chain_b = CloakChain::new(43, 2, 0);
    let mut done_a: Option<Result<(), CloakError>> = None;
    let mut done_b: Option<Result<(), CloakError>> = None;
    while done_a.is_none() || done_b.is_none() {
        for (chain, shell, done) in [
            (&mut chain_a, &mut shell_a, &mut done_a),
            (&mut chain_b, &mut shell_b, &mut done_b),
        ] {
            if done.is_some() {
                continue;
            }
            match chain.next_action() {
                Action::InitApartment => chain.step(Event::ApartmentInit { status: 0 }),
                Action::CreateProvider => {
                    let h = shell.fresh();
                    let provider = shell.acquire(h);
                    chain.step(Event::ProviderCreated {
                        status: 0,
                        provider,
                    });
                }
                Action::QueryCollection { .. } => {
                    let h = shell.fresh();
                    let collection = shell.acquire(h);
                    chain.step(Event::CollectionQueried {
                        status: 0,
                        collection,
                    });
                }
                Action::LookupView { window, .. } => {
                    let v = shell.view_for(window).unwrap();
                    let view = shell.acquire(v);
                    chain.step(Event::ViewLookedUp { found: true, view });
                }
                Action::InvokeCloak {
                    view,
                    cloak_type,
                    flags,
                } => {
                    shell.invocations.push((view, cloak_type, flags));
                    chain.step(Event::CloakInvoked { status: 0 });
                }
                Action::ReleaseAll => {
                    for h in chain.drain_releases() {
                        shell.release(h);
                    }
                }
                Action::Report => *done = Some(chain.outcome()),
            }
        }
    }
    assert_eq!(done_a, Some(Ok(())));
    assert_eq!(done_b, Some(Ok(())));
    assert!(ctx_a.is_initialized() && ctx_b.is_initialized());
    let view_a = shell_a.view_for(41).unwrap();
    let view_b = shell_b.view_for(43).unwrap();
    assert_eq!(shell_a.invocations, vec![(view_a, 1, 0)]);
    assert_eq!(shell_b.invocations, vec![(view_b, 2, 0)]);
    assert!(shell_a.live.is_empty() && shell_b.live.is_empty());
}

#[test]
fn end_to_end_scenario() {
    // Stub wired to accept window 42; entry with cloak_type 1, flags 0 must
    // record exactly one invocation, on the view bound to 42, and leave zero
    // outstanding handles.
    let mut shell = StubShell::new();
    shell.track_window(42);
    let r = run_chain(&mut shell, 42, 1, 0);
    assert_eq!(r, Ok(()));
    let view = shell.view_for(42).unwrap();
    assert_eq!(shell.invocations, vec![(view, 1, 0)]);
    assert_eq!(shell.live.len(), 0);
    assert_eq!(shell.released.len(), 3);
}

#[test]
fn phases_walk_the_chain_in_order() {
    let mut shell = StubShell::new();
    shell.track_window(6);
    let mut chain = CloakChain::new(6, 0, 0);
    assert_eq!(chain.phase(), Phase::Uninitialized);
    chain.step(Event::ApartmentInit { status: 0 });
    assert_eq!(chain.phase(), Phase::ApartmentReady);
    let h1 = shell.fresh();
    chain.step(Event::ProviderCreated {
        status: 0,
        provider: shell.acquire(h1),
    });
    assert_eq!(chain.phase(), Phase::ProviderAcquired);
    let h2 = shell.fresh();
    chain.step(Event::CollectionQueried {
        status: 0,
        collection: shell.acquire(h2),
    });
    assert_eq!(chain.phase(), Phase::CollectionAcquired);
    let v = shell.view_for(6).unwrap();
    chain.step(Event::ViewLookedUp {
        found: true,
        view: shell.acquire(v),
    });
    assert_eq!(chain.phase(), Phase::ViewAcquired);
    chain.step(Event::CloakInvoked { status: 1 });
    assert_eq!(chain.phase(), Phase::CloakSet);
    let hs = chain.drain_releases();
    assert_eq!(hs, vec![v, h2, h1]);
    for h in hs {
        shell.release(h);
    }
    assert_eq!(chain.outcome(), Ok(()));
    assert!(shell.live.is_empty());
}
