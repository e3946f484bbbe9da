//! The per-invocation acquisition chain, as a verified state machine.
//!
//! One cloak invocation walks
//! `Uninitialized → ApartmentReady → ProviderAcquired → CollectionAcquired →
//! ViewAcquired → CloakSet`, and any step's failure goes directly to
//! `Failed`, keeping every handle acquired so far on the ledger so that all
//! of them are released, in reverse acquisition order, before the outcome is
//! reported.
//!
//! The machine never touches the runtime itself. It tells its caller which
//! raw call to make next ([`CloakChain::next_action`]), and the caller hands
//! the outcome back ([`CloakChain::step`]) as a status code and, for the
//! acquisition steps, the acquired handle. A handle is an opaque nonzero
//! integer chosen by the caller (in practice the object's address); the
//! machine only ledgers it.

use vstd::prelude::*;

use crate::errors::CloakError;

verus! {

/// The two caller-supplied method arguments and the window they apply to,
/// forwarded verbatim to the dynamic invocation: this layer gives them no
/// interpretation.
#[derive(Clone, Copy, Debug, PartialEq, Eq, Structural)]
pub struct CloakRequest {
    /// The platform window identifier the caller handed in.
    pub window: u64,
    /// The cloak-type code, passed through unchanged.
    pub cloak_type: u32,
    /// The flags value, passed through unchanged.
    pub flags: i32,
}

/// Where one invocation of the chain stands.
#[derive(Clone, Copy, Debug, PartialEq, Eq, Structural)]
pub enum Phase {
    /// Nothing has happened yet; the apartment must be ensured first.
    Uninitialized,
    /// The calling thread's apartment is ready; no handle is held yet.
    ApartmentReady,
    /// The root service-provider object is held.
    ProviderAcquired,
    /// The application-view collection is held, after the provider.
    CollectionAcquired,
    /// The view for the requested window is held, after the other two.
    ViewAcquired,
    /// The cloak-setting method reported success; the handles still on the
    /// ledger remain to be released.
    CloakSet,
    /// Some step failed; the handles still on the ledger remain to be
    /// released before the error is reported.
    Failed,
}

/// The outcome of one raw call, reported back to the machine. A `status`
/// follows the platform convention: negative is failure, zero or positive is
/// success.
#[derive(Clone, Copy, Debug, PartialEq, Eq, Structural)]
pub enum Event {
    /// The apartment-initialization step ran with this status.
    ApartmentInit { status: i32 },
    /// Creating the root service-provider object returned this status and,
    /// on success, this handle.
    ProviderCreated { status: i32, provider: u64 },
    /// Querying the provider for the view collection returned this status
    /// and, on success, this handle.
    CollectionQueried { status: i32, collection: u64 },
    /// Looking up the view for the requested window either found it under
    /// this handle or reported the window as not tracked.
    ViewLookedUp { found: bool, view: u64 },
    /// The dynamic cloak-setting invocation returned this status.
    CloakInvoked { status: i32 },
}

/// What the caller must do next for the machine to advance.
#[derive(Clone, Copy, Debug, PartialEq, Eq, Structural)]
pub enum Action {
    /// Ensure the calling thread's apartment is initialized, then report
    /// [`Event::ApartmentInit`].
    InitApartment,
    /// Create the root service-provider object, then report
    /// [`Event::ProviderCreated`].
    CreateProvider,
    /// Query this provider handle for the view collection, then report
    /// [`Event::CollectionQueried`].
    QueryCollection { provider: u64 },
    /// Look this window up in this collection handle, then report
    /// [`Event::ViewLookedUp`].
    LookupView { collection: u64, window: u64 },
    /// Invoke the cloak-setting method on this view handle with exactly
    /// these arguments, then report [`Event::CloakInvoked`].
    InvokeCloak { view: u64, cloak_type: u32, flags: i32 },
    /// Drain the ledger with [`CloakChain::drain_releases`] and release each
    /// returned handle.
    ReleaseAll,
    /// Nothing is left to do or release; read [`CloakChain::outcome`].
    Report,
}

/// The mathematical state of one chain invocation: the phase, the request
/// being carried, the live handles in acquisition order, and the failure if
/// one occurred.
#[verifier::ext_equal]
pub struct ChainModel {
    /// Where the invocation stands.
    pub phase: Phase,
    /// The request as handed to [`CloakChain::new`].
    pub request: CloakRequest,
    /// The live (acquired, not yet released) handles, oldest first.
    pub acquired: Seq<u64>,
    /// The failure, present exactly in phase [`Phase::Failed`].
    pub error: Option<CloakError>,
}

/// A terminal phase: the chain has finished, successfully or not, and only
/// releasing and reporting remain.
pub open spec fn is_terminal(p: Phase) -> bool {
    p == Phase::CloakSet || p == Phase::Failed
}

/// The model a fresh invocation starts from.
pub open spec fn init_model(request: CloakRequest) -> ChainModel {
    ChainModel {
        phase: Phase::Uninitialized,
        request,
        acquired: Seq::empty(),
        error: None,
    }
}

impl ChainModel {
    /// The machine's invariant: the ledger length matches the phase (one
    /// handle per completed acquisition), every ledgered handle is nonzero,
    /// and an error is recorded exactly in the failed phase.
    pub open spec fn wf(self) -> bool {
        &&& (self.phase == Phase::Uninitialized ==> self.acquired.len() == 0)
        &&& (self.phase == Phase::ApartmentReady ==> self.acquired.len() == 0)
        &&& (self.phase == Phase::ProviderAcquired ==> self.acquired.len() == 1)
        &&& (self.phase == Phase::CollectionAcquired ==> self.acquired.len() == 2)
        &&& (self.phase == Phase::ViewAcquired ==> self.acquired.len() == 3)
        &&& (self.phase == Phase::CloakSet ==> self.acquired.len() <= 3)
        &&& (self.error is Some <==> self.phase == Phase::Failed)
        &&& (forall|i: int| 0 <= i < self.acquired.len() ==> self.acquired[i] != 0)
    }
}

/// Which event the machine expects in a given model: the event's kind must
/// match the phase, and a successful acquisition must carry a nonzero
/// handle. A null handle under a reported success is an invariant violation
/// of the runtime, which the caller must treat as fatal rather than report
/// here.
pub open spec fn expects(m: ChainModel, e: Event) -> bool {
    match e {
        Event::ApartmentInit { status } => m.phase == Phase::Uninitialized,
        Event::ProviderCreated { status, provider } =>
            m.phase == Phase::ApartmentReady && (status >= 0 ==> provider != 0),
        Event::CollectionQueried { status, collection } =>
            m.phase == Phase::ProviderAcquired && (status >= 0 ==> collection != 0),
        Event::ViewLookedUp { found, view } =>
            m.phase == Phase::CollectionAcquired && (found ==> view != 0),
        Event::CloakInvoked { status } => m.phase == Phase::ViewAcquired,
    }
}

/// How one event advances the model. A successful acquisition ledgers its
/// handle; any failure moves to [`Phase::Failed`] with the step's error from
/// the taxonomy, keeping the ledger exactly as it was, so that everything
/// acquired so far is still released.
pub open spec fn spec_step(m: ChainModel, e: Event) -> ChainModel {
    match e {
        Event::ApartmentInit { status } => {
            if status >= 0 {
                ChainModel { phase: Phase::ApartmentReady, ..m }
            } else {
                ChainModel { phase: Phase::Failed, error: Some(CloakError::ApartmentInitFailed), ..m }
            }
        },
        Event::ProviderCreated { status, provider } => {
            if status >= 0 {
                ChainModel { phase: Phase::ProviderAcquired, acquired: m.acquired.push(provider), ..m }
            } else {
                ChainModel { phase: Phase::Failed, error: Some(CloakError::ServiceUnavailable), ..m }
            }
        },
        Event::CollectionQueried { status, collection } => {
            if status >= 0 {
                ChainModel { phase: Phase::CollectionAcquired, acquired: m.acquired.push(collection), ..m }
            } else {
                ChainModel { phase: Phase::Failed, error: Some(CloakError::InterfaceNotSupported), ..m }
            }
        },
        Event::ViewLookedUp { found, view } => {
            if found {
                ChainModel { phase: Phase::ViewAcquired, acquired: m.acquired.push(view), ..m }
            } else {
                ChainModel { phase: Phase::Failed, error: Some(CloakError::ViewNotFound), ..m }
            }
        },
        Event::CloakInvoked { status } => {
            if status >= 0 {
                ChainModel { phase: Phase::CloakSet, ..m }
            } else {
                ChainModel { phase: Phase::Failed, error: Some(CloakError::MethodCallFailed(status)), ..m }
            }
        },
    }
}

/// The action a model calls for: the raw call of its phase, carrying the
/// ledgered handles it needs and, for the invocation itself, exactly the
/// cloak arguments of the request; in a terminal phase, releasing what is
/// still ledgered, then reporting.
pub open spec fn spec_next_action(m: ChainModel) -> Action {
    match m.phase {
        Phase::Uninitialized => Action::InitApartment,
        Phase::ApartmentReady => Action::CreateProvider,
        Phase::ProviderAcquired => Action::QueryCollection { provider: m.acquired[0] },
        Phase::CollectionAcquired => Action::LookupView { collection: m.acquired[1], window: m.request.window },
        Phase::ViewAcquired => Action::InvokeCloak {
            view: m.acquired[2],
            cloak_type: m.request.cloak_type,
            flags: m.request.flags,
        },
        Phase::CloakSet => if m.acquired.len() > 0 { Action::ReleaseAll } else { Action::Report },
        Phase::Failed => if m.acquired.len() > 0 { Action::ReleaseAll } else { Action::Report },
    }
}

/// The outcome a terminal, fully released model reports.
pub open spec fn spec_outcome(m: ChainModel) -> Result<(), CloakError> {
    match m.error {
        Some(e) => Err(e),
        None => Ok(()),
    }
}

/// An event that reports a failing outcome: a negative status, or a window
/// the shell does not track.
pub open spec fn is_failure(e: Event) -> bool {
    match e {
        Event::ApartmentInit { status } => status < 0,
        Event::ProviderCreated { status, provider } => status < 0,
        Event::CollectionQueried { status, collection } => status < 0,
        Event::ViewLookedUp { found, view } => !found,
        Event::CloakInvoked { status } => status < 0,
    }
}

/// The model after a whole sequence of reported outcomes, applied in order.
pub open spec fn run_spec(m: ChainModel, es: Seq<Event>) -> ChainModel
    decreases es.len(),
{
    if es.len() == 0 {
        m
    } else {
        run_spec(spec_step(m, es[0]), es.skip(1))
    }
}

/// Law: release on every path. Whichever step fails, the machine moves
/// straight to [`Phase::Failed`] with that step's error and keeps the ledger
/// exactly as it was — no acquired handle is forgotten. Together with the
/// contract of [`CloakChain::drain_releases`], every handle acquired before
/// the failure is then released, in reverse acquisition order.
pub proof fn lemma_failure_keeps_every_acquired_handle(m: ChainModel, e: Event)
    requires
        m.wf(),
        expects(m, e),
        is_failure(e),
    ensures
        spec_step(m, e).phase == Phase::Failed,
        spec_step(m, e).error is Some,
        spec_step(m, e).acquired == m.acquired,
{
}

/// Law: the request is carried verbatim. No sequence of reported outcomes,
/// of any length and with any statuses or handles, alters the window handle,
/// the cloak type or the flags that the invocation began with.
pub proof fn lemma_run_preserves_request(m: ChainModel, es: Seq<Event>)
    ensures
        run_spec(m, es).request == m.request,
    decreases es.len(),
{
    if es.len() > 0 {
        lemma_run_preserves_request(spec_step(m, es[0]), es.skip(1));
    }
}

/// Law: argument pass-through. Start an invocation with any request, report
/// any outcomes at all; whenever the machine comes to demand the dynamic
/// invocation, the demanded call carries exactly the `cloak_type` and
/// `flags` of that original request.
pub proof fn lemma_arguments_pass_through(request: CloakRequest, es: Seq<Event>)
    requires
        run_spec(init_model(request), es).wf(),
        run_spec(init_model(request), es).phase == Phase::ViewAcquired,
    ensures
        ({
            let a = spec_next_action(run_spec(init_model(request), es));
            &&& a matches Action::InvokeCloak { view, cloak_type, flags }
            &&& cloak_type == request.cloak_type
            &&& flags == request.flags
        }),
{
    lemma_run_preserves_request(init_model(request), es);
}

/// Law: the machine demands the dynamic invocation only while it holds the
/// view, and a terminal machine expects no further outcome at all — so one
/// invocation of the chain demands the cloak-setting call at most once.
pub proof fn lemma_invoke_demanded_at_most_once(m: ChainModel, e: Event)
    requires
        m.wf(),
    ensures
        spec_next_action(m) matches Action::InvokeCloak { .. } ==> m.phase == Phase::ViewAcquired,
        is_terminal(m.phase) ==> !expects(m, e),
        m.phase == Phase::ViewAcquired && expects(m, e) ==> is_terminal(spec_step(m, e).phase),
{
}

/// Law: an unknown window is a normal failure, not a crash. Run the full
/// chain — apartment up, provider and collection acquired under any nonzero
/// handles — against a window the shell does not track: the machine reports
/// [`CloakError::ViewNotFound`], and the provider and collection handles are
/// still ledgered, untouched and in acquisition order, for release.
pub proof fn lemma_unknown_window_is_normal_failure(
    request: CloakRequest,
    s0: i32,
    s1: i32,
    provider: u64,
    s2: i32,
    collection: u64,
    view: u64,
)
    requires
        s0 >= 0,
        s1 >= 0,
        s2 >= 0,
        provider != 0,
        collection != 0,
    ensures
        ({
            let m = spec_step(
                spec_step(
                    spec_step(
                        spec_step(init_model(request), Event::ApartmentInit { status: s0 }),
                        Event::ProviderCreated { status: s1, provider },
                    ),
                    Event::CollectionQueried { status: s2, collection },
                ),
                Event::ViewLookedUp { found: false, view },
            );
            &&& m.phase == Phase::Failed
            &&& m.error == Some(CloakError::ViewNotFound)
            &&& m.acquired =~= seq![provider, collection]
            &&& m.request == request
        }),
{
}

/// Law: the end-to-end success scenario. Run the full chain with every step
/// succeeding: the step demanded after the view is acquired is the dynamic
/// invocation of exactly the requested `cloak_type` and `flags` on the
/// looked-up view, and the finished machine reports success with precisely
/// the three acquired handles ledgered, in acquisition order, for release.
pub proof fn lemma_full_chain_success(
    request: CloakRequest,
    s0: i32,
    s1: i32,
    provider: u64,
    s2: i32,
    collection: u64,
    view: u64,
    s3: i32,
)
    requires
        s0 >= 0,
        s1 >= 0,
        s2 >= 0,
        s3 >= 0,
        provider != 0,
        collection != 0,
        view != 0,
    ensures
        ({
            let before_invoke = spec_step(
                spec_step(
                    spec_step(
                        spec_step(init_model(request), Event::ApartmentInit { status: s0 }),
                        Event::ProviderCreated { status: s1, provider },
                    ),
                    Event::CollectionQueried { status: s2, collection },
                ),
                Event::ViewLookedUp { found: true, view },
            );
            let done = spec_step(before_invoke, Event::CloakInvoked { status: s3 });
            &&& spec_next_action(before_invoke) == (Action::InvokeCloak {
                view,
                cloak_type: request.cloak_type,
                flags: request.flags,
            })
            &&& done.phase == Phase::CloakSet
            &&& done.error is None
            &&& done.acquired =~= seq![provider, collection, view]
            &&& done.request == request
        }),
{
}

/// One invocation of the cloak chain. See the module documentation for the
/// driving protocol.
pub struct CloakChain {
    phase: Phase,
    request: CloakRequest,
    ledger: Vec<u64>,
    error: Option<CloakError>,
}

impl View for CloakChain {
    type V = ChainModel;

    closed spec fn view(&self) -> ChainModel {
        ChainModel {
            phase: self.phase,
            request: self.request,
            acquired: self.ledger@,
            error: self.error,
        }
    }
}

impl CloakChain {
    /// Begin one invocation for this window with these cloak arguments. The
    /// arguments are carried verbatim: no step of the machine alters them.
    pub fn new(window: u64, cloak_type: u32, flags: i32) -> (c: CloakChain)
        ensures
            c@ == init_model(CloakRequest { window, cloak_type, flags }),
            c@.wf(),
    {
        let c = CloakChain {
            phase: Phase::Uninitialized,
            request: CloakRequest { window, cloak_type, flags },
            ledger: Vec::new(),
            error: None,
        };
        proof {
            assert(c@ =~= init_model(CloakRequest { window, cloak_type, flags }));
        }
        c
    }

    /// Where the invocation stands.
    pub fn phase(&self) -> (p: Phase)
        ensures
            p == self@.phase,
    {
        self.phase
    }

    /// What the caller must do next, exactly as [`spec_next_action`] says of
    /// the current model. In particular, in phase [`Phase::ViewAcquired`] the
    /// returned [`Action::InvokeCloak`] carries the `cloak_type` and `flags`
    /// of the original request, unchanged.
    pub fn next_action(&self) -> (a: Action)
        requires
            self@.wf(),
        ensures
            a == spec_next_action(self@),
    {
        match self.phase {
            Phase::Uninitialized => Action::InitApartment,
            Phase::ApartmentReady => Action::CreateProvider,
            Phase::ProviderAcquired => Action::QueryCollection { provider: self.ledger[0] },
            Phase::CollectionAcquired => Action::LookupView {
                collection: self.ledger[1],
                window: self.request.window,
            },
            Phase::ViewAcquired => Action::InvokeCloak {
                view: self.ledger[2],
                cloak_type: self.request.cloak_type,
                flags: self.request.flags,
            },
            Phase::CloakSet => {
                if self.ledger.len() > 0 { Action::ReleaseAll } else { Action::Report }
            },
            Phase::Failed => {
                if self.ledger.len() > 0 { Action::ReleaseAll } else { Action::Report }
            },
        }
    }

    /// Advance by one reported outcome, exactly as [`spec_step`] says: a
    /// successful acquisition ledgers its handle, any failure records the
    /// step's error and keeps the ledger intact for release.
    pub fn step(&mut self, e: Event)
        requires
            old(self)@.wf(),
            expects(old(self)@, e),
        ensures
            final(self)@ == spec_step(old(self)@, e),
            final(self)@.wf(),
            final(self)@.request == old(self)@.request,
    {
        match e {
            Event::ApartmentInit { status } => {
                if status >= 0 {
                    self.phase = Phase::ApartmentReady;
                } else {
                    self.phase = Phase::Failed;
                    self.error = Some(CloakError::ApartmentInitFailed);
                }
            },
            Event::ProviderCreated { status, provider } => {
                if status >= 0 {
                    self.phase = Phase::ProviderAcquired;
                    self.ledger.push(provider);
                } else {
                    self.phase = Phase::Failed;
                    self.error = Some(CloakError::ServiceUnavailable);
                }
            },
            Event::CollectionQueried { status, collection } => {
                if status >= 0 {
                    self.phase = Phase::CollectionAcquired;
                    self.ledger.push(collection);
                } else {
                    self.phase = Phase::Failed;
                    self.error = Some(CloakError::InterfaceNotSupported);
                }
            },
            Event::ViewLookedUp { found, view } => {
                if found {
                    self.phase = Phase::ViewAcquired;
                    self.ledger.push(view);
                } else {
                    self.phase = Phase::Failed;
                    self.error = Some(CloakError::ViewNotFound);
                }
            },
            Event::CloakInvoked { status } => {
                if status >= 0 {
                    self.phase = Phase::CloakSet;
                } else {
                    self.phase = Phase::Failed;
                    self.error = Some(CloakError::MethodCallFailed(status));
                }
            },
        }
        proof {
            assert(self@ =~= spec_step(old(self)@, e));
        }
    }

    /// Empty the ledger for release. The returned handles are exactly the
    /// ones still held, in reverse acquisition order — the newest first, the
    /// root provider last — and afterwards the machine holds none. Phase,
    /// request and error are untouched.
    pub fn drain_releases(&mut self) -> (hs: Vec<u64>)
        requires
            old(self)@.wf(),
            is_terminal(old(self)@.phase),
        ensures
            final(self)@.wf(),
            final(self)@ == (ChainModel { acquired: Seq::empty(), ..old(self)@ }),
            hs@.len() == old(self)@.acquired.len(),
            forall|i: int| 0 <= i < hs@.len()
                ==> hs@[i] == old(self)@.acquired[old(self)@.acquired.len() - 1 - i],
    {
        let ghost orig = self@;
        let mut hs: Vec<u64> = Vec::new();
        while self.ledger.len() > 0
            invariant
                self@.phase == orig.phase,
                self@.request == orig.request,
                self@.error == orig.error,
                self@.acquired == orig.acquired.take(self@.acquired.len() as int),
                hs@.len() + self@.acquired.len() == orig.acquired.len(),
                forall|i: int| 0 <= i < hs@.len()
                    ==> hs@[i] == orig.acquired[orig.acquired.len() - 1 - i],
            decreases self.ledger.len(),
        {
            let h = self.ledger.pop().unwrap();
            hs.push(h);
        }
        proof {
            assert(self@ =~= (ChainModel { acquired: Seq::empty(), ..orig }));
        }
        hs
    }

    /// The outcome of a finished, fully released invocation: `Ok` exactly
    /// when the chain reached [`Phase::CloakSet`], and otherwise the error of
    /// the step that failed.
    pub fn outcome(&self) -> (r: Result<(), CloakError>)
        requires
            self@.wf(),
            is_terminal(self@.phase),
            self@.acquired.len() == 0,
        ensures
            r == spec_outcome(self@),
            r is Ok <==> self@.phase == Phase::CloakSet,
    {
        match self.error {
            Some(e) => Err(e),
            None => Ok(()),
        }
    }
}

} // verus!
