//! A model of what surrounds the start-up procedure, and what holds of every
//! run of the procedure in it.
//!
//! The model is a store that hands back what was last written to it, where
//! each write may fail on its own and a failed write changes nothing, and
//! surroundings that give one fixed answer to each kind of question: the
//! authority's root, the validity of the cached certificate at this moment,
//! the new key and request, and the signed certificate.

use vstd::prelude::*;
use super::bootstrap::{next, not_persisted, ActionView, EventView, State};
use super::client::{CertificateAuthorityClientErrorView, SigningMaterialView};
use super::expiry::Validity;
use super::{identity_choice, BootstrapErrorView, IdentityChoiceView, IdentityView};

verus! {

/// The persisted material.
pub struct Store {
    pub root: Option<Seq<u8>>,
    pub certificate: Option<Seq<u8>>,
    pub private_key: Option<Seq<u8>>,
}

/// What the world outside the store answers during one run.
pub struct Surroundings {
    /// The authority's answer to the request for its root.
    pub fetched: Result<Option<Seq<u8>>, CertificateAuthorityClientErrorView>,
    /// The validity of the cached certificate at this moment.
    pub validity: Result<Validity, Seq<char>>,
    /// The new key and signing request, if one is made.
    pub created: Result<SigningMaterialView, Seq<char>>,
    /// The authority's answer to the signing request.
    pub signed: Result<Seq<u8>, CertificateAuthorityClientErrorView>,
    /// Why the root of trust cannot be persisted, if it cannot.
    pub root_write_failure: Option<Seq<char>>,
    /// Why the identity cannot be persisted, if it cannot.
    pub identity_write_failure: Option<Seq<char>>,
}

/// How a run ended.
pub struct Run {
    /// The store after the run.
    pub store: Store,
    /// The action on which the run ended.
    pub end: ActionView,
    /// How many signing requests were submitted to the authority.
    pub signings: nat,
}

/// The most steps that a run takes.
pub open spec fn max_steps() -> nat {
    9
}

/// The outcome of a write that would turn the store into `written`, and
/// that fails for the reason given, if one is given. A write that fails
/// leaves the store as it was.
pub open spec fn write(store: Store, failure: Option<Seq<char>>, written: Store) -> (
    Store,
    EventView,
) {
    match failure {
        None => (written, EventView::Saved(Ok(()))),
        Some(reason) => (store, EventView::Saved(Err(reason))),
    }
}

/// The store after `action` was carried out, and the event that reports it.
pub open spec fn carry_out(store: Store, around: Surroundings, action: ActionView) -> (
    Store,
    EventView,
) {
    match action {
        ActionView::LoadRoot => (store, EventView::RootLoaded(store.root)),
        ActionView::FetchRoot { cached } => (store, EventView::RootFetched(around.fetched)),
        ActionView::SaveRoot { certificate } => write(
            store,
            around.root_write_failure,
            Store { root: Some(certificate), ..store },
        ),
        ActionView::LoadIdentity => (
            store,
            EventView::IdentityLoaded {
                certificate: store.certificate,
                private_key: store.private_key,
            },
        ),
        ActionView::Examine { certificate, private_key } => (
            store,
            EventView::IdentityExamined(identity_choice(certificate, private_key, around.validity)),
        ),
        ActionView::CreateRequest => (store, EventView::RequestCreated(around.created)),
        ActionView::Sign { csr } => (store, EventView::Signed(around.signed)),
        ActionView::SaveIdentity { certificate, private_key } => write(
            store,
            around.identity_write_failure,
            Store { certificate: Some(certificate), private_key: Some(private_key), ..store },
        ),
        ActionView::Ready { .. } => (store, EventView::Begin),
        ActionView::Fail(_) => (store, EventView::Begin),
    }
}

/// The run that continues from `state` with `event`, for at most `steps`
/// further steps.
pub open spec fn run_from(
    state: State,
    event: EventView,
    store: Store,
    around: Surroundings,
    signings: nat,
    steps: nat,
) -> Run
    decreases steps,
{
    let (after, action) = next(state, event);
    let signings = if action is Sign {
        signings + 1
    } else {
        signings
    };
    if action is Ready || action is Fail || steps == 0 {
        Run { store, end: action, signings }
    } else {
        let (store, event) = carry_out(store, around, action);
        run_from(after, event, store, around, signings, (steps - 1) as nat)
    }
}

/// The run of the whole procedure on `store` in `around`.
pub open spec fn bootstrap(store: Store, around: Surroundings) -> Run {
    run_from(State::Start, EventView::Begin, store, around, 0, max_steps())
}

/// Whether a root of trust can be had: the authority sends one and it can be
/// persisted, or the authority sends none, or cannot be asked, and one is
/// cached.
pub open spec fn root_available(store: Store, around: Surroundings) -> bool {
    match around.fetched {
        Ok(Some(_)) => around.root_write_failure is None,
        _ => store.root is Some,
    }
}

/// The root of trust that a run uses, where one can be had.
pub open spec fn root_in_use(store: Store, around: Surroundings) -> Seq<u8> {
    match around.fetched {
        Ok(Some(root)) => root,
        _ => store.root->Some_0,
    }
}

/// Every run ends, in `Ready` or in `Fail`, within the steps allowed.
pub proof fn lemma_run_ends(store: Store, around: Surroundings)
    ensures
        bootstrap(store, around).end is Ready || bootstrap(store, around).end is Fail,
{
    reveal_with_fuel(run_from, 10);
}

/// The identity with which a run ended, if it ended in `Ready`.
pub open spec fn identity_at_end(run: Run) -> Option<IdentityView> {
    match run.end {
        ActionView::Ready { root, identity } => Some(identity),
        _ => None,
    }
}

/// Run with a cached identity that is still valid, the procedure submits no
/// signing request and leaves the cached identity as it was, and if it ends
/// in `Ready` it ends with exactly that identity. It does end in `Ready`
/// whenever a root of trust is available. Run a second time on what the
/// first run left, while the identity is still valid, the same holds again:
/// both runs give the same identity, and neither submits anything.
pub proof fn lemma_valid_identity_is_reused(
    store: Store,
    around: Surroundings,
    later: Surroundings,
    certificate: Seq<u8>,
    private_key: Seq<u8>,
)
    requires
        store.certificate == Some(certificate),
        store.private_key == Some(private_key),
        around.validity == Ok::<Validity, Seq<char>>(Validity::Current),
        later.validity == Ok::<Validity, Seq<char>>(Validity::Current),
    ensures
        bootstrap(store, around).signings == 0,
        bootstrap(store, around).store.certificate == store.certificate,
        bootstrap(store, around).store.private_key == store.private_key,
        bootstrap(store, around).end is Ready ==> identity_at_end(bootstrap(store, around))
            == Some(IdentityView { certificate, private_key }),
        root_available(store, around) ==> bootstrap(store, around).end == (ActionView::Ready {
            root: root_in_use(store, around),
            identity: IdentityView { certificate, private_key },
        }),
        bootstrap(bootstrap(store, around).store, later).signings == 0,
        bootstrap(bootstrap(store, around).store, later).end is Ready ==> identity_at_end(
            bootstrap(bootstrap(store, around).store, later),
        ) == Some(IdentityView { certificate, private_key }),
        root_available(store, around) && root_available(bootstrap(store, around).store, later)
            ==> identity_at_end(bootstrap(bootstrap(store, around).store, later))
            == identity_at_end(bootstrap(store, around)) && bootstrap(
            bootstrap(store, around).store,
            later,
        ).end is Ready,
{
    reveal_with_fuel(run_from, 10);
}

/// Whether the run ended with a renewed identity: one signing request was
/// submitted, and the certificate that the authority signed and the key
/// that was generated for the request are what the run ended with and what
/// the store holds.
pub open spec fn renewed(store: Store, around: Surroundings) -> bool {
    &&& bootstrap(store, around).signings == 1
    &&& around.created matches Ok(material)
    &&& around.signed matches Ok(certificate)
    &&& identity_at_end(bootstrap(store, around)) == Some(
        IdentityView { certificate, private_key: material.private_key },
    )
    &&& bootstrap(store, around).store.certificate == Some(certificate)
    &&& bootstrap(store, around).store.private_key == Some(material.private_key)
}

/// Run with a cached identity whose certificate has lapsed, or with none,
/// the procedure never submits more than one signing request, and submits
/// exactly one if a root of trust is available and a request can be made.
/// If it ends in `Ready`, it ends with the certificate that the authority
/// signed and the key that was generated for this request, and the store
/// holds both by then. It does end in `Ready` whenever a root of trust is
/// available, the authority signs, and the identity can be persisted.
pub proof fn lemma_lapsed_identity_is_renewed(store: Store, around: Surroundings)
    requires
        identity_choice(store.certificate, store.private_key, around.validity) == Ok::<
            IdentityChoiceView,
            BootstrapErrorView,
        >(IdentityChoiceView::Renew),
    ensures
        bootstrap(store, around).signings <= 1,
        root_available(store, around) && around.created is Ok ==> bootstrap(
            store,
            around,
        ).signings == 1,
        bootstrap(store, around).end is Ready ==> renewed(store, around),
        root_available(store, around) && around.created is Ok && around.signed is Ok
            && around.identity_write_failure is None ==> bootstrap(store, around).end is Ready,
{
    reveal_with_fuel(run_from, 10);
}

/// If the authority cannot be asked for its root but a root is cached, the
/// procedure goes on with the cached root: it never fails for want of a
/// root, it leaves the cached root as it was, and it ends in `Ready` with
/// that root whenever the identity can be had, by reuse or by signing.
pub proof fn lemma_cached_root_survives_failed_fetch(
    store: Store,
    around: Surroundings,
    root: Seq<u8>,
)
    requires
        around.fetched is Err,
        store.root == Some(root),
    ensures
        !(bootstrap(store, around).end matches ActionView::Fail(
            BootstrapErrorView::NoRootOfTrust(_),
        )),
        bootstrap(store, around).store.root == store.root,
        bootstrap(store, around).end matches ActionView::Ready { root: used, .. } ==> used == root,
        identity_choice(store.certificate, store.private_key, around.validity) matches Ok(
            IdentityChoiceView::Reuse(identity),
        ) ==> bootstrap(store, around).end == (ActionView::Ready { root, identity }),
        identity_choice(store.certificate, store.private_key, around.validity) matches Ok(
            IdentityChoiceView::Renew,
        ) && around.created is Ok && around.signed is Ok && around.identity_write_failure
            is None ==> bootstrap(store, around).end is Ready,
{
    reveal_with_fuel(run_from, 10);
}

/// Without a cached root and without one from the authority the procedure
/// fails at once for want of a root of trust, and touches nothing.
pub proof fn lemma_no_root_is_fatal(store: Store, around: Surroundings)
    requires
        store.root is None,
        !(around.fetched matches Ok(Some(_))),
    ensures
        bootstrap(store, around).end matches ActionView::Fail(BootstrapErrorView::NoRootOfTrust(_)),
        bootstrap(store, around).store == store,
        bootstrap(store, around).signings == 0,
{
    reveal_with_fuel(run_from, 10);
}

/// A run that ends in failure leaves the cached identity as it was, wherever
/// it failed: certificate and key are those that the store held before. In
/// particular a renewal is all or nothing. If no request could be made, if
/// the authority does not sign, or if the signed identity cannot be
/// persisted, the run fails and the store still holds the old certificate
/// with the old key.
pub proof fn lemma_failed_run_keeps_identity(store: Store, around: Surroundings)
    ensures
        bootstrap(store, around).end is Fail ==> bootstrap(store, around).store.certificate
            == store.certificate && bootstrap(store, around).store.private_key
            == store.private_key,
        identity_choice(store.certificate, store.private_key, around.validity) matches Ok(
            IdentityChoiceView::Renew,
        ) && (around.created is Err || around.signed is Err || around.identity_write_failure
            is Some) ==> bootstrap(store, around).end is Fail,
        around.signed is Ok && around.identity_write_failure is Some && bootstrap(
            store,
            around,
        ).signings == 1 ==> bootstrap(store, around).end == ActionView::Fail(
            not_persisted(around.identity_write_failure->Some_0),
        ),
{
    reveal_with_fuel(run_from, 10);
}

/// Certificate and key are only ever replaced together: after any run the
/// store holds either the pair it held before or the pair that the run
/// ended with.
pub proof fn lemma_identity_is_replaced_as_a_whole(store: Store, around: Surroundings)
    ensures
        (bootstrap(store, around).store.certificate == store.certificate && bootstrap(
            store,
            around,
        ).store.private_key == store.private_key) || (identity_at_end(bootstrap(store, around))
            matches Some(identity) && bootstrap(store, around).store.certificate == Some(
            identity.certificate,
        ) && bootstrap(store, around).store.private_key == Some(identity.private_key)),
{
    reveal_with_fuel(run_from, 10);
}

} // verus!
