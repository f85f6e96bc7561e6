//! The start-up procedure that establishes the root of trust and the identity.
//!
//! The procedure is a state machine. It never reads a file or talks to the
//! authority itself: each step names the next action, the embedding program
//! carries it out, and the outcome comes back as the next event. The same
//! procedure serves for renewal; run again while the cached identity is
//! still valid, it changes nothing.

use vstd::prelude::*;
use super::client::{
    created_of, service_request, sign, signed_for, signing_request,
    CertificateAuthorityClientError, CertificateAuthorityClientErrorView, SigningMaterial,
    SigningMaterialView, KEY_NOT_AS_ASKED, NAME_TOO_LONG,
};
use super::expiry::{checked_for, Validity};
use super::{
    bytes_of, choice_of, examined, fetched_of, get_ca_certificate, get_certificate,
    identity_choice, root_choice, BootstrapError, BootstrapErrorView, Identity, IdentityChoice,
    IdentityChoiceView, IdentityView, RootChoice, RootOfTrust,
};
use crate::crypto::{name_fits, CryptoError};

verus! {

/// What the embedding program is asked to do next.
#[derive(Clone, Debug, PartialEq, Eq)]
pub enum Action {
    /// Read the cached root of trust, if there is one.
    LoadRoot,
    /// Ask the authority for its root, presenting the cached one.
    FetchRoot { cached: Option<Vec<u8>> },
    /// Persist this root of trust in place of the cached one.
    SaveRoot { certificate: Vec<u8> },
    /// Read the cached certificate and private key, as far as they exist.
    LoadIdentity,
    /// Settle with [`get_certificate`] whether the cached identity can be
    /// used again.
    Examine { certificate: Option<Vec<u8>>, private_key: Option<Vec<u8>> },
    /// Generate a new key and signing request with [`sign`].
    CreateRequest,
    /// Submit this signing request to the authority.
    Sign { csr: Vec<u8> },
    /// Persist this certificate and this private key in place of the cached
    /// identity, both or neither: if the two cannot both be persisted, the
    /// cached identity stays as it was.
    SaveIdentity { certificate: Vec<u8>, private_key: Vec<u8> },
    /// Done: configure the transport with this root and identity.
    Ready { root: RootOfTrust, identity: Identity },
    /// Done: the identity could not be established.
    Fail(BootstrapError),
}

/// The outcome of an action.
#[derive(Debug, PartialEq, Eq)]
pub enum Event {
    /// Start the procedure.
    Begin,
    /// The cached root of trust, if there is one.
    RootLoaded(Option<Vec<u8>>),
    /// The authority's answer: a new root, none if the cached one stands, or
    /// the failure to obtain an answer.
    RootFetched(Result<Option<Vec<u8>>, CertificateAuthorityClientError>),
    /// Whether the material was persisted, with the reason if it was not.
    Saved(Result<(), String>),
    /// The cached certificate and private key, as far as they exist.
    IdentityLoaded { certificate: Option<Vec<u8>>, private_key: Option<Vec<u8>> },
    /// What [`get_certificate`] settled.
    IdentityExamined(Result<IdentityChoice, BootstrapError>),
    /// What [`sign`] produced.
    RequestCreated(Result<SigningMaterial, CryptoError>),
    /// The certificate that the authority signed, or its refusal.
    Signed(Result<Vec<u8>, CertificateAuthorityClientError>),
}

/// How far the procedure has come, and what it holds on to.
#[derive(Clone, Debug, PartialEq, Eq)]
enum Phase {
    Start,
    LoadingRoot,
    FetchingRoot { cached: Option<Vec<u8>> },
    SavingRoot { root: Vec<u8> },
    LoadingIdentity { root: Vec<u8> },
    Examining { root: Vec<u8> },
    CreatingRequest { root: Vec<u8> },
    Signing { root: Vec<u8>, private_key: Vec<u8> },
    SavingIdentity { root: Vec<u8>, certificate: Vec<u8>, private_key: Vec<u8> },
    Finished,
}

/// The mathematical content of an [`Action`].
pub enum ActionView {
    LoadRoot,
    FetchRoot { cached: Option<Seq<u8>> },
    SaveRoot { certificate: Seq<u8> },
    LoadIdentity,
    Examine { certificate: Option<Seq<u8>>, private_key: Option<Seq<u8>> },
    CreateRequest,
    Sign { csr: Seq<u8> },
    SaveIdentity { certificate: Seq<u8>, private_key: Seq<u8> },
    Ready { root: Seq<u8>, identity: IdentityView },
    Fail(BootstrapErrorView),
}

/// The mathematical content of an [`Event`].
pub enum EventView {
    Begin,
    RootLoaded(Option<Seq<u8>>),
    RootFetched(Result<Option<Seq<u8>>, CertificateAuthorityClientErrorView>),
    Saved(Result<(), Seq<char>>),
    IdentityLoaded { certificate: Option<Seq<u8>>, private_key: Option<Seq<u8>> },
    IdentityExamined(Result<IdentityChoiceView, BootstrapErrorView>),
    RequestCreated(Result<SigningMaterialView, Seq<char>>),
    Signed(Result<Seq<u8>, CertificateAuthorityClientErrorView>),
}

/// The state of the procedure: what it waits for, and what it holds on to.
pub enum State {
    /// Nothing has happened yet.
    Start,
    /// Waiting for the cached root.
    LoadingRoot,
    /// Waiting for the authority's root.
    FetchingRoot { cached: Option<Seq<u8>> },
    /// Waiting for the new root to be persisted.
    SavingRoot { root: Seq<u8> },
    /// Waiting for the cached identity.
    LoadingIdentity { root: Seq<u8> },
    /// Waiting for the verdict on the cached identity.
    Examining { root: Seq<u8> },
    /// Waiting for a new key and signing request.
    CreatingRequest { root: Seq<u8> },
    /// Waiting for the authority to sign the request made with this key.
    Signing { root: Seq<u8>, private_key: Seq<u8> },
    /// Waiting for the new identity to be persisted.
    SavingIdentity { root: Seq<u8>, certificate: Seq<u8>, private_key: Seq<u8> },
    /// The procedure has ended, in `Ready` or in `Fail`.
    Finished,
}

impl View for Action {
    type V = ActionView;

    open spec fn view(&self) -> ActionView {
        match self {
            Action::LoadRoot => ActionView::LoadRoot,
            Action::FetchRoot { cached } => ActionView::FetchRoot { cached: bytes_of(*cached) },
            Action::SaveRoot { certificate } => ActionView::SaveRoot { certificate: certificate@ },
            Action::LoadIdentity => ActionView::LoadIdentity,
            Action::Examine { certificate, private_key } => ActionView::Examine {
                certificate: bytes_of(*certificate),
                private_key: bytes_of(*private_key),
            },
            Action::CreateRequest => ActionView::CreateRequest,
            Action::Sign { csr } => ActionView::Sign { csr: csr@ },
            Action::SaveIdentity { certificate, private_key } => ActionView::SaveIdentity {
                certificate: certificate@,
                private_key: private_key@,
            },
            Action::Ready { root, identity } => ActionView::Ready {
                root: root@,
                identity: identity@,
            },
            Action::Fail(e) => ActionView::Fail(e@),
        }
    }
}

impl View for Event {
    type V = EventView;

    open spec fn view(&self) -> EventView {
        match self {
            Event::Begin => EventView::Begin,
            Event::RootLoaded(cached) => EventView::RootLoaded(bytes_of(*cached)),
            Event::RootFetched(fetched) => EventView::RootFetched(fetched_of(*fetched)),
            Event::Saved(saved) => EventView::Saved(
                match saved {
                    Ok(_) => Ok(()),
                    Err(reason) => Err(reason@),
                },
            ),
            Event::IdentityLoaded { certificate, private_key } => EventView::IdentityLoaded {
                certificate: bytes_of(*certificate),
                private_key: bytes_of(*private_key),
            },
            Event::IdentityExamined(examined) => EventView::IdentityExamined(
                match examined {
                    Ok(choice) => Ok(choice@),
                    Err(e) => Err(e@),
                },
            ),
            Event::RequestCreated(created) => EventView::RequestCreated(
                match created {
                    Ok(material) => Ok(material@),
                    Err(e) => Err(e@),
                },
            ),
            Event::Signed(signed) => EventView::Signed(
                match signed {
                    Ok(certificate) => Ok(certificate@),
                    Err(e) => Err(e@),
                },
            ),
        }
    }
}

impl View for Phase {
    type V = State;

    closed spec fn view(&self) -> State {
        match self {
            Phase::Start => State::Start,
            Phase::LoadingRoot => State::LoadingRoot,
            Phase::FetchingRoot { cached } => State::FetchingRoot { cached: bytes_of(*cached) },
            Phase::SavingRoot { root } => State::SavingRoot { root: root@ },
            Phase::LoadingIdentity { root } => State::LoadingIdentity { root: root@ },
            Phase::Examining { root } => State::Examining { root: root@ },
            Phase::CreatingRequest { root } => State::CreatingRequest { root: root@ },
            Phase::Signing { root, private_key } => State::Signing {
                root: root@,
                private_key: private_key@,
            },
            Phase::SavingIdentity { root, certificate, private_key } => State::SavingIdentity {
                root: root@,
                certificate: certificate@,
                private_key: private_key@,
            },
            Phase::Finished => State::Finished,
        }
    }
}

/// The failure to persist material, for the reason given.
pub open spec fn not_persisted(reason: Seq<char>) -> BootstrapErrorView {
    BootstrapErrorView::Client(CertificateAuthorityClientErrorView::FileSystem(reason))
}

/// The end of the procedure in failure.
pub open spec fn failed(error: BootstrapErrorView) -> (State, ActionView) {
    (State::Finished, ActionView::Fail(error))
}

/// One step of the procedure: the state after `event`, and the action to
/// take next.
///
/// 1. The cached root is loaded and presented to the authority. A root that
///    the authority sends is persisted and used; otherwise the cached root is
///    used. Without either the procedure fails.
/// 2. The cached identity is loaded and examined. If it can be used again,
///    the procedure ends with it.
/// 3. Otherwise a new key and signing request are made, and the request is
///    submitted. The signed certificate and the key are persisted in one
///    action, and the procedure ends with the two. Nothing is persisted
///    unless the authority has signed, and a renewal that fails at any point
///    leaves the cached identity as it was.
///
/// An event that does not answer the action last asked for ends the
/// procedure in failure.
pub open spec fn next(state: State, event: EventView) -> (State, ActionView) {
    match (state, event) {
        (State::Start, EventView::Begin) => (State::LoadingRoot, ActionView::LoadRoot),
        (State::LoadingRoot, EventView::RootLoaded(cached)) => (
            State::FetchingRoot { cached },
            ActionView::FetchRoot { cached },
        ),
        (State::FetchingRoot { cached }, EventView::RootFetched(fetched)) => match root_choice(
            cached,
            fetched,
        ) {
            Ok(choice) => if choice.replaced {
                (
                    State::SavingRoot { root: choice.root },
                    ActionView::SaveRoot { certificate: choice.root },
                )
            } else {
                (State::LoadingIdentity { root: choice.root }, ActionView::LoadIdentity)
            },
            Err(e) => failed(e),
        },
        (State::SavingRoot { root }, EventView::Saved(saved)) => match saved {
            Ok(_) => (State::LoadingIdentity { root }, ActionView::LoadIdentity),
            Err(reason) => failed(not_persisted(reason)),
        },
        (
            State::LoadingIdentity { root },
            EventView::IdentityLoaded { certificate, private_key },
        ) => (State::Examining { root }, ActionView::Examine { certificate, private_key }),
        (State::Examining { root }, EventView::IdentityExamined(examined)) => match examined {
            Ok(IdentityChoiceView::Reuse(identity)) => (
                State::Finished,
                ActionView::Ready { root, identity },
            ),
            Ok(IdentityChoiceView::Renew) => (
                State::CreatingRequest { root },
                ActionView::CreateRequest,
            ),
            Err(e) => failed(e),
        },
        (State::CreatingRequest { root }, EventView::RequestCreated(created)) => match created {
            Ok(material) => (
                State::Signing { root, private_key: material.private_key },
                ActionView::Sign { csr: material.csr },
            ),
            Err(e) => failed(BootstrapErrorView::Crypto(e)),
        },
        (State::Signing { root, private_key }, EventView::Signed(signed)) => match signed {
            Ok(certificate) => (
                State::SavingIdentity { root, certificate, private_key },
                ActionView::SaveIdentity { certificate, private_key },
            ),
            Err(e) => failed(BootstrapErrorView::Client(e)),
        },
        (State::SavingIdentity { root, certificate, private_key }, EventView::Saved(saved)) => {
            match saved {
                Ok(_) => (
                    State::Finished,
                    ActionView::Ready {
                        root,
                        identity: IdentityView { certificate, private_key },
                    },
                ),
                Err(reason) => failed(not_persisted(reason)),
            }
        },
        _ => failed(BootstrapErrorView::UnexpectedEvent),
    }
}

/// A copy of `bytes`.
fn copy_of(bytes: &Vec<u8>) -> (copy: Vec<u8>)
    ensures
        copy@ == bytes@,
{
    let copy = bytes.clone();
    assert(copy@ =~= bytes@);
    copy
}

/// The failure to persist material, for the reason given.
fn persist_failure(reason: String) -> (e: BootstrapError)
    ensures
        e@ == not_persisted(reason@),
{
    BootstrapError::Client(CertificateAuthorityClientError::FileSystem(reason))
}

/// The start-up procedure, at some point of its course.
#[derive(Debug, PartialEq, Eq)]
pub struct Bootstrap {
    phase: Phase,
}

impl View for Bootstrap {
    type V = State;

    closed spec fn view(&self) -> State {
        self.phase@
    }
}

impl Bootstrap {
    /// The procedure before its first step.
    pub fn new() -> (machine: Bootstrap)
        ensures
            machine@ == State::Start,
    {
        Bootstrap { phase: Phase::Start }
    }

    /// Whether the procedure has ended.
    pub fn is_finished(&self) -> (finished: bool)
        ensures
            finished == (self@ is Finished),
    {
        match self.phase {
            Phase::Finished => true,
            _ => false,
        }
    }

    fn fail(error: BootstrapError) -> (r: (Bootstrap, Action))
        ensures
            (r.0@, r.1@) == failed(error@),
    {
        (Bootstrap { phase: Phase::Finished }, Action::Fail(error))
    }

    /// Takes one step: consumes `event` and names the next action.
    pub fn step(self, event: Event) -> (r: (Bootstrap, Action))
        ensures
            (r.0@, r.1@) == next(self@, event@),
    {
        match (self.phase, event) {
            (Phase::Start, Event::Begin) => (
                Bootstrap { phase: Phase::LoadingRoot },
                Action::LoadRoot,
            ),
            (Phase::LoadingRoot, Event::RootLoaded(cached)) => {
                let copy = match &cached {
                    Some(bytes) => Some(copy_of(bytes)),
                    None => None,
                };
                (Bootstrap { phase: Phase::FetchingRoot { cached } }, Action::FetchRoot {
                    cached: copy,
                })
            },
            (Phase::FetchingRoot { cached }, Event::RootFetched(fetched)) => {
                match get_ca_certificate(cached, fetched) {
                    Ok(choice) => {
                        let RootChoice { root, replaced } = choice;
                        let root = root.certificate;
                        if replaced {
                            let certificate = copy_of(&root);
                            (Bootstrap { phase: Phase::SavingRoot { root } }, Action::SaveRoot {
                                certificate,
                            })
                        } else {
                            (
                                Bootstrap { phase: Phase::LoadingIdentity { root } },
                                Action::LoadIdentity,
                            )
                        }
                    },
                    Err(e) => Bootstrap::fail(e),
                }
            },
            (Phase::SavingRoot { root }, Event::Saved(saved)) => match saved {
                Ok(_) => (
                    Bootstrap { phase: Phase::LoadingIdentity { root } },
                    Action::LoadIdentity,
                ),
                Err(reason) => Bootstrap::fail(persist_failure(reason)),
            },
            (Phase::LoadingIdentity { root }, Event::IdentityLoaded { certificate, private_key }) => (
                Bootstrap { phase: Phase::Examining { root } },
                Action::Examine { certificate, private_key },
            ),
            (Phase::Examining { root }, Event::IdentityExamined(examined)) => match examined {
                Ok(IdentityChoice::Reuse(identity)) => (
                    Bootstrap { phase: Phase::Finished },
                    Action::Ready { root: RootOfTrust { certificate: root }, identity },
                ),
                Ok(IdentityChoice::Renew) => (
                    Bootstrap { phase: Phase::CreatingRequest { root } },
                    Action::CreateRequest,
                ),
                Err(e) => Bootstrap::fail(e),
            },
            (Phase::CreatingRequest { root }, Event::RequestCreated(created)) => match created {
                Ok(material) => {
                    let SigningMaterial { csr, private_key } = material;
                    (Bootstrap { phase: Phase::Signing { root, private_key } }, Action::Sign {
                        csr,
                    })
                },
                Err(e) => Bootstrap::fail(BootstrapError::Crypto(e)),
            },
            (Phase::Signing { root, private_key }, Event::Signed(signed)) => match signed {
                Ok(certificate) => {
                    let certificate_copy = copy_of(&certificate);
                    let key_copy = copy_of(&private_key);
                    (
                        Bootstrap {
                            phase: Phase::SavingIdentity { root, certificate, private_key },
                        },
                        Action::SaveIdentity {
                            certificate: certificate_copy,
                            private_key: key_copy,
                        },
                    )
                },
                Err(e) => Bootstrap::fail(BootstrapError::Client(e)),
            },
            (Phase::SavingIdentity { root, certificate, private_key }, Event::Saved(saved)) => {
                match saved {
                    Ok(_) => (
                        Bootstrap { phase: Phase::Finished },
                        Action::Ready {
                            root: RootOfTrust { certificate: root },
                            identity: Identity { certificate, private_key },
                        },
                    ),
                    Err(reason) => Bootstrap::fail(persist_failure(reason)),
                }
            },
            _ => Bootstrap::fail(BootstrapError::UnexpectedEvent),
        }
    }
}

/// Whether an action is for the embedding program to carry out or to end
/// on: every action but `Examine` and `CreateRequest`, which the library
/// carries out itself.
pub open spec fn for_driver(action: ActionView) -> bool {
    !(action is Examine) && !(action is CreateRequest)
}

/// The state and action after `event`, where the library's own work came out
/// as `checked` and `created`: the cached identity is examined when the
/// procedure asks for it, with the check of its certificate giving
/// `checked`, and a request is created when it asks for that.
pub open spec fn next_with(
    state: State,
    event: EventView,
    checked: Result<Validity, Seq<char>>,
    created: Result<SigningMaterialView, Seq<char>>,
) -> (State, ActionView) {
    let first = next(state, event);
    let second = match first.1 {
        ActionView::Examine { certificate, private_key } => next(
            first.0,
            EventView::IdentityExamined(identity_choice(certificate, private_key, checked)),
        ),
        _ => first,
    };
    if second.1 is CreateRequest {
        next(second.0, EventView::RequestCreated(created))
    } else {
        second
    }
}

/// Whether `checked` and `created` are outcomes that the library's own work
/// may have after `event`: `checked` is one that the check may give for the
/// certificate that the procedure asks to examine, if it asks for a complete
/// identity to be examined, and `created` is one that [`sign`] may return
/// for the service's own request.
pub open spec fn admitted(
    state: State,
    event: EventView,
    checked: Result<Validity, Seq<char>>,
    created: Result<SigningMaterialView, Seq<char>>,
) -> bool {
    &&& next(state, event).1 matches ActionView::Examine { certificate, private_key }
        ==> certificate is Some && private_key is Some ==> checked_for(
        certificate->Some_0,
        checked,
    )
    &&& signed_for(service_request(), created)
}

/// Whether the procedure may stand in `after` and ask for `action` once
/// `event` and the library's own work are done.
pub open spec fn advanced(
    state: State,
    event: EventView,
    checked: Result<Validity, Seq<char>>,
    created: Result<SigningMaterialView, Seq<char>>,
    after: State,
    action: ActionView,
) -> bool {
    (after, action) == next_with(state, event, checked, created) && admitted(
        state,
        event,
        checked,
        created,
    )
}

impl Bootstrap {
    /// Takes one step as [`Bootstrap::step`] does, and then carries out what
    /// the library can do itself: it examines the cached identity with
    /// [`get_certificate`] and creates a signing request with [`sign`],
    /// whenever the procedure asks for either.
    ///
    /// The action returned is always one for the embedding program. It is
    /// the one that [`next_with`] gives for outcomes of the library's own
    /// work that [`admitted`] allows: the certificate examined is the one
    /// that was loaded, a certificate that cannot be read ends the procedure
    /// in failure, and a request that is submitted was made for the
    /// service's own subject and key size.
    pub fn advance(self, event: Event) -> (r: (Bootstrap, Action))
        ensures
            for_driver(r.1@),
            exists|
                checked: Result<Validity, Seq<char>>,
                created: Result<SigningMaterialView, Seq<char>>,
            | #[trigger]
                advanced(self@, event@, checked, created, r.0@, r.1@),
    {
        let ghost start = self@;
        let ghost first_event = event@;
        let (machine, action) = self.step(event);
        let ghost mut checked: Result<Validity, Seq<char>> = Ok(Validity::Lapsed);
        let ghost mut created: Result<SigningMaterialView, Seq<char>> = if name_fits(
            service_request().subject,
        ) {
            Err(KEY_NOT_AS_ASKED@)
        } else {
            Err(NAME_TOO_LONG@)
        };
        let (machine, action) = match action {
            Action::Examine { certificate, private_key } => {
                let ghost loaded_certificate = bytes_of(certificate);
                let ghost loaded_key = bytes_of(private_key);
                let verdict = get_certificate(certificate, private_key);
                proof {
                    checked =
                    choose|checked: Result<Validity, Seq<char>>|
                        examined(loaded_certificate, loaded_key, checked, choice_of(verdict));
                }
                machine.step(Event::IdentityExamined(verdict))
            },
            other => (machine, other),
        };
        let (machine, action) = match action {
            Action::CreateRequest => {
                let material = sign(&signing_request());
                proof {
                    created = created_of(material);
                }
                machine.step(Event::RequestCreated(material))
            },
            other => (machine, other),
        };
        assert(advanced(start, first_event, checked, created, machine@, action@));
        (machine, action)
    }
}

} // verus!
