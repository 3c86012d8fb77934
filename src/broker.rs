use vstd::prelude::*;

use crate::store::{insert_session, NewSession, Session, SessionStore};
use crate::upstream::{AuthTicketData, VncProxyData};

verus! {

/// Why minting a session failed.
#[derive(PartialEq, Eq, Structural, Debug, Clone, Copy)]
pub enum MintError {
    /// No bearer token, a token that does not verify, or one without a user.
    Unauthorized,
    /// The service is unknown, not the caller's, or has no node or VM.
    ServiceNotFound,
    /// The control plane refused or failed a ticket request.
    Upstream,
    /// The session store could not take the session, or the flow was driven
    /// out of order.
    Internal,
}

impl MintError {
    pub open spec fn status_spec(self) -> u16 {
        match self {
            MintError::Unauthorized => 401,
            MintError::ServiceNotFound => 500,
            MintError::Upstream => 502,
            MintError::Internal => 500,
        }
    }

    /// The HTTP status the error is answered with.
    pub fn status(&self) -> (r: u16)
        ensures
            r == self.status_spec(),
    {
        match self {
            MintError::Unauthorized => 401,
            MintError::ServiceNotFound => 500,
            MintError::Upstream => 502,
            MintError::Internal => 500,
        }
    }
}

/// What a successful mint hands back: the session handle and the one-time
/// console password, which is not kept anywhere else.
#[derive(Debug)]
pub struct SessionIdReturn {
    pub session_id: i32,
    pub status: String,
    pub password: String,
}

/// Where the directory places a service, as far as it is known.
pub struct ServiceLocation {
    pub proxmox_node: Option<String>,
    pub proxmox_vm_id: Option<String>,
}

/// How far a mint has got, with what it has gathered so far.
#[derive(Debug)]
pub enum MintState {
    Start { service_id: String },
    Verifying { service_id: String },
    Resolving { user_id: String, service_id: String },
    LoggingIn { user_id: String, service_id: String, node: String, vm_id: String },
    Ticketing {
        user_id: String,
        service_id: String,
        node: String,
        vm_id: String,
        control: AuthTicketData,
    },
    Done,
}

/// What a collaborator answered.
pub enum MintEvent {
    /// The request's `Authorization` header, if it had a readable one.
    Header(Option<String>),
    /// The verified caller's user id, or `None` when the token did not verify.
    Identity(Option<String>),
    /// The caller's service, or `None` when the directory has no such service
    /// for that caller.
    Service(Option<ServiceLocation>),
    /// The control-plane login result.
    ControlTicket(Option<AuthTicketData>),
    /// The console ticket result, and the time it arrived in milliseconds.
    ConsoleTicket(Option<VncProxyData>, i64),
}

/// What the caller of the flow is to do next.
#[derive(Debug)]
pub enum MintAction {
    /// Verify this `Authorization` header value.
    VerifyToken(String),
    /// Look up this user's service.
    LookupService { user_id: String, service_id: String },
    /// Log in to the control plane.
    FetchControlTicket,
    /// Ask for a console ticket for this VM with these credentials.
    FetchConsoleTicket { node: String, vm_id: String, ticket: String, csrf_prevention_token: String },
    /// Answer the request; the flow is over.
    Respond(Result<SessionIdReturn, MintError>),
}

/// The answer to a mint of `service_id`: nothing gathered yet.
pub fn begin_mint(service_id: String) -> (r: MintState)
    ensures
        r == (MintState::Start { service_id }),
{
    MintState::Start { service_id }
}

/// The step that `event` takes from `state`, for every step that does not
/// store a session.
pub open spec fn mint_transition(state: MintState, event: MintEvent) -> (MintState, MintAction) {
    match (state, event) {
        (MintState::Start { service_id }, MintEvent::Header(h)) => match h {
            None => (MintState::Done, MintAction::Respond(Err(MintError::Unauthorized))),
            Some(h) => (MintState::Verifying { service_id }, MintAction::VerifyToken(h)),
        },
        (MintState::Verifying { service_id }, MintEvent::Identity(u)) => match u {
            Some(u) if u@.len() > 0 => (
                MintState::Resolving { user_id: u, service_id },
                MintAction::LookupService { user_id: u, service_id },
            ),
            _ => (MintState::Done, MintAction::Respond(Err(MintError::Unauthorized))),
        },
        (MintState::Resolving { user_id, service_id }, MintEvent::Service(found)) => match found {
            Some(ServiceLocation { proxmox_node: Some(node), proxmox_vm_id: Some(vm_id) }) => (
                MintState::LoggingIn { user_id, service_id, node, vm_id },
                MintAction::FetchControlTicket,
            ),
            _ => (MintState::Done, MintAction::Respond(Err(MintError::ServiceNotFound))),
        },
        (MintState::LoggingIn { user_id, service_id, node, vm_id }, MintEvent::ControlTicket(t)) => match t {
            Some(control) => (
                MintState::Ticketing { user_id, service_id, node, vm_id, control },
                MintAction::FetchConsoleTicket {
                    node,
                    vm_id,
                    ticket: control.ticket,
                    csrf_prevention_token: control.csrf_prevention_token,
                },
            ),
            None => (MintState::Done, MintAction::Respond(Err(MintError::Upstream))),
        },
        (MintState::Ticketing { .. }, MintEvent::ConsoleTicket(None, _)) => (
            MintState::Done,
            MintAction::Respond(Err(MintError::Upstream)),
        ),
        _ => (MintState::Done, MintAction::Respond(Err(MintError::Internal))),
    }
}

/// The one step that stores a session: a console ticket arriving while the
/// flow waits for it.
pub open spec fn stores_session(state: MintState, event: MintEvent) -> bool {
    state is Ticketing && event is ConsoleTicket && event->ConsoleTicket_0 is Some
}

/// The session that the storing step records.
pub open spec fn session_to_store(state: MintState, event: MintEvent) -> NewSession {
    NewSession {
        user_id: state->Ticketing_user_id,
        service_id: state->Ticketing_service_id,
        proxmox_node: state->Ticketing_node,
        proxmox_vm_id: state->Ticketing_vm_id,
        proxmox_csrf_prevention_token: state->Ticketing_control.csrf_prevention_token,
        proxmox_auth_cookie: state->Ticketing_control.ticket,
        vnc_token: event->ConsoleTicket_0->Some_0.ticket,
        port: event->ConsoleTicket_0->Some_0.port,
        connection_date: event->ConsoleTicket_1,
    }
}

/// Advances a mint by one collaborator answer.
pub fn mint_step(store: &mut SessionStore, state: MintState, event: MintEvent) -> (r: (MintState, MintAction))
    requires
        old(store).wf(),
    ensures
        final(store).wf(),
        !stores_session(state, event) ==> {
            &&& *final(store) == *old(store)
            &&& r == mint_transition(state, event)
        },
        stores_session(state, event) ==> {
            &&& r.0 is Done
            &&& r.1 is Respond
            &&& (r.1->Respond_0 is Ok <==> old(store).next_id() < i32::MAX)
            &&& r.1->Respond_0 is Ok ==> {
                let answer = r.1->Respond_0->Ok_0;
                &&& answer.session_id == old(store).next_id()
                &&& answer.status@ == "200"@
                &&& answer.password == event->ConsoleTicket_0->Some_0.password
                &&& final(store).sessions() == old(store).sessions().insert(
                    answer.session_id as int,
                    Session::from_new(session_to_store(state, event), answer.session_id),
                )
            }
            &&& r.1->Respond_0 is Err ==> {
                &&& r.1->Respond_0->Err_0 == MintError::Internal
                &&& *final(store) == *old(store)
            }
        },
{
    match (state, event) {
        (MintState::Start { service_id }, MintEvent::Header(h)) => match h {
            None => (MintState::Done, MintAction::Respond(Err(MintError::Unauthorized))),
            Some(h) => (MintState::Verifying { service_id }, MintAction::VerifyToken(h)),
        },
        (MintState::Verifying { service_id }, MintEvent::Identity(u)) => match u {
            Some(u) => {
                if u.as_str().is_empty() {
                    (MintState::Done, MintAction::Respond(Err(MintError::Unauthorized)))
                } else {
                    let action = MintAction::LookupService { user_id: u.clone(), service_id: service_id.clone() };
                    (MintState::Resolving { user_id: u, service_id }, action)
                }
            },
            None => (MintState::Done, MintAction::Respond(Err(MintError::Unauthorized))),
        },
        (MintState::Resolving { user_id, service_id }, MintEvent::Service(found)) => match found {
            Some(ServiceLocation { proxmox_node: Some(node), proxmox_vm_id: Some(vm_id) }) => (
                MintState::LoggingIn { user_id, service_id, node, vm_id },
                MintAction::FetchControlTicket,
            ),
            _ => (MintState::Done, MintAction::Respond(Err(MintError::ServiceNotFound))),
        },
        (MintState::LoggingIn { user_id, service_id, node, vm_id }, MintEvent::ControlTicket(t)) => match t {
            Some(control) => {
                let action = MintAction::FetchConsoleTicket {
                    node: node.clone(),
                    vm_id: vm_id.clone(),
                    ticket: control.ticket.clone(),
                    csrf_prevention_token: control.csrf_prevention_token.clone(),
                };
                (MintState::Ticketing { user_id, service_id, node, vm_id, control }, action)
            },
            None => (MintState::Done, MintAction::Respond(Err(MintError::Upstream))),
        },
        (MintState::Ticketing { user_id, service_id, node, vm_id, control }, MintEvent::ConsoleTicket(c, now)) => match c {
            Some(console) => {
                let new_session = NewSession {
                    user_id,
                    service_id,
                    proxmox_node: node,
                    proxmox_vm_id: vm_id,
                    proxmox_csrf_prevention_token: control.csrf_prevention_token,
                    proxmox_auth_cookie: control.ticket,
                    vnc_token: console.ticket,
                    port: console.port,
                    connection_date: now,
                };
                match insert_session(store, new_session) {
                    Ok(id) => {
                        let answer = SessionIdReturn {
                            session_id: id,
                            status: String::from_str("200"),
                            password: console.password,
                        };
                        (MintState::Done, MintAction::Respond(Ok(answer)))
                    },
                    Err(_) => (MintState::Done, MintAction::Respond(Err(MintError::Internal))),
                }
            },
            None => (MintState::Done, MintAction::Respond(Err(MintError::Upstream))),
        },
        _ => (MintState::Done, MintAction::Respond(Err(MintError::Internal))),
    }
}


/// A mint that verifies a non-empty user id, finds the service with a node
/// and a VM, and obtains both tickets stores a session owned by that user,
/// for that service and VM.
pub proof fn lemma_minted_session_owned_by_caller(
    service_id: String,
    header: String,
    user_id: String,
    node: String,
    vm_id: String,
    control: AuthTicketData,
    console: VncProxyData,
    now: i64,
    id: i32,
)
    requires
        user_id@.len() > 0,
    ensures
        ({
            let (s1, a1) = mint_transition(MintState::Start { service_id }, MintEvent::Header(Some(header)));
            let (s2, a2) = mint_transition(s1, MintEvent::Identity(Some(user_id)));
            let location = ServiceLocation { proxmox_node: Some(node), proxmox_vm_id: Some(vm_id) };
            let (s3, a3) = mint_transition(s2, MintEvent::Service(Some(location)));
            let (s4, a4) = mint_transition(s3, MintEvent::ControlTicket(Some(control)));
            let last = MintEvent::ConsoleTicket(Some(console), now);
            let stored = Session::from_new(session_to_store(s4, last), id);
            &&& a1 == MintAction::VerifyToken(header)
            &&& a2 == (MintAction::LookupService { user_id, service_id })
            &&& a3 is FetchControlTicket
            &&& a4 is FetchConsoleTicket
            &&& stores_session(s4, last)
            &&& stored.user_id == user_id
            &&& stored.service_id == service_id
            &&& stored.proxmox_node == node
            &&& stored.proxmox_vm_id == vm_id
            &&& stored.vnc_token == console.ticket
        }),
{
}

/// A request without an `Authorization` header, or whose token does not
/// verify to a user, is answered unauthorized and the mint is over: no
/// later answer makes it ask for a ticket or store a session.
pub proof fn lemma_unauthorized_mint_is_final(service_id: String, identity: Option<String>, later: MintEvent)
    requires
        identity is None || identity->Some_0@.len() == 0,
    ensures
        mint_transition(MintState::Start { service_id }, MintEvent::Header(None))
            == (MintState::Done, MintAction::Respond(Err(MintError::Unauthorized))),
        mint_transition(MintState::Verifying { service_id }, MintEvent::Identity(identity))
            == (MintState::Done, MintAction::Respond(Err(MintError::Unauthorized))),
        !stores_session(MintState::Done, later),
        mint_transition(MintState::Done, later).0 is Done,
        mint_transition(MintState::Done, later).1 is Respond,
{
}

} // verus!
