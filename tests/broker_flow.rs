use vnc_relay::broker::{begin_mint, mint_step, MintAction, MintError, MintEvent, MintState, ServiceLocation};
use vnc_relay::store::{get_session, new, SessionStore};
use vnc_relay::upstream::{AuthTicketData, VncProxyData};

fn control() -> AuthTicketData {
    AuthTicketData { ticket: "PVE:svc@pve:TICKET".to_string(), csrf_prevention_token: "CSRF1".to_string() }
}

fn console() -> VncProxyData {
    VncProxyData { port: "5901".to_string(), ticket: "PVEVNC:XYZ".to_string(), password: "pw-123".to_string() }
}

fn located() -> ServiceLocation {
    ServiceLocation { proxmox_node: Some("pve1".to_string()), proxmox_vm_id: Some("101".to_string()) }
}

fn run_to_lookup(store: &mut SessionStore) -> MintState {
    let s = begin_mint("svc-9".to_string());
    let (s, a) = mint_step(store, s, MintEvent::Header(Some("Bearer abc".to_string())));
    assert!(matches!(a, MintAction::VerifyToken(ref h) if h == "Bearer abc"));
    let (s, a) = mint_step(store, s, MintEvent::Identity(Some("user-7".to_string())));
    match a {
        MintAction::LookupService { user_id, service_id } => {
            assert_eq!(user_id, "user-7");
            assert_eq!(service_id, "svc-9");
        }
        other => panic!("unexpected {:?}", other),
    }
    s
}

#[test]
fn full_mint_stores_session_for_caller() {
    let mut store = new();
    let s = run_to_lookup(&mut store);
    let (s, a) = mint_step(&mut store, s, MintEvent::Service(Some(located())));
    assert!(matches!(a, MintAction::FetchControlTicket));
    let (s, a) = mint_step(&mut store, s, MintEvent::ControlTicket(Some(control())));
    match a {
        MintAction::FetchConsoleTicket { node, vm_id, ticket, csrf_prevention_token } => {
            assert_eq!(node, "pve1");
            assert_eq!(vm_id, "101");
            assert_eq!(ticket, "PVE:svc@pve:TICKET");
            assert_eq!(csrf_prevention_token, "CSRF1");
        }
        other => panic!("unexpected {:?}", other),
    }
    let (s, a) = mint_step(&mut store, s, MintEvent::ConsoleTicket(Some(console()), 1234));
    assert!(matches!(s, MintState::Done));
    let answer = match a {
        MintAction::Respond(Ok(answer)) => answer,
        other => panic!("unexpected {:?}", other),
    };
    assert_eq!(answer.session_id, 1);
    assert_eq!(answer.status, "200");
    assert_eq!(answer.password, "pw-123");
    let stored = get_session(&store, "1").unwrap();
    assert_eq!(stored.user_id, "user-7");
    assert_eq!(stored.service_id, "svc-9");
    assert_eq!(stored.proxmox_node, "pve1");
    assert_eq!(stored.proxmox_vm_id, "101");
    assert_eq!(stored.proxmox_auth_cookie, "PVE:svc@pve:TICKET");
    assert_eq!(stored.proxmox_csrf_prevention_token, "CSRF1");
    assert_eq!(stored.vnc_token, "PVEVNC:XYZ");
    assert_eq!(stored.port, "5901");
    assert_eq!(stored.connection_date, 1234);
}

#[test]
fn missing_authorization_is_unauthorized_and_final() {
    let mut store = new();
    let (s, a) = mint_step(&mut store, begin_mint("svc".to_string()), MintEvent::Header(None));
    assert!(matches!(a, MintAction::Respond(Err(MintError::Unauthorized))));
    assert!(matches!(s, MintState::Done));
    let (s, a) = mint_step(&mut store, s, MintEvent::ConsoleTicket(Some(console()), 1));
    assert!(matches!(s, MintState::Done));
    assert!(matches!(a, MintAction::Respond(Err(MintError::Internal))));
    assert!(get_session(&store, "1").is_none());
}

#[test]
fn invalid_or_empty_identity_is_unauthorized() {
    let mut store = new();
    let (s, _) = mint_step(&mut store, begin_mint("svc".to_string()), MintEvent::Header(Some("Bearer x".to_string())));
    let (_, a) = mint_step(&mut store, s, MintEvent::Identity(None));
    assert!(matches!(a, MintAction::Respond(Err(MintError::Unauthorized))));
    let (s, _) = mint_step(&mut store, begin_mint("svc".to_string()), MintEvent::Header(Some("Bearer x".to_string())));
    let (_, a) = mint_step(&mut store, s, MintEvent::Identity(Some(String::new())));
    assert!(matches!(a, MintAction::Respond(Err(MintError::Unauthorized))));
    assert!(get_session(&store, "1").is_none());
}

#[test]
fn unknown_service_or_missing_coordinates_is_not_found() {
    let mut store = new();
    let s = run_to_lookup(&mut store);
    let (_, a) = mint_step(&mut store, s, MintEvent::Service(None));
    assert!(matches!(a, MintAction::Respond(Err(MintError::ServiceNotFound))));
    let s = run_to_lookup(&mut store);
    let partial = ServiceLocation { proxmox_node: Some("pve1".to_string()), proxmox_vm_id: None };
    let (_, a) = mint_step(&mut store, s, MintEvent::Service(Some(partial)));
    assert!(matches!(a, MintAction::Respond(Err(MintError::ServiceNotFound))));
}

#[test]
fn ticket_failures_are_upstream_errors_and_store_nothing() {
    let mut store = new();
    let s = run_to_lookup(&mut store);
    let (s, _) = mint_step(&mut store, s, MintEvent::Service(Some(located())));
    let (_, a) = mint_step(&mut store, s, MintEvent::ControlTicket(None));
    assert!(matches!(a, MintAction::Respond(Err(MintError::Upstream))));
    let s = run_to_lookup(&mut store);
    let (s, _) = mint_step(&mut store, s, MintEvent::Service(Some(located())));
    let (s, _) = mint_step(&mut store, s, MintEvent::ControlTicket(Some(control())));
    let (_, a) = mint_step(&mut store, s, MintEvent::ConsoleTicket(None, 5));
    assert!(matches!(a, MintAction::Respond(Err(MintError::Upstream))));
    assert!(get_session(&store, "1").is_none());
}

#[test]
fn out_of_order_answer_is_internal_error() {
    let mut store = new();
    let (_, a) = mint_step(&mut store, begin_mint("svc".to_string()), MintEvent::ControlTicket(Some(control())));
    assert!(matches!(a, MintAction::Respond(Err(MintError::Internal))));
}

#[test]
fn mint_error_statuses() {
    assert_eq!(MintError::Unauthorized.status(), 401);
    assert_eq!(MintError::ServiceNotFound.status(), 500);
    assert_eq!(MintError::Upstream.status(), 502);
    assert_eq!(MintError::Internal.status(), 500);
}
