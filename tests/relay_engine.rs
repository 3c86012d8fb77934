use vnc_relay::relay::{admit_tunnel, continue_after_send, dial_finished, forward_frame, tunnel_params, Forward, Frame, RelayError};
use vnc_relay::store::{get_session, insert_session, new, NewSession, SessionStore};
use vnc_relay::upstream::{auth_cookie, auth_ticket_url, vnc_proxy_url, AuthTicketResponse, AuthTicketData, VncProxyData, VncProxyResponse};

fn store_with_alice() -> SessionStore {
    let mut store = new();
    insert_session(
        &mut store,
        NewSession {
            user_id: "alice".to_string(),
            service_id: "svc-1".to_string(),
            proxmox_node: "pve1".to_string(),
            proxmox_vm_id: "101".to_string(),
            proxmox_csrf_prevention_token: "CSRF1".to_string(),
            proxmox_auth_cookie: "PVE:root@pam:AB".to_string(),
            vnc_token: "PVEVNC:AB+/=".to_string(),
            port: "5900".to_string(),
            connection_date: 7,
        },
    )
    .unwrap();
    store
}

#[test]
fn missing_parameters_are_bad_request() {
    assert_eq!(tunnel_params(None, Some("tok".to_string())).unwrap_err(), RelayError::BadRequest);
    assert_eq!(tunnel_params(Some("1".to_string()), None).unwrap_err(), RelayError::BadRequest);
    assert_eq!(tunnel_params(None, None).unwrap_err(), RelayError::BadRequest);
    let p = tunnel_params(Some("1".to_string()), Some("tok".to_string())).unwrap();
    assert_eq!(p.session_id, "1");
    assert_eq!(p.bearer, "Bearer tok");
}

#[test]
fn unverified_token_is_unauthorized_and_keeps_session() {
    let mut store = store_with_alice();
    let r = admit_tunnel(&mut store, "1", None, "pve.example", &[0u8; 16]);
    assert_eq!(r.unwrap_err(), RelayError::Unauthorized);
    assert!(get_session(&store, "1").is_some());
}

#[test]
fn admitted_tunnel_dials_console_with_session_credentials() {
    let mut store = store_with_alice();
    let req = admit_tunnel(&mut store, "1", Some("alice".to_string()), "pve.example", &[0u8; 16]).unwrap();
    assert_eq!(
        req.url,
        "wss://pve.example/api2/json/nodes/pve1/qemu/101/vncwebsocket?port=5900&vncticket=PVEVNC%3AAB%2B%2F%3D"
    );
    let expected: Vec<(&str, &str)> = vec![
        ("cookie", "PVEAuthCookie=PVE:root@pam:AB"),
        ("CSRFPreventionToken", "CSRF1"),
        ("X-Requested-By", "actix-proxy"),
        ("Host", "pve.example:8006"),
        ("Origin", "https://pve.example:8006"),
        ("Sec-WebSocket-Protocol", "binary"),
        ("sec-websocket-key", "AAAAAAAAAAAAAAAAAAAAAA=="),
        ("sec-websocket-version", "13"),
        ("connection", "Upgrade"),
        ("upgrade", "websocket"),
    ];
    assert_eq!(req.headers.len(), expected.len());
    for (got, want) in req.headers.iter().zip(expected.iter()) {
        assert_eq!(got.0, want.0);
        assert_eq!(got.1, want.1);
    }
    assert!(get_session(&store, "1").is_none());
}

#[test]
fn second_tunnel_with_same_handle_is_bad_request() {
    let mut store = store_with_alice();
    assert!(admit_tunnel(&mut store, "1", Some("alice".to_string()), "h", &[1u8; 16]).is_ok());
    let again = admit_tunnel(&mut store, "1", Some("alice".to_string()), "h", &[1u8; 16]);
    assert_eq!(again.unwrap_err(), RelayError::BadRequest);
}

#[test]
fn foreign_identity_is_bad_request_and_owner_can_still_redeem() {
    let mut store = store_with_alice();
    let r = admit_tunnel(&mut store, "1", Some("mallory".to_string()), "h", &[1u8; 16]);
    assert_eq!(r.unwrap_err(), RelayError::BadRequest);
    assert!(get_session(&store, "1").is_some());
    assert!(admit_tunnel(&mut store, "1", Some("alice".to_string()), "h", &[1u8; 16]).is_ok());
}

#[test]
fn failed_dial_is_bad_gateway_and_session_is_gone() {
    let mut store = store_with_alice();
    assert!(admit_tunnel(&mut store, "1", Some("alice".to_string()), "unreachable.invalid", &[2u8; 16]).is_ok());
    let outcome = dial_finished(false);
    assert_eq!(outcome.unwrap_err(), RelayError::BadGateway);
    assert_eq!(RelayError::BadGateway.status(), 502);
    assert!(get_session(&store, "1").is_none());
    let retry = admit_tunnel(&mut store, "1", Some("alice".to_string()), "h", &[2u8; 16]);
    assert_eq!(retry.unwrap_err(), RelayError::BadRequest);
    assert_eq!(dial_finished(true), Ok(()));
}

#[test]
fn relay_error_statuses() {
    assert_eq!(RelayError::BadRequest.status(), 400);
    assert_eq!(RelayError::Unauthorized.status(), 401);
    assert_eq!(RelayError::BadGateway.status(), 502);
}

#[test]
fn frames_pass_through_unchanged_both_ways() {
    let x = vec![0u8, 1, 2, 255];
    assert_eq!(forward_frame(Frame::Binary(x.clone())), Forward { send: Some(Frame::Binary(x)), stop: false });
    let y = vec![9u8, 8, 7];
    assert_eq!(forward_frame(Frame::Binary(y.clone())), Forward { send: Some(Frame::Binary(y)), stop: false });
    assert_eq!(
        forward_frame(Frame::Text("hello".to_string())),
        Forward { send: Some(Frame::Text("hello".to_string())), stop: false }
    );
    assert_eq!(forward_frame(Frame::Ping(vec![3])), Forward { send: Some(Frame::Ping(vec![3])), stop: false });
    assert_eq!(forward_frame(Frame::Pong(vec![3])), Forward { send: None, stop: false });
}

#[test]
fn close_ends_the_direction_and_is_passed_on() {
    assert_eq!(forward_frame(Frame::Close), Forward { send: Some(Frame::Close), stop: true });
    assert!(!continue_after_send(&Frame::Close, true));
}

#[test]
fn failed_sends_of_data_end_the_direction() {
    assert!(!continue_after_send(&Frame::Binary(vec![1]), false));
    assert!(!continue_after_send(&Frame::Text("a".to_string()), false));
    assert!(continue_after_send(&Frame::Ping(vec![1]), false));
    assert!(continue_after_send(&Frame::Binary(vec![1]), true));
}

#[test]
fn upstream_endpoints_and_cookie() {
    assert_eq!(auth_ticket_url("pve.example"), "https://pve.example/api2/json/access/ticket");
    assert_eq!(vnc_proxy_url("pve.example", "pve1", "101"), "https://pve.example/api2/json/nodes/pve1/qemu/101/vncproxy");
    assert_eq!(auth_cookie("T"), "PVEAuthCookie=T");
    let r = AuthTicketResponse { data: AuthTicketData { ticket: "t".to_string(), csrf_prevention_token: "c".to_string() } };
    assert_eq!(r.into_data().ticket, "t");
    let v = VncProxyResponse { data: VncProxyData { port: "1".to_string(), ticket: "k".to_string(), password: "p".to_string() } };
    assert_eq!(v.into_data().password, "p");
}

#[test]
fn tunnel_round_trip_then_close_ends_both_directions() {
    let x = vec![0x52u8, 0x46, 0x42];
    let up = forward_frame(Frame::Binary(x.clone()));
    assert_eq!(up.send, Some(Frame::Binary(x)));
    assert!(continue_after_send(up.send.as_ref().unwrap(), true));
    let y = vec![0x00u8, 0x03, 0x08];
    let down = forward_frame(Frame::Binary(y.clone()));
    assert_eq!(down.send, Some(Frame::Binary(y)));
    let close_from_client = forward_frame(Frame::Close);
    assert!(close_from_client.stop);
    assert_eq!(close_from_client.send, Some(Frame::Close));
    let close_echoed_upstream = forward_frame(Frame::Close);
    assert!(close_echoed_upstream.stop);
}
