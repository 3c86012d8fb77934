use base64::Engine;
use vstd::prelude::*;
use vstd::utf8::encode_utf8;

use crate::store::Session;

verus! {

/// The control-plane login answer: an auth ticket and its anti-forgery token.
#[derive(Debug)]
pub struct AuthTicketData {
    pub ticket: String,
    pub csrf_prevention_token: String,
}

/// The envelope the control plane wraps a login answer in.
pub struct AuthTicketResponse {
    pub data: AuthTicketData,
}

/// A console ticket scoped to one VM: the console port, the ticket and the
/// one-time password generated with it.
#[derive(Debug)]
pub struct VncProxyData {
    pub port: String,
    pub ticket: String,
    pub password: String,
}

/// The envelope the control plane wraps a console ticket in.
pub struct VncProxyResponse {
    pub data: VncProxyData,
}

impl AuthTicketResponse {
    pub fn into_data(self) -> (r: AuthTicketData)
        ensures
            r == self.data,
    {
        self.data
    }
}

impl VncProxyResponse {
    pub fn into_data(self) -> (r: VncProxyData)
        ensures
            r == self.data,
    {
        self.data
    }
}

/// A byte that percent-encoding leaves as it is: an ASCII letter or digit.
pub open spec fn is_alphanumeric_byte(b: u8) -> bool {
    (0x30 <= b <= 0x39) || (0x41 <= b <= 0x5a) || (0x61 <= b <= 0x7a)
}

/// An upper-case hexadecimal digit.
pub open spec fn hex_digit(n: int) -> char {
    if n < 10 {
        (n + 0x30) as char
    } else {
        (n - 10 + 0x41) as char
    }
}

/// One byte, percent-encoded against every character but letters and digits.
pub open spec fn percent_encoded_byte(b: u8) -> Seq<char> {
    if is_alphanumeric_byte(b) {
        seq![b as char]
    } else {
        seq!['%', hex_digit(b as int / 16), hex_digit(b as int % 16)]
    }
}

/// A byte string, percent-encoded against every character but letters and digits.
pub open spec fn percent_encoded(bytes: Seq<u8>) -> Seq<char>
    decreases bytes.len(),
{
    if bytes.len() == 0 {
        Seq::empty()
    } else {
        percent_encoded(bytes.drop_last()) + percent_encoded_byte(bytes.last())
    }
}

/// What the standard padded base64 alphabet makes of a byte string.
pub uninterp spec fn base64_of(bytes: Seq<u8>) -> Seq<char>;

/// Relies on percent_encoding::utf8_percent_encode with NON_ALPHANUMERIC: each
/// byte of the UTF-8 encoding that is not an ASCII letter or digit becomes `%`
/// and two upper-case hex digits, the others stay.
#[verifier::external_body]
fn percent_encode_text(s: &str) -> (r: String)
    ensures
        r@ == percent_encoded(encode_utf8(s@)),
{
    percent_encoding::utf8_percent_encode(s, percent_encoding::NON_ALPHANUMERIC).to_string()
}

/// Relies on base64's STANDARD engine `encode`: padded base64 of the bytes.
#[verifier::external_body]
fn base64_encode(bytes: &[u8]) -> (r: String)
    ensures
        r@ == base64_of(bytes@),
{
    base64::engine::general_purpose::STANDARD.encode(bytes)
}

/// The cookie that carries a control-plane auth ticket.
pub open spec fn auth_cookie_spec(ticket: Seq<char>) -> Seq<char> {
    "PVEAuthCookie="@ + ticket
}

pub fn auth_cookie(ticket: &str) -> (r: String)
    ensures
        r@ == auth_cookie_spec(ticket@),
{
    let mut r = String::from_str("PVEAuthCookie=");
    r.append(ticket);
    r
}

/// The control plane's login endpoint.
pub open spec fn auth_ticket_url_spec(host: Seq<char>) -> Seq<char> {
    "https://"@ + host + "/api2/json/access/ticket"@
}

pub fn auth_ticket_url(host: &str) -> (r: String)
    ensures
        r@ == auth_ticket_url_spec(host@),
{
    let mut r = String::from_str("https://");
    r.append(host);
    r.append("/api2/json/access/ticket");
    r
}

/// The endpoint that issues console tickets for one VM.
pub open spec fn vnc_proxy_url_spec(host: Seq<char>, node: Seq<char>, vm_id: Seq<char>) -> Seq<char> {
    "https://"@ + host + "/api2/json/nodes/"@ + node + "/qemu/"@ + vm_id + "/vncproxy"@
}

pub fn vnc_proxy_url(host: &str, node: &str, vm_id: &str) -> (r: String)
    ensures
        r@ == vnc_proxy_url_spec(host@, node@, vm_id@),
{
    let mut r = String::from_str("https://");
    r.append(host);
    r.append("/api2/json/nodes/");
    r.append(node);
    r.append("/qemu/");
    r.append(vm_id);
    r.append("/vncproxy");
    r
}

/// The console websocket of one VM, with the console ticket already encoded.
pub open spec fn console_url_spec(
    host: Seq<char>,
    node: Seq<char>,
    vm_id: Seq<char>,
    port: Seq<char>,
    encoded_ticket: Seq<char>,
) -> Seq<char> {
    "wss://"@ + host + "/api2/json/nodes/"@ + node + "/qemu/"@ + vm_id
        + "/vncwebsocket?port="@ + port + "&vncticket="@ + encoded_ticket
}

/// The headers of the upstream console upgrade request, in order.
pub open spec fn console_headers_spec(
    host: Seq<char>,
    auth_ticket: Seq<char>,
    csrf_token: Seq<char>,
    key: Seq<char>,
) -> Seq<(Seq<char>, Seq<char>)> {
    seq![
        ("cookie"@, auth_cookie_spec(auth_ticket)),
        ("CSRFPreventionToken"@, csrf_token),
        ("X-Requested-By"@, "actix-proxy"@),
        ("Host"@, host + ":8006"@),
        ("Origin"@, "https://"@ + host + ":8006"@),
        ("Sec-WebSocket-Protocol"@, "binary"@),
        ("sec-websocket-key"@, key),
        ("sec-websocket-version"@, "13"@),
        ("connection"@, "Upgrade"@),
        ("upgrade"@, "websocket"@),
    ]
}

/// The upgrade request the relay dials upstream with.
#[derive(Debug)]
pub struct ConsoleRequest {
    pub url: String,
    pub headers: Vec<(String, String)>,
}

impl ConsoleRequest {
    /// The headers as pairs of texts.
    pub open spec fn header_texts(&self) -> Seq<(Seq<char>, Seq<char>)> {
        self.headers@.map_values(|h: (String, String)| (h.0@, h.1@))
    }
}

fn push_header(headers: &mut Vec<(String, String)>, name: &str, value: String)
    ensures
        final(headers)@.map_values(|h: (String, String)| (h.0@, h.1@))
            == old(headers)@.map_values(|h: (String, String)| (h.0@, h.1@)).push((name@, value@)),
{
    let ghost before = headers@;
    headers.push((String::from_str(name), value));
    assert(headers@.map_values(|h: (String, String)| (h.0@, h.1@))
        =~= before.map_values(|h: (String, String)| (h.0@, h.1@)).push((name@, value@)));
}

/// The console upgrade request for `session`, given its console ticket
/// already percent-encoded and the websocket key already derived.
pub fn console_request_with(host: &str, session: &Session, encoded_ticket: &str, key: &str) -> (r: ConsoleRequest)
    ensures
        r.url@ == console_url_spec(
            host@,
            session.proxmox_node@,
            session.proxmox_vm_id@,
            session.port@,
            encoded_ticket@,
        ),
        r.header_texts() == console_headers_spec(
            host@,
            session.proxmox_auth_cookie@,
            session.proxmox_csrf_prevention_token@,
            key@,
        ),
{
    let mut url = String::from_str("wss://");
    url.append(host);
    url.append("/api2/json/nodes/");
    url.append(session.proxmox_node.as_str());
    url.append("/qemu/");
    url.append(session.proxmox_vm_id.as_str());
    url.append("/vncwebsocket?port=");
    url.append(session.port.as_str());
    url.append("&vncticket=");
    url.append(encoded_ticket);

    let mut host_port = String::from_str(host);
    host_port.append(":8006");
    let mut origin = String::from_str("https://");
    origin.append(host_port.as_str());
    assert(origin@ =~= "https://"@ + host@ + ":8006"@);

    let mut headers: Vec<(String, String)> = Vec::new();
    push_header(&mut headers, "cookie", auth_cookie(session.proxmox_auth_cookie.as_str()));
    push_header(&mut headers, "CSRFPreventionToken", session.proxmox_csrf_prevention_token.clone());
    push_header(&mut headers, "X-Requested-By", String::from_str("actix-proxy"));
    push_header(&mut headers, "Host", host_port);
    push_header(&mut headers, "Origin", origin);
    push_header(&mut headers, "Sec-WebSocket-Protocol", String::from_str("binary"));
    push_header(&mut headers, "sec-websocket-key", String::from_str(key));
    push_header(&mut headers, "sec-websocket-version", String::from_str("13"));
    push_header(&mut headers, "connection", String::from_str("Upgrade"));
    push_header(&mut headers, "upgrade", String::from_str("websocket"));
    let r = ConsoleRequest { url, headers };
    assert(r.header_texts() =~= console_headers_spec(
        host@,
        session.proxmox_auth_cookie@,
        session.proxmox_csrf_prevention_token@,
        key@,
    ));
    r
}

/// The console upgrade request for `session`: its console ticket
/// percent-encoded into the URL, and a websocket key derived from `nonce`.
pub fn console_request(host: &str, session: &Session, nonce: &[u8]) -> (r: ConsoleRequest)
    ensures
        r.url@ == console_url_spec(
            host@,
            session.proxmox_node@,
            session.proxmox_vm_id@,
            session.port@,
            percent_encoded(encode_utf8(session.vnc_token@)),
        ),
        r.header_texts() == console_headers_spec(
            host@,
            session.proxmox_auth_cookie@,
            session.proxmox_csrf_prevention_token@,
            base64_of(nonce@),
        ),
{
    let encoded = percent_encode_text(session.vnc_token.as_str());
    let key = base64_encode(nonce);
    console_request_with(host, session, encoded.as_str(), key.as_str())
}

} // verus!
