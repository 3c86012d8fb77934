use vstd::prelude::*;

use crate::store::{redeem_outcome, redeem_session, SessionStore};
use crate::upstream::{base64_of, console_headers_spec, console_request, console_url_spec, percent_encoded, ConsoleRequest};
use vstd::utf8::encode_utf8;

verus! {

/// Why a tunnel request was turned down.
#[derive(PartialEq, Eq, Structural, Debug, Clone, Copy)]
pub enum RelayError {
    /// A query parameter is missing, or the session is unknown or not the caller's.
    BadRequest,
    /// The token did not verify.
    Unauthorized,
    /// The upstream console could not be dialed.
    BadGateway,
}

impl RelayError {
    pub open spec fn status_spec(self) -> u16 {
        match self {
            RelayError::BadRequest => 400,
            RelayError::Unauthorized => 401,
            RelayError::BadGateway => 502,
        }
    }

    /// The HTTP status the upgrade is refused with.
    pub fn status(&self) -> (r: u16)
        ensures
            r == self.status_spec(),
    {
        match self {
            RelayError::BadRequest => 400,
            RelayError::Unauthorized => 401,
            RelayError::BadGateway => 502,
        }
    }
}

/// A tunnel request's parameters, checked: the session handle, and the
/// `Authorization` value the token stands for.
#[derive(Debug)]
pub struct TunnelParams {
    pub session_id: String,
    pub bearer: String,
}

/// Checks that a tunnel request names both a session and a token; nothing
/// is looked up or dialed before this succeeds.
pub fn tunnel_params(session_id: Option<String>, token: Option<String>) -> (r: Result<TunnelParams, RelayError>)
    ensures
        r is Ok <==> (session_id is Some && token is Some),
        r is Err ==> r->Err_0 == RelayError::BadRequest,
        r is Ok ==> {
            &&& r->Ok_0.session_id == session_id->Some_0
            &&& r->Ok_0.bearer@ == "Bearer "@ + token->Some_0@
        },
{
    match (session_id, token) {
        (Some(session_id), Some(token)) => {
            let mut bearer = String::from_str("Bearer ");
            bearer.append(token.as_str());
            Ok(TunnelParams { session_id, bearer })
        },
        _ => Err(RelayError::BadRequest),
    }
}

/// Admits a tunnel once its token has been checked: `identity` is the
/// verified user id, or `None` when the token did not verify. An admitted
/// session is consumed here, before the upstream is dialed, so it can never
/// be redeemed twice, whatever the dial gives.
pub fn admit_tunnel(
    store: &mut SessionStore,
    session_id: &str,
    identity: Option<String>,
    host: &str,
    nonce: &[u8],
) -> (r: Result<ConsoleRequest, RelayError>)
    requires
        old(store).wf(),
    ensures
        final(store).wf(),
        final(store).next_id() == old(store).next_id(),
        identity is None ==> r == Err::<ConsoleRequest, RelayError>(RelayError::Unauthorized),
        identity is Some ==> {
            let outcome = redeem_outcome(old(store).sessions(), session_id@, identity->Some_0@);
            &&& (r is Ok <==> outcome is Ok)
            &&& outcome is Err ==> r == Err::<ConsoleRequest, RelayError>(RelayError::BadRequest)
            &&& outcome is Ok ==> {
                let s = outcome->Ok_0;
                &&& final(store).sessions() == old(store).sessions().remove(s.id as int)
                &&& r->Ok_0.url@ == console_url_spec(
                    host@,
                    s.proxmox_node@,
                    s.proxmox_vm_id@,
                    s.port@,
                    percent_encoded(encode_utf8(s.vnc_token@)),
                )
                &&& r->Ok_0.header_texts() == console_headers_spec(
                    host@,
                    s.proxmox_auth_cookie@,
                    s.proxmox_csrf_prevention_token@,
                    base64_of(nonce@),
                )
            }
        },
        r is Err ==> final(store).sessions() == old(store).sessions(),
{
    let user_id = match identity {
        Some(u) => u,
        None => return Err(RelayError::Unauthorized),
    };
    match redeem_session(store, session_id, &user_id) {
        Ok(session) => Ok(console_request(host, &session, nonce)),
        Err(_) => Err(RelayError::BadRequest),
    }
}

/// The answer to a tunnel request once the upstream dial is over.
pub fn dial_finished(connected: bool) -> (r: Result<(), RelayError>)
    ensures
        connected <==> r is Ok,
        !connected ==> r == Err::<(), RelayError>(RelayError::BadGateway),
{
    if connected {
        Ok(())
    } else {
        Err(RelayError::BadGateway)
    }
}

/// A websocket frame as the relay sees it, on either side.
#[derive(Debug, PartialEq, Eq)]
pub enum Frame {
    Text(String),
    Binary(Vec<u8>),
    Ping(Vec<u8>),
    Pong(Vec<u8>),
    Close,
}

/// What to do with a frame read from one side.
#[derive(Debug, PartialEq, Eq)]
pub struct Forward {
    /// The frame to send to the other side, if any.
    pub send: Option<Frame>,
    /// Whether this direction ends after sending.
    pub stop: bool,
}

/// The forwarding rule, the same in both directions: text, binary and ping
/// frames pass unchanged, a close is answered by a close on the other side
/// and ends the direction, a pong is dropped.
pub open spec fn forward_spec(frame: Frame) -> Forward {
    match frame {
        Frame::Close => Forward { send: Some(Frame::Close), stop: true },
        Frame::Pong(_) => Forward { send: None, stop: false },
        _ => Forward { send: Some(frame), stop: false },
    }
}

pub fn forward_frame(frame: Frame) -> (r: Forward)
    ensures
        r == forward_spec(frame),
{
    match frame {
        Frame::Close => Forward { send: Some(Frame::Close), stop: true },
        Frame::Pong(_) => Forward { send: None, stop: false },
        _ => Forward { send: Some(frame), stop: false },
    }
}

/// Whether a direction goes on after sending `frame`: a failed text or
/// binary send ends it; a failed ping does not.
pub fn continue_after_send(frame: &Frame, sent: bool) -> (r: bool)
    ensures
        r == ((sent || !(frame is Text || frame is Binary)) && !(frame is Close)),
{
    match frame {
        Frame::Close => false,
        Frame::Text(_) | Frame::Binary(_) => sent,
        _ => true,
    }
}


/// What one direction sends for a run of frames it reads, frame by frame,
/// until a close ends it.
pub open spec fn forwarded(frames: Seq<Frame>) -> Seq<Frame>
    decreases frames.len(),
{
    if frames.len() == 0 {
        Seq::empty()
    } else {
        let step = forward_spec(frames[0]);
        let sent = match step.send {
            Some(f) => seq![f],
            None => Seq::empty(),
        };
        if step.stop {
            sent
        } else {
            sent + forwarded(frames.drop_first())
        }
    }
}

/// A text, binary or ping frame.
pub open spec fn is_data(f: Frame) -> bool {
    f is Text || f is Binary || f is Ping
}

/// Text, binary and ping frames reach the other side unchanged and in the
/// order they were read.
pub proof fn lemma_data_frames_pass_in_order(frames: Seq<Frame>)
    requires
        forall|i: int| 0 <= i < frames.len() ==> is_data(#[trigger] frames[i]),
    ensures
        forwarded(frames) == frames,
    decreases frames.len(),
{
    if frames.len() > 0 {
        lemma_data_frames_pass_in_order(frames.drop_first());
        assert(seq![frames[0]] + frames.drop_first() =~= frames);
    }
}

/// A close read from one side is passed on as the last frame that direction
/// sends: whatever follows it is never forwarded.
pub proof fn lemma_close_ends_direction(before: Seq<Frame>, after: Seq<Frame>)
    requires
        forall|i: int| 0 <= i < before.len() ==> is_data(#[trigger] before[i]),
    ensures
        forwarded(before + seq![Frame::Close] + after) == before.push(Frame::Close),
    decreases before.len(),
{
    let all = before + seq![Frame::Close] + after;
    if before.len() == 0 {
        assert(all[0] == Frame::Close);
        assert(seq![Frame::Close] =~= before.push(Frame::Close));
    } else {
        lemma_close_ends_direction(before.drop_first(), after);
        assert(all.drop_first() =~= before.drop_first() + seq![Frame::Close] + after);
        assert(all[0] == before[0]);
        assert(seq![before[0]] + before.drop_first().push(Frame::Close) =~= before.push(Frame::Close));
    }
}

} // verus!
