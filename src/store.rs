use std::collections::HashMap;
use vstd::prelude::*;

verus! {

broadcast use vstd::std_specs::hash::group_hash_axioms;

/// A live console session: who owns it, which VM it reaches, and the
/// upstream credentials the relay needs to dial the console.
#[derive(Debug)]
pub struct Session {
    pub id: i32,
    pub user_id: String,
    pub service_id: String,
    pub proxmox_node: String,
    pub proxmox_vm_id: String,
    pub proxmox_csrf_prevention_token: String,
    pub proxmox_auth_cookie: String,
    pub vnc_token: String,
    pub port: String,
    pub connection_date: i64,
}

/// The fields of a session before the store assigns it an id. The one-time
/// console password is deliberately not part of it.
pub struct NewSession {
    pub user_id: String,
    pub service_id: String,
    pub proxmox_node: String,
    pub proxmox_vm_id: String,
    pub proxmox_csrf_prevention_token: String,
    pub proxmox_auth_cookie: String,
    pub vnc_token: String,
    pub port: String,
    pub connection_date: i64,
}

/// Why a store operation could not be carried out.
#[derive(PartialEq, Eq, Structural, Debug, Clone, Copy)]
pub enum StoreError {
    /// Every id a session can carry has been handed out.
    IdsExhausted,
}

/// The session store: live sessions keyed by id, and the next id to assign.
pub struct SessionStore {
    sessions: HashMap<i32, Session>,
    next_id: i32,
}

impl Session {
    /// The session that `insert_session` makes of `n` under `id`.
    pub open spec fn from_new(n: NewSession, id: i32) -> Session {
        Session {
            id,
            user_id: n.user_id,
            service_id: n.service_id,
            proxmox_node: n.proxmox_node,
            proxmox_vm_id: n.proxmox_vm_id,
            proxmox_csrf_prevention_token: n.proxmox_csrf_prevention_token,
            proxmox_auth_cookie: n.proxmox_auth_cookie,
            vnc_token: n.vnc_token,
            port: n.port,
            connection_date: n.connection_date,
        }
    }
}

impl SessionStore {
    /// The live sessions, by id.
    pub closed spec fn sessions(&self) -> Map<int, Session> {
        Map::new(|k: int| i32::MIN <= k <= i32::MAX && self.sessions@.contains_key(k as i32),
            |k: int| self.sessions@[k as i32])
    }

    /// The id that the next inserted session receives.
    pub closed spec fn next_id(&self) -> int {
        self.next_id as int
    }

    /// Ids are positive, below the next id, and each session carries its key.
    pub closed spec fn wf(&self) -> bool {
        &&& 1 <= self.next_id
        &&& forall|k: i32| #[trigger] self.sessions@.contains_key(k)
            ==> 1 <= k < self.next_id && self.sessions@[k].id == k
    }

    pub proof fn lemma_wf(&self)
        requires
            self.wf(),
        ensures
            self.next_id() >= 1,
            forall|k: int| #[trigger] self.sessions().contains_key(k)
                ==> 1 <= k < self.next_id() && self.sessions()[k].id == k,
    {
    }
}

/// An empty store; ids start at 1.
pub fn new() -> (r: SessionStore)
    ensures
        r.wf(),
        r.sessions() == Map::<int, Session>::empty(),
        r.next_id() == 1,
{
    let r = SessionStore { sessions: HashMap::new(), next_id: 1 };
    assert(r.sessions() =~= Map::<int, Session>::empty());
    r
}

/// Stores `session_data` under a fresh id and returns that id; fails only
/// when no id is left.
pub fn insert_session(store: &mut SessionStore, session_data: NewSession) -> (r: Result<i32, StoreError>)
    requires
        old(store).wf(),
    ensures
        final(store).wf(),
        old(store).next_id() < i32::MAX <==> r is Ok,
        r is Ok ==> {
            &&& r->Ok_0 == old(store).next_id()
            &&& !old(store).sessions().contains_key(r->Ok_0 as int)
            &&& final(store).sessions() == old(store).sessions().insert(
                r->Ok_0 as int,
                Session::from_new(session_data, r->Ok_0),
            )
            &&& final(store).next_id() == old(store).next_id() + 1
        },
        r is Err ==> *final(store) == *old(store),
{
    if store.next_id == i32::MAX {
        return Err(StoreError::IdsExhausted);
    }
    let id = store.next_id;
    let ghost before = store.sessions();
    let session = Session {
        id,
        user_id: session_data.user_id,
        service_id: session_data.service_id,
        proxmox_node: session_data.proxmox_node,
        proxmox_vm_id: session_data.proxmox_vm_id,
        proxmox_csrf_prevention_token: session_data.proxmox_csrf_prevention_token,
        proxmox_auth_cookie: session_data.proxmox_auth_cookie,
        vnc_token: session_data.vnc_token,
        port: session_data.port,
        connection_date: session_data.connection_date,
    };
    store.sessions.insert(id, session);
    store.next_id = id + 1;
    assert(store.sessions() =~= before.insert(id as int, Session::from_new(session_data, id)));
    Ok(id)
}

/// The live session under the handle `session_id`, without consuming it.
pub fn get_session<'a>(store: &'a SessionStore, session_id: &str) -> (r: Option<&'a Session>)
    requires
        store.wf(),
    ensures
        r is Some <==> (session_id_of(session_id@) is Some
            && store.sessions().contains_key(session_id_of(session_id@)->Some_0 as int)),
        r is Some ==> *r->Some_0 == store.sessions()[session_id_of(session_id@)->Some_0 as int],
{
    match parse_session_id(session_id) {
        Some(id) => store.sessions.get(&id),
        None => None,
    }
}

/// Removes the session under the handle `session_id`; true when one was there.
pub fn delete_session(store: &mut SessionStore, session_id: &str) -> (r: bool)
    requires
        old(store).wf(),
    ensures
        final(store).wf(),
        final(store).next_id() == old(store).next_id(),
        session_id_of(session_id@) is None ==> !r && *final(store) == *old(store),
        session_id_of(session_id@) is Some ==> {
            let id = session_id_of(session_id@)->Some_0 as int;
            &&& r == old(store).sessions().contains_key(id)
            &&& final(store).sessions() == old(store).sessions().remove(id)
        },
{
    let id = match parse_session_id(session_id) {
        Some(id) => id,
        None => return false,
    };
    let ghost before = store.sessions();
    let removed = store.sessions.remove(&id);
    assert(store.sessions() =~= before.remove(id as int));
    removed.is_some()
}

/// Discards every session; ids already handed out are not reused.
pub fn wipe(store: &mut SessionStore) -> (r: bool)
    requires
        old(store).wf(),
    ensures
        final(store).wf(),
        r,
        final(store).sessions() == Map::<int, Session>::empty(),
        final(store).next_id() == old(store).next_id(),
{
    store.sessions.clear();
    assert(store.sessions() =~= Map::<int, Session>::empty());
    true
}


/// A relay's refusal to hand out a session.
#[derive(PartialEq, Eq, Structural, Debug, Clone, Copy)]
pub enum RedeemError {
    /// The id does not name a live session (or is not a decimal id at all).
    NotFound,
    /// The session belongs to another user.
    NotOwner,
}

/// Every character is an ASCII decimal digit, and there is at least one.
pub open spec fn is_decimal(s: Seq<char>) -> bool {
    s.len() > 0 && forall|i: int| 0 <= i < s.len() ==> '0' <= #[trigger] s[i] <= '9'
}

/// The number that a string of decimal digits denotes.
pub open spec fn decimal_value(s: Seq<char>) -> int
    decreases s.len(),
{
    if s.len() == 0 {
        0
    } else {
        decimal_value(s.drop_last()) * 10 + (s.last() as int - '0' as int)
    }
}

/// The session id written in `s`: decimal digits whose value fits in `i32`.
pub open spec fn session_id_of(s: Seq<char>) -> Option<i32> {
    if is_decimal(s) && decimal_value(s) <= i32::MAX {
        Some(decimal_value(s) as i32)
    } else {
        None
    }
}

proof fn lemma_decimal_grows(s: Seq<char>, i: int, j: int)
    requires
        is_decimal(s),
        0 <= i <= j <= s.len(),
    ensures
        decimal_value(s.take(i)) <= decimal_value(s.take(j)),
    decreases j - i,
{
    if i < j {
        lemma_decimal_grows(s, i, j - 1);
        assert(s.take(j).drop_last() =~= s.take(j - 1));
        lemma_decimal_nonneg(s.take(j - 1));
    }
}

proof fn lemma_decimal_nonneg(s: Seq<char>)
    requires
        forall|i: int| 0 <= i < s.len() ==> '0' <= #[trigger] s[i] <= '9',
    ensures
        decimal_value(s) >= 0,
    decreases s.len(),
{
    if s.len() > 0 {
        lemma_decimal_nonneg(s.drop_last());
    }
}

/// Reads a session id written in decimal.
pub fn parse_session_id(s: &str) -> (r: Option<i32>)
    ensures
        r == session_id_of(s@),
{
    let n = s.unicode_len();
    if n == 0 {
        return None;
    }
    let mut i: usize = 0;
    while i < n
        invariant
            n == s@.len(),
            0 <= i <= n,
            forall|k: int| 0 <= k < i ==> '0' <= #[trigger] s@[k] <= '9',
        decreases n - i,
    {
        let c = s.get_char(i);
        if !('0' <= c && c <= '9') {
            return None;
        }
        i = i + 1;
    }
    let mut acc: i64 = 0;
    let mut j: usize = 0;
    while j < n
        invariant
            n == s@.len(),
            is_decimal(s@),
            0 <= j <= n,
            acc == decimal_value(s@.take(j as int)),
            0 <= acc <= i32::MAX,
        decreases n - j,
    {
        let c = s.get_char(j);
        assert(s@.take(j + 1).drop_last() =~= s@.take(j as int));
        let d = (c as u32 - '0' as u32) as i64;
        acc = acc * 10 + d;
        j = j + 1;
        if acc > i32::MAX as i64 {
            proof {
                lemma_decimal_grows(s@, j as int, n as int);
                assert(s@.take(n as int) =~= s@);
            }
            return None;
        }
    }
    assert(s@.take(n as int) =~= s@);
    Some(acc as i32)
}

/// Hands the session under `session_id` to `user_id` and removes it from the
/// store in the same step. A session of another user stays where it is.
pub fn redeem_session(store: &mut SessionStore, session_id: &str, user_id: &String) -> (r: Result<Session, RedeemError>)
    requires
        old(store).wf(),
    ensures
        final(store).wf(),
        final(store).next_id() == old(store).next_id(),
        r == redeem_outcome(old(store).sessions(), session_id@, user_id@),
        r is Ok ==> final(store).sessions() == old(store).sessions().remove(r->Ok_0.id as int),
        r is Err ==> final(store).sessions() == old(store).sessions(),
{
    let id = match parse_session_id(session_id) {
        Some(id) => id,
        None => return Err(RedeemError::NotFound),
    };
    let owner_matches = match store.sessions.get(&id) {
        Some(found) => found.user_id.eq(user_id),
        None => return Err(RedeemError::NotFound),
    };
    if !owner_matches {
        return Err(RedeemError::NotOwner);
    }
    let ghost before = store.sessions();
    let taken = store.sessions.remove(&id);
    assert(store.sessions() =~= before.remove(id as int));
    match taken {
        Some(session) => Ok(session),
        None => Err(RedeemError::NotFound),
    }
}

/// What redeeming `session_id` for `user_id` gives in a store holding `sessions`.
pub open spec fn redeem_outcome(sessions: Map<int, Session>, session_id: Seq<char>, user_id: Seq<char>) -> Result<Session, RedeemError> {
    match session_id_of(session_id) {
        None => Err(RedeemError::NotFound),
        Some(id) => if !sessions.contains_key(id as int) {
            Err(RedeemError::NotFound)
        } else if sessions[id as int].user_id@ != user_id {
            Err(RedeemError::NotOwner)
        } else {
            Ok(sessions[id as int])
        },
    }
}


/// Once a session has been redeemed and removed, redeeming the same handle
/// again finds nothing, whoever asks.
pub proof fn lemma_redeem_once(store: SessionStore, session_id: Seq<char>, user_id: Seq<char>, anyone: Seq<char>)
    requires
        store.wf(),
        redeem_outcome(store.sessions(), session_id, user_id) is Ok,
    ensures
        redeem_outcome(
            store.sessions().remove(redeem_outcome(store.sessions(), session_id, user_id)->Ok_0.id as int),
            session_id,
            anyone,
        ) == Err::<Session, RedeemError>(RedeemError::NotFound),
{
    store.lemma_wf();
}

/// A session that another user tries to redeem is refused to them, and stays
/// redeemable by its owner.
pub proof fn lemma_foreign_redeem_refused(store: SessionStore, session_id: Seq<char>, intruder: Seq<char>)
    requires
        store.wf(),
        session_id_of(session_id) is Some,
        store.sessions().contains_key(session_id_of(session_id)->Some_0 as int),
        store.sessions()[session_id_of(session_id)->Some_0 as int].user_id@ != intruder,
    ensures
        redeem_outcome(store.sessions(), session_id, intruder) == Err::<Session, RedeemError>(RedeemError::NotOwner),
        redeem_outcome(
            store.sessions(),
            session_id,
            store.sessions()[session_id_of(session_id)->Some_0 as int].user_id@,
        ) is Ok,
{
}

} // verus!
