//! The table of WHIP/WHEP sessions, keyed by session id. Times are Unix
//! milliseconds; a session expires once an hour has passed since its last
//! activity.

use vstd::prelude::*;
use crate::text::{str_eq, to_string};

verus! {

broadcast use vstd::string::group_string_axioms;

/// How long a session lives without activity, in seconds.
pub const SESSION_TIMEOUT_SECS: i64 = 3600;

/// Whether a session publishes (WHIP) or plays (WHEP).
#[derive(Clone, Copy, Debug, PartialEq, Eq, Structural)]
pub enum SessionType {
    Whip,
    Whep,
}

/// A signalling session.
#[derive(Debug)]
pub struct Session {
    pub id: String,
    pub room_name: String,
    pub host_did: String,
    pub sdp_offer: String,
    pub sdp_answer: Option<String>,
    /// Creation time, Unix milliseconds.
    pub created_at_ms: i64,
    /// Last activity, Unix milliseconds.
    pub last_activity_ms: i64,
    pub session_type: SessionType,
}

/// The contents of a session.
pub struct SessionView {
    pub id: Seq<char>,
    pub room_name: Seq<char>,
    pub host_did: Seq<char>,
    pub sdp_offer: Seq<char>,
    pub sdp_answer: Option<Seq<char>>,
    pub created_at_ms: i64,
    pub last_activity_ms: i64,
    pub session_type: SessionType,
}

impl View for Session {
    type V = SessionView;

    open spec fn view(&self) -> SessionView {
        SessionView {
            id: self.id@,
            room_name: self.room_name@,
            host_did: self.host_did@,
            sdp_offer: self.sdp_offer@,
            sdp_answer: match self.sdp_answer {
                Some(a) => Some(a@),
                None => None,
            },
            created_at_ms: self.created_at_ms,
            last_activity_ms: self.last_activity_ms,
            session_type: self.session_type,
        }
    }
}

impl Session {
    /// A copy of the session.
    pub fn duplicate(&self) -> (r: Session)
        ensures
            r@ == self@,
    {
        Session {
            id: self.id.clone(),
            room_name: self.room_name.clone(),
            host_did: self.host_did.clone(),
            sdp_offer: self.sdp_offer.clone(),
            sdp_answer: match &self.sdp_answer {
                Some(a) => Some(a.clone()),
                None => None,
            },
            created_at_ms: self.created_at_ms,
            last_activity_ms: self.last_activity_ms,
            session_type: self.session_type,
        }
    }
}

/// Whole seconds from `from` to `to` (both in milliseconds), rounded toward
/// zero.
pub open spec fn whole_seconds_between(from: i64, to: i64) -> int {
    let d = to - from;
    if d >= 0 {
        d / 1000
    } else {
        -((-d) / 1000)
    }
}

/// Whether a session has expired at `now_ms`.
pub open spec fn is_expired(s: SessionView, now_ms: i64) -> bool {
    whole_seconds_between(s.last_activity_ms, now_ms) >= SESSION_TIMEOUT_SECS
}

/// No two sessions share an id.
pub open spec fn ids_distinct(v: Seq<SessionView>) -> bool {
    forall|i: int, j: int| 0 <= i < v.len() && 0 <= j < v.len() && i != j ==> v[i].id != v[j].id
}

/// The session with id `k`, if any.
pub open spec fn lookup(v: Seq<SessionView>, k: Seq<char>) -> Option<SessionView> {
    if exists|i: int| 0 <= i < v.len() && v[i].id == k {
        Some(v[choose|i: int| 0 <= i < v.len() && v[i].id == k])
    } else {
        None
    }
}

/// With distinct ids, the session at `i` is the one found under its id.
pub proof fn lemma_lookup_at(v: Seq<SessionView>, i: int)
    requires
        ids_distinct(v),
        0 <= i < v.len(),
    ensures
        lookup(v, v[i].id) == Some(v[i]),
{
    let k = v[i].id;
    let j = choose|j: int| 0 <= j < v.len() && v[j].id == k;
    assert(v[j].id == k);
}

/// The table of sessions.
#[derive(Debug)]
pub struct SessionTable {
    sessions: Vec<Session>,
}

impl View for SessionTable {
    type V = Seq<SessionView>;

    closed spec fn view(&self) -> Seq<SessionView> {
        self.sessions@.map_values(|s: Session| s@)
    }
}

impl SessionTable {
    #[verifier::type_invariant]
    spec fn well_formed(self) -> bool {
        ids_distinct(self.sessions@.map_values(|s: Session| s@))
    }

    /// The session stored under `k`, if any.
    pub open spec fn get_spec(&self, k: Seq<char>) -> Option<SessionView> {
        lookup(self@, k)
    }

    /// An empty table.
    pub fn new() -> (r: SessionTable)
        ensures
            forall|k: Seq<char>| r.get_spec(k) is None,
            r@.len() == 0,
    {
        let r = SessionTable { sessions: Vec::new() };
        assert(r@ =~= Seq::<SessionView>::empty());
        r
    }

    /// The number of sessions.
    pub fn len(&self) -> (r: usize)
        ensures
            r == self@.len(),
    {
        self.sessions.len()
    }

    /// Position of the session with id `k`.
    fn position(&self, k: &str) -> (r: Option<usize>)
        ensures
            r matches Some(i) ==> i < self@.len() && self@[i as int].id == k@,
            r is None ==> self.get_spec(k@) is None,
    {
        let ghost v = self@;
        let mut i: usize = 0;
        while i < self.sessions.len()
            invariant
                i <= self.sessions@.len(),
                v == self.sessions@.map_values(|s: Session| s@),
                forall|j: int| 0 <= j < i ==> v[j].id != k@,
            decreases self.sessions@.len() - i,
        {
            if str_eq(self.sessions[i].id.as_str(), k) {
                return Some(i);
            }
            i = i + 1;
        }
        None
    }

    /// The session with id `k`, if any.
    pub fn get(&self, k: &str) -> (r: Option<Session>)
        ensures
            match r {
                Some(s) => self.get_spec(k@) == Some(s@),
                None => self.get_spec(k@) is None,
            },
    {
        proof {
            use_type_invariant(self);
        }
        match self.position(k) {
            Some(i) => {
                proof {
                    lemma_lookup_at(self@, i as int);
                }
                Some(self.sessions[i].duplicate())
            },
            None => None,
        }
    }

    /// Removes and returns the session with id `k`.
    pub fn remove(&mut self, k: &str) -> (r: Option<Session>)
        ensures
            match r {
                Some(s) => old(self).get_spec(k@) == Some(s@),
                None => old(self).get_spec(k@) is None,
            },
            final(self).get_spec(k@) is None,
            forall|j: Seq<char>| j != k@ ==> final(self).get_spec(j) == old(self).get_spec(j),
    {
        proof {
            use_type_invariant(&*self);
        }
        let ghost old_v = self@;
        match self.position(k) {
            Some(i) => {
                proof {
                    lemma_lookup_at(old_v, i as int);
                }
                let mut v: Vec<Session> = Vec::new();
                std::mem::swap(&mut v, &mut self.sessions);
                let s = v.remove(i);
                let ghost nv = v@.map_values(|s: Session| s@);
                proof {
                    assert(nv =~= old_v.remove(i as int));
                    assert(ids_distinct(nv)) by {
                        assert forall|a: int, b: int|
                            0 <= a < nv.len() && 0 <= b < nv.len() && a != b implies nv[a].id
                            != nv[b].id by {
                            let oa = if a < i { a } else { a + 1 };
                            let ob = if b < i { b } else { b + 1 };
                            assert(nv[a] == old_v[oa] && nv[b] == old_v[ob]);
                        }
                    }
                    assert forall|j: Seq<char>| j != k@ implies lookup(nv, j) == lookup(old_v, j) by {
                        if exists|a: int| 0 <= a < old_v.len() && old_v[a].id == j {
                            let a = choose|a: int| 0 <= a < old_v.len() && old_v[a].id == j;
                            lemma_lookup_at(old_v, a);
                            let na = if a < i { a } else { a - 1 };
                            assert(a != i);
                            assert(nv[na] == old_v[a]);
                            lemma_lookup_at(nv, na);
                        } else {
                            if exists|a: int| 0 <= a < nv.len() && nv[a].id == j {
                                let a = choose|a: int| 0 <= a < nv.len() && nv[a].id == j;
                                let oa = if a < i { a } else { a + 1 };
                                assert(nv[a] == old_v[oa]);
                            }
                        }
                    }
                    if exists|a: int| 0 <= a < nv.len() && nv[a].id == k@ {
                        let a = choose|a: int| 0 <= a < nv.len() && nv[a].id == k@;
                        let oa = if a < i { a } else { a + 1 };
                        assert(nv[a] == old_v[oa]);
                        assert(old_v[i as int].id == k@);
                    }
                }
                std::mem::swap(&mut v, &mut self.sessions);
                Some(s)
            },
            None => None,
        }
    }

    /// Records a new session under `id` at `now_ms`, replacing any session
    /// with that id, and returns it.
    pub fn create(
        &mut self,
        id: String,
        host_did: &str,
        room_name: &str,
        session_type: SessionType,
        sdp_offer: &str,
        now_ms: i64,
    ) -> (r: Session)
        ensures
            r@ == (SessionView {
                id: id@,
                room_name: room_name@,
                host_did: host_did@,
                sdp_offer: sdp_offer@,
                sdp_answer: None,
                created_at_ms: now_ms,
                last_activity_ms: now_ms,
                session_type,
            }),
            final(self).get_spec(id@) == Some(r@),
            forall|j: Seq<char>| j != id@ ==> final(self).get_spec(j) == old(self).get_spec(j),
    {
        let _ = self.remove(id.as_str());
        proof {
            use_type_invariant(&*self);
        }
        let ghost mid = self@;
        let session = Session {
            id,
            room_name: to_string(room_name),
            host_did: to_string(host_did),
            sdp_offer: to_string(sdp_offer),
            sdp_answer: None,
            created_at_ms: now_ms,
            last_activity_ms: now_ms,
            session_type,
        };
        let r = session.duplicate();
        let mut v: Vec<Session> = Vec::new();
        std::mem::swap(&mut v, &mut self.sessions);
        v.push(session);
        let ghost nv = v@.map_values(|s: Session| s@);
        proof {
            assert(nv =~= mid.push(r@));
            assert(lookup(mid, r@.id) is None);
            assert forall|a: int| 0 <= a < mid.len() implies mid[a].id != r@.id by {
                if mid[a].id == r@.id {
                    assert(exists|b: int| 0 <= b < mid.len() && mid[b].id == r@.id);
                }
            }
            assert(ids_distinct(nv)) by {
                assert forall|a: int, b: int|
                    0 <= a < nv.len() && 0 <= b < nv.len() && a != b implies nv[a].id
                    != nv[b].id by {
                    if a < mid.len() && b < mid.len() {
                        assert(nv[a] == mid[a] && nv[b] == mid[b]);
                    } else if a < mid.len() {
                        assert(nv[a] == mid[a]);
                    } else {
                        assert(nv[b] == mid[b]);
                    }
                }
            }
            lemma_lookup_at(nv, mid.len() as int);
            assert forall|j: Seq<char>| j != r@.id implies lookup(nv, j) == lookup(mid, j) by {
                if exists|a: int| 0 <= a < mid.len() && mid[a].id == j {
                    let a = choose|a: int| 0 <= a < mid.len() && mid[a].id == j;
                    lemma_lookup_at(mid, a);
                    assert(nv[a] == mid[a]);
                    lemma_lookup_at(nv, a);
                } else {
                    if exists|a: int| 0 <= a < nv.len() && nv[a].id == j {
                        let a = choose|a: int| 0 <= a < nv.len() && nv[a].id == j;
                        if a < mid.len() {
                            assert(nv[a] == mid[a]);
                        }
                    }
                }
            }
        }
        std::mem::swap(&mut v, &mut self.sessions);
        r
    }

    /// Stores the SDP answer of session `k` and marks it active at `now_ms`;
    /// `false` when there is no such session.
    pub fn set_answer(&mut self, k: &str, sdp_answer: &str, now_ms: i64) -> (r: bool)
        ensures
            r == old(self).get_spec(k@) is Some,
            r ==> final(self).get_spec(k@) == Some(
                SessionView {
                    sdp_answer: Some(sdp_answer@),
                    last_activity_ms: now_ms,
                    ..old(self).get_spec(k@)->Some_0
                },
            ),
            !r ==> final(self).get_spec(k@) is None,
            forall|j: Seq<char>| j != k@ ==> final(self).get_spec(j) == old(self).get_spec(j),
    {
        proof {
            use_type_invariant(&*self);
        }
        let ghost old_v = self@;
        match self.position(k) {
            Some(i) => {
                proof {
                    lemma_lookup_at(old_v, i as int);
                }
                let mut v: Vec<Session> = Vec::new();
                std::mem::swap(&mut v, &mut self.sessions);
                let mut s = v[i].duplicate();
                s.sdp_answer = Some(to_string(sdp_answer));
                s.last_activity_ms = now_ms;
                let ghost sv = s@;
                v.set(i, s);
                let ghost nv = v@.map_values(|s: Session| s@);
                proof {
                    assert(nv =~= old_v.update(i as int, sv));
                    assert(ids_distinct(nv)) by {
                        assert forall|a: int, b: int|
                            0 <= a < nv.len() && 0 <= b < nv.len() && a != b implies nv[a].id
                            != nv[b].id by {
                            assert(nv[a].id == old_v[a].id && nv[b].id == old_v[b].id);
                        }
                    }
                    lemma_lookup_at(nv, i as int);
                    assert forall|j: Seq<char>| j != k@ implies lookup(nv, j) == lookup(old_v, j) by {
                        if exists|a: int| 0 <= a < old_v.len() && old_v[a].id == j {
                            let a = choose|a: int| 0 <= a < old_v.len() && old_v[a].id == j;
                            lemma_lookup_at(old_v, a);
                            assert(a != i);
                            assert(nv[a] == old_v[a]);
                            lemma_lookup_at(nv, a);
                        } else {
                            if exists|a: int| 0 <= a < nv.len() && nv[a].id == j {
                                let a = choose|a: int| 0 <= a < nv.len() && nv[a].id == j;
                                assert(nv[a].id == old_v[a].id);
                            }
                        }
                    }
                }
                std::mem::swap(&mut v, &mut self.sessions);
                true
            },
            None => false,
        }
    }

    /// Drops every session that has expired at `now_ms`; returns how many.
    pub fn cleanup_expired(&mut self, now_ms: i64) -> (r: usize)
        ensures
            forall|j: Seq<char>|
                #[trigger] final(self).get_spec(j) == match old(self).get_spec(j) {
                    Some(s) => if is_expired(s, now_ms) {
                        None
                    } else {
                        Some(s)
                    },
                    None => None,
                },
            r == old(self)@.len() - final(self)@.len(),
    {
        proof {
            use_type_invariant(&*self);
        }
        let ghost old_v = self@;
        let mut v: Vec<Session> = Vec::new();
        std::mem::swap(&mut v, &mut self.sessions);
        let mut kept: Vec<Session> = Vec::new();
        let mut i: usize = 0;
        proof {
            assert(kept@.map_values(|s: Session| s@) =~= Seq::<SessionView>::empty());
        }
        while i < v.len()
            invariant
                i <= v@.len(),
                old_v == v@.map_values(|s: Session| s@),
                ids_distinct(old_v),
                kept@.map_values(|s: Session| s@) == alive_prefix(old_v, i as nat, now_ms),
            decreases v@.len() - i,
        {
            let last = v[i].last_activity_ms;
            let d: i128 = (now_ms as i128) - (last as i128);
            let secs: i128 = if d >= 0 {
                d / 1000
            } else {
                -((-d) / 1000)
            };
            let ghost kv = kept@.map_values(|s: Session| s@);
            assert(secs == whole_seconds_between(old_v[i as int].last_activity_ms, now_ms));
            if secs < 3600 {
                let s = v[i].duplicate();
                kept.push(s);
                proof {
                    assert(kept@.map_values(|s: Session| s@) =~= kv.push(old_v[i as int]));
                }
            }
            i = i + 1;
        }
        let ghost kv = kept@.map_values(|s: Session| s@);
        proof {
            lemma_alive_lookup(old_v, old_v.len(), now_ms);
            assert(old_v.take(old_v.len() as int) =~= old_v);
            assert(kv.len() <= old_v.len()) by {
                lemma_alive_len(old_v, old_v.len(), now_ms);
            }
        }
        let removed = v.len() - kept.len();
        std::mem::swap(&mut kept, &mut self.sessions);
        removed
    }
}

/// The sessions among the first `n` of `v` that have not expired at `now_ms`,
/// in order.
pub open spec fn alive_prefix(v: Seq<SessionView>, n: nat, now_ms: i64) -> Seq<SessionView>
    decreases n,
{
    if n == 0 {
        Seq::empty()
    } else {
        let p = alive_prefix(v, (n - 1) as nat, now_ms);
        if is_expired(v[n - 1], now_ms) {
            p
        } else {
            p.push(v[n - 1])
        }
    }
}

proof fn lemma_alive_len(v: Seq<SessionView>, n: nat, now_ms: i64)
    requires
        n <= v.len(),
    ensures
        alive_prefix(v, n, now_ms).len() <= n,
    decreases n,
{
    if n > 0 {
        lemma_alive_len(v, (n - 1) as nat, now_ms);
    }
}

/// `lookup` keeping only a session alive at `now_ms`.
pub open spec fn alive_only(o: Option<SessionView>, now_ms: i64) -> Option<SessionView> {
    match o {
        Some(s) => if is_expired(s, now_ms) {
            None
        } else {
            Some(s)
        },
        None => None,
    }
}

proof fn lemma_lookup_push(s: Seq<SessionView>, x: SessionView, j: Seq<char>)
    requires
        ids_distinct(s.push(x)),
    ensures
        ids_distinct(s),
        lookup(s.push(x), j) == (if x.id == j { Some(x) } else { lookup(s, j) }),
{
    let t = s.push(x);
    assert forall|a: int, b: int| 0 <= a < s.len() && 0 <= b < s.len() && a != b implies s[a].id
        != s[b].id by {
        assert(t[a] == s[a] && t[b] == s[b]);
    }
    if x.id == j {
        lemma_lookup_at(t, s.len() as int);
    } else {
        if exists|a: int| 0 <= a < s.len() && s[a].id == j {
            let a = choose|a: int| 0 <= a < s.len() && s[a].id == j;
            lemma_lookup_at(s, a);
            assert(t[a] == s[a]);
            lemma_lookup_at(t, a);
        } else {
            if exists|a: int| 0 <= a < t.len() && t[a].id == j {
                let a = choose|a: int| 0 <= a < t.len() && t[a].id == j;
                if a < s.len() {
                    assert(t[a] == s[a]);
                }
            }
        }
    }
}

proof fn lemma_alive_lookup(v: Seq<SessionView>, n: nat, now_ms: i64)
    requires
        ids_distinct(v),
        n <= v.len(),
    ensures
        ids_distinct(alive_prefix(v, n, now_ms)),
        forall|j: Seq<char>|
            #[trigger] lookup(alive_prefix(v, n, now_ms), j) == alive_only(
                lookup(v.take(n as int), j),
                now_ms,
            ),
    decreases n,
{
    let a = alive_prefix(v, n, now_ms);
    if n == 0 {
        assert(v.take(0) =~= Seq::<SessionView>::empty());
        assert(a =~= Seq::<SessionView>::empty());
    } else {
        let m = (n - 1) as nat;
        lemma_alive_lookup(v, m, now_ms);
        let p = alive_prefix(v, m, now_ms);
        let x = v[m as int];
        let tm = v.take(m as int);
        let tn = v.take(n as int);
        assert(tn =~= tm.push(x));
        assert(ids_distinct(tn)) by {
            assert forall|c: int, d: int| 0 <= c < tn.len() && 0 <= d < tn.len() && c != d implies tn[c].id
                != tn[d].id by {
                assert(tn[c] == v[c] && tn[d] == v[d]);
            }
        }
        // x's id does not occur before it
        assert(lookup(tm, x.id) is None) by {
            if exists|c: int| 0 <= c < tm.len() && tm[c].id == x.id {
                let c = choose|c: int| 0 <= c < tm.len() && tm[c].id == x.id;
                assert(tm[c] == v[c]);
            }
        }
        if is_expired(x, now_ms) {
            assert(a == p);
            assert forall|j: Seq<char>| #[trigger] lookup(a, j) == alive_only(lookup(tn, j), now_ms) by {
                lemma_lookup_push(tm, x, j);
            }
        } else {
            assert(a == p.push(x));
            assert(lookup(p, x.id) is None) by {
                assert(lookup(p, x.id) == alive_only(lookup(tm, x.id), now_ms));
            }
            assert(ids_distinct(a)) by {
                assert forall|c: int, d: int| 0 <= c < a.len() && 0 <= d < a.len() && c != d implies a[c].id
                    != a[d].id by {
                    if c < p.len() && d < p.len() {
                        assert(a[c] == p[c] && a[d] == p[d]);
                    } else {
                        let y = if c < p.len() { c } else { d };
                        assert(y < p.len());
                        assert(a[y] == p[y]);
                        if p[y].id == x.id {
                            lemma_lookup_at(p, y);
                        }
                    }
                }
            }
            assert forall|j: Seq<char>| #[trigger] lookup(a, j) == alive_only(lookup(tn, j), now_ms) by {
                lemma_lookup_push(tm, x, j);
                lemma_lookup_push(p, x, j);
            }
        }
    }
}


/// The effect of `SessionTable::create` on the sessions stored under other ids
/// and under its own, as its contract states it.
pub open spec fn created(a: SessionTable, b: SessionTable, id: Seq<char>, s: SessionView) -> bool {
    &&& b.get_spec(id) == Some(s)
    &&& forall|j: Seq<char>| j != id ==> b.get_spec(j) == a.get_spec(j)
}

/// The effect of `SessionTable::remove` on the table, as its contract
/// states it.
pub open spec fn removed(a: SessionTable, b: SessionTable, id: Seq<char>) -> bool {
    &&& b.get_spec(id) is None
    &&& forall|j: Seq<char>| j != id ==> b.get_spec(j) == a.get_spec(j)
}

/// The effect of `SessionTable::cleanup_expired` at `now_ms`, as its
/// contract states it.
pub open spec fn cleaned(a: SessionTable, b: SessionTable, now_ms: i64) -> bool {
    forall|j: Seq<char>|
        #[trigger] b.get_spec(j) == match a.get_spec(j) {
            Some(s) => if is_expired(s, now_ms) {
                None
            } else {
                Some(s)
            },
            None => None,
        }
}

/// Removing a session that was just created leaves every other session as
/// it was, and none under its id.
pub proof fn law_create_then_remove(
    a: SessionTable,
    b: SessionTable,
    c: SessionTable,
    id: Seq<char>,
    s: SessionView,
)
    requires
        created(a, b, id, s),
        removed(b, c, id),
    ensures
        c.get_spec(id) is None,
        forall|j: Seq<char>| j != id ==> c.get_spec(j) == a.get_spec(j),
{
}

/// After a clean-up no stored session has expired, and a second clean-up at
/// the same time changes nothing.
pub proof fn law_cleanup_settles(a: SessionTable, b: SessionTable, c: SessionTable, now_ms: i64)
    requires
        cleaned(a, b, now_ms),
        cleaned(b, c, now_ms),
    ensures
        forall|j: Seq<char>| b.get_spec(j) is Some ==> !is_expired(b.get_spec(j)->Some_0, now_ms),
        forall|j: Seq<char>| c.get_spec(j) == b.get_spec(j),
{
    assert forall|j: Seq<char>| b.get_spec(j) is Some implies !is_expired(b.get_spec(j)->Some_0, now_ms) by {
        assert(b.get_spec(j) == match a.get_spec(j) {
            Some(s) => if is_expired(s, now_ms) {
                None
            } else {
                Some(s)
            },
            None => None,
        });
    }
    assert forall|j: Seq<char>| c.get_spec(j) == b.get_spec(j) by {
        assert(c.get_spec(j) == match b.get_spec(j) {
            Some(s) => if is_expired(s, now_ms) {
                None
            } else {
                Some(s)
            },
            None => None,
        });
        assert(b.get_spec(j) == match a.get_spec(j) {
            Some(s) => if is_expired(s, now_ms) {
                None
            } else {
                Some(s)
            },
            None => None,
        });
    }
}

/// A session whose answer was just stored reads back with that answer.
pub proof fn law_answer_read_back(a: SessionTable, b: SessionTable, id: Seq<char>, answer: Seq<char>, now_ms: i64)
    requires
        a.get_spec(id) is Some,
        b.get_spec(id) == Some(
            SessionView { sdp_answer: Some(answer), last_activity_ms: now_ms, ..a.get_spec(id)->Some_0 },
        ),
    ensures
        b.get_spec(id) matches Some(s) && s.sdp_answer == Some(answer) && !is_expired(s, now_ms),
{
}

} // verus!
