//! Login sessions: the session record, the in-memory session store of the
//! administration back office, and the names and lifetimes under which
//! sessions and their cookies are kept.
use vstd::prelude::*;
use crate::clock::now_unix_utc;
use crate::random::{is_uuid_v4_text, new_uuid_v4_string};
use crate::text::{
    alnum_char, before_char, chars_of, is_alphanumeric_char, is_ascii_alphanumeric, lacks_char, lemma_split_append,
    push_str, split_parts, split_state, str_eq, string_from_chars,
};
use crate::crypto::{utf8, utf8_bytes};
use crate::random::random_alphanumeric;

verus! {

/// Why a session could not be produced.
#[derive(Debug)]
pub enum SessionError {
    NotFound,
    Expired,
    Invalid,
    StorageError(String),
}

/// A logged-in principal.  Times are Unix timestamps in seconds.
pub struct Session {
    pub id: String,
    pub user_id: String,
    pub email: String,
    pub is_admin: bool,
    pub created_at: i64,
    pub expires_at: i64,
}

/// A session has expired once the clock reaches its expiry time.
pub open spec fn expired_at(s: Session, now: int) -> bool {
    now >= s.expires_at
}

impl Session {
    /// A session for `user_id` with a fresh random UUID as its id, created
    /// now and expiring `ttl_seconds` later.
    pub fn new(user_id: String, email: String, is_admin: bool, ttl_seconds: i64) -> (res: Session)
        requires
            -(i64::MAX - 0x2000_0000_0000) <= ttl_seconds <= i64::MAX - 0x2000_0000_0000,
        ensures
            is_uuid_v4_text(res.id@),
            res.user_id == user_id,
            res.email == email,
            res.is_admin == is_admin,
            res.expires_at == res.created_at + ttl_seconds,
            -0x2000_0000_0000 < res.created_at < 0x2000_0000_0000,
    {
        let now = now_unix_utc();
        Session {
            id: new_uuid_v4_string(),
            user_id,
            email,
            is_admin,
            created_at: now,
            expires_at: now + ttl_seconds,
        }
    }

    /// Whether the session has expired at time `now`.
    pub fn is_expired_at(&self, now: i64) -> (res: bool)
        ensures
            res == expired_at(*self, now as int),
    {
        now >= self.expires_at
    }

    /// Whether the session has expired by the current clock.
    pub fn is_expired(&self) -> (res: bool)
        ensures
            exists|now: int| res == expired_at(*self, now),
    {
        let now = now_unix_utc();
        self.is_expired_at(now)
    }

    /// A field-by-field copy.
    pub fn duplicate(&self) -> (res: Session)
        ensures
            res == *self,
    {
        Session {
            id: self.id.clone(),
            user_id: self.user_id.clone(),
            email: self.email.clone(),
            is_admin: self.is_admin,
            created_at: self.created_at,
            expires_at: self.expires_at,
        }
    }
}

// ---------------------------------------------------------------------------
// Session store
// ---------------------------------------------------------------------------

/// What looking up `id` in the sessions `m` at time `now` yields.
pub open spec fn lookup_at(m: Map<Seq<char>, Session>, id: Seq<char>, now: int) -> Result<Session, SessionError> {
    if !m.dom().contains(id) {
        Err(SessionError::NotFound)
    } else if expired_at(m[id], now) {
        Err(SessionError::Expired)
    } else {
        Ok(m[id])
    }
}

/// The sessions of `m` that have not expired at time `now`.
pub open spec fn unexpired(m: Map<Seq<char>, Session>, now: int) -> Map<Seq<char>, Session> {
    Map::new(|k: Seq<char>| m.dom().contains(k) && !expired_at(m[k], now), |k: Seq<char>| m[k])
}

/// No two sessions in `s` share an id.
pub open spec fn ids_unique(s: Seq<Session>) -> bool {
    forall|i: int, j: int| 0 <= i < j < s.len() ==> s[i].id@ != s[j].id@
}

/// The sessions of `s` keyed by id; a later entry wins over an earlier one.
pub open spec fn sessions_map(s: Seq<Session>) -> Map<Seq<char>, Session>
    decreases s.len(),
{
    if s.len() == 0 {
        Map::empty()
    } else {
        sessions_map(s.drop_last()).insert(s.last().id@, s.last())
    }
}

proof fn lemma_sessions_map(s: Seq<Session>)
    requires
        ids_unique(s),
    ensures
        forall|i: int|
            0 <= i < s.len() ==> sessions_map(s).dom().contains(#[trigger] s[i].id@)
                && sessions_map(s)[s[i].id@] == s[i],
        forall|k: Seq<char>|
            #[trigger] sessions_map(s).dom().contains(k) ==> exists|i: int|
                0 <= i < s.len() && #[trigger] s[i].id@ == k,
    decreases s.len(),
{
    if s.len() > 0 {
        let t = s.drop_last();
        let n = s.len() - 1;
        assert(ids_unique(t));
        lemma_sessions_map(t);
        assert forall|i: int| 0 <= i < s.len() implies sessions_map(s).dom().contains(#[trigger] s[i].id@)
            && sessions_map(s)[s[i].id@] == s[i] by {
            if i < n {
                assert(t[i] == s[i]);
                assert(s[i].id@ != s[n].id@);
            }
        }
        assert forall|k: Seq<char>| #[trigger] sessions_map(s).dom().contains(k) implies exists|i: int|
            0 <= i < s.len() && #[trigger] s[i].id@ == k by {
            if k == s[n].id@ {
                assert(s[n].id@ == k);
            } else {
                assert(sessions_map(t).dom().contains(k));
                let i = choose|i: int| 0 <= i < t.len() && #[trigger] t[i].id@ == k;
                assert(t[i] == s[i]);
                assert(s[i].id@ == k);
            }
        }
    }
}

/// The sessions of `s` that have not expired at `now`, in order.
pub open spec fn keep_unexpired(s: Seq<Session>, now: int) -> Seq<Session>
    decreases s.len(),
{
    if s.len() == 0 {
        s
    } else if expired_at(s.last(), now) {
        keep_unexpired(s.drop_last(), now)
    } else {
        keep_unexpired(s.drop_last(), now).push(s.last())
    }
}

proof fn lemma_keep_unexpired(s: Seq<Session>, now: int)
    requires
        ids_unique(s),
    ensures
        ids_unique(keep_unexpired(s, now)),
        forall|a: int|
            0 <= a < keep_unexpired(s, now).len() ==> sessions_map(s).dom().contains(
                #[trigger] keep_unexpired(s, now)[a].id@,
            ),
        sessions_map(keep_unexpired(s, now)) == unexpired(sessions_map(s), now),
    decreases s.len(),
{
    if s.len() == 0 {
        assert(sessions_map(s) =~= unexpired(sessions_map(s), now));
    } else {
        let t = s.drop_last();
        let n = s.len() - 1;
        let x = s[n];
        assert(ids_unique(t));
        lemma_keep_unexpired(t, now);
        lemma_sessions_map(t);
        lemma_sessions_map(s);
        let kt = keep_unexpired(t, now);
        let ks = keep_unexpired(s, now);
        assert(!sessions_map(t).dom().contains(x.id@)) by {
            if sessions_map(t).dom().contains(x.id@) {
                let i = choose|i: int| 0 <= i < t.len() && #[trigger] t[i].id@ == x.id@;
                assert(t[i] == s[i]);
            }
        }
        assert forall|a: int| 0 <= a < ks.len() implies sessions_map(s).dom().contains(#[trigger] ks[a].id@) by {
            if a < kt.len() {
                assert(ks[a] == kt[a]);
                assert(sessions_map(t).dom().contains(kt[a].id@));
            } else {
                assert(ks[a] == s[n]);
            }
        }
        if expired_at(x, now) {
            assert(sessions_map(ks) =~= unexpired(sessions_map(s), now));
        } else {
            assert(ks.drop_last() == kt);
            assert(ids_unique(ks)) by {
                assert forall|a: int, b: int| 0 <= a < b < ks.len() implies ks[a].id@ != ks[b].id@ by {
                    assert(ks[a] == kt[a]);
                    if b < kt.len() {
                        assert(ks[b] == kt[b]);
                    } else {
                        assert(sessions_map(t).dom().contains(kt[a].id@));
                    }
                }
            }
            assert(sessions_map(ks) =~= unexpired(sessions_map(s), now));
        }
    }
}

/// Sessions held in memory, keyed by their id.
pub struct SessionStore {
    sessions: Vec<Session>,
}

impl SessionStore {
    /// The store is well formed: no two entries share an id.
    pub closed spec fn wf(&self) -> bool {
        ids_unique(self.sessions@)
    }

    /// The sessions of the store, keyed by id.
    pub closed spec fn view(&self) -> Map<Seq<char>, Session> {
        sessions_map(self.sessions@)
    }

    /// An empty store.
    pub fn new() -> (res: SessionStore)
        ensures
            res.wf(),
            res.view() == Map::<Seq<char>, Session>::empty(),
    {
        SessionStore { sessions: Vec::new() }
    }

    fn find(&self, id: &str) -> (res: Option<usize>)
        requires
            self.wf(),
        ensures
            match res {
                Some(i) => i < self.sessions@.len() && self.sessions@[i as int].id@ == id@,
                None => forall|i: int| 0 <= i < self.sessions@.len() ==> self.sessions@[i].id@ != id@,
            },
    {
        let mut i: usize = 0;
        while i < self.sessions.len()
            invariant
                i <= self.sessions@.len(),
                forall|k: int| 0 <= k < i ==> self.sessions@[k].id@ != id@,
            decreases self.sessions@.len() - i,
        {
            if str_eq(self.sessions[i].id.as_str(), id) {
                return Some(i);
            }
            i += 1;
        }
        None
    }

    /// Store a session under its id, replacing any session with the same id,
    /// and return that id.
    pub fn create(&mut self, session: Session) -> (res: String)
        requires
            old(self).wf(),
        ensures
            final(self).wf(),
            res@ == session.id@,
            final(self).view() == old(self).view().insert(session.id@, session),
    {
        let session_id = session.id.clone();
        proof {
            lemma_sessions_map(self.sessions@);
        }
        let ghost old_s = self.sessions@;
        match self.find(session_id.as_str()) {
            Some(i) => {
                let ghost x = session;
                self.sessions.set(i, session);
                proof {
                    let s = self.sessions@;
                    assert(s == old_s.update(i as int, x));
                    assert(ids_unique(s)) by {
                        assert forall|a: int, b: int| 0 <= a < b < s.len() implies s[a].id@ != s[b].id@ by {
                            if a != i && b != i {
                                assert(s[a] == old_s[a] && s[b] == old_s[b]);
                            } else if a == i {
                                assert(s[b] == old_s[b]);
                            } else {
                                assert(s[a] == old_s[a]);
                            }
                        }
                    }
                    lemma_sessions_map(s);
                    let m = sessions_map(old_s).insert(x.id@, x);
                    assert forall|k: Seq<char>| sessions_map(s).dom().contains(k) <==> m.dom().contains(k) by {
                        if m.dom().contains(k) {
                            if k == x.id@ {
                                assert(s[i as int].id@ == k);
                            } else {
                                let j = choose|j: int| 0 <= j < old_s.len() && #[trigger] old_s[j].id@ == k;
                                assert(j != i);
                                assert(s[j] == old_s[j]);
                                assert(s[j].id@ == k);
                            }
                        }
                        if sessions_map(s).dom().contains(k) {
                            let j = choose|j: int| 0 <= j < s.len() && #[trigger] s[j].id@ == k;
                            if j != i {
                                assert(s[j] == old_s[j]);
                                assert(old_s[j].id@ == k);
                            } else {
                                assert(k == x.id@);
                            }
                        }
                    }
                    assert forall|k: Seq<char>| #[trigger] m.dom().contains(k) implies sessions_map(s)[k] == m[k] by {
                        if k == x.id@ {
                            assert(s[i as int].id@ == k);
                        } else {
                            let j = choose|j: int| 0 <= j < old_s.len() && #[trigger] old_s[j].id@ == k;
                            assert(s[j] == old_s[j]);
                        }
                    }
                    assert(sessions_map(s) =~= m);
                }
            },
            None => {
                let ghost x = session;
                self.sessions.push(session);
                proof {
                    let s = self.sessions@;
                    assert(s.drop_last() =~= old_s);
                    assert(ids_unique(s)) by {
                        assert forall|a: int, b: int| 0 <= a < b < s.len() implies s[a].id@ != s[b].id@ by {
                            if b < old_s.len() {
                                assert(s[a] == old_s[a] && s[b] == old_s[b]);
                            } else {
                                assert(s[a] == old_s[a]);
                            }
                        }
                    }
                }
            },
        }
        session_id
    }

    /// The session stored under `id`, judged at time `now`: `NotFound` when
    /// there is none, `Expired` when it has expired, otherwise a copy of it.
    pub fn get_at(&self, session_id: &str, now: i64) -> (res: Result<Session, SessionError>)
        requires
            self.wf(),
        ensures
            res == lookup_at(self.view(), session_id@, now as int),
    {
        proof {
            lemma_sessions_map(self.sessions@);
        }
        match self.find(session_id) {
            None => Err(SessionError::NotFound),
            Some(i) => {
                let session = self.sessions[i].duplicate();
                if session.is_expired_at(now) {
                    Err(SessionError::Expired)
                } else {
                    Ok(session)
                }
            },
        }
    }

    /// The session stored under `id`, judged by the current clock.
    pub fn get(&self, session_id: &str) -> (res: Result<Session, SessionError>)
        requires
            self.wf(),
        ensures
            exists|now: int| res == #[trigger] lookup_at(self.view(), session_id@, now),
    {
        let now = now_unix_utc();
        self.get_at(session_id, now)
    }

    /// Forget the session stored under `id`, if any.
    pub fn delete(&mut self, session_id: &str) -> (res: Result<(), SessionError>)
        requires
            old(self).wf(),
        ensures
            final(self).wf(),
            res is Ok,
            final(self).view() == old(self).view().remove(session_id@),
    {
        proof {
            lemma_sessions_map(self.sessions@);
        }
        let ghost old_s = self.sessions@;
        match self.find(session_id) {
            None => {
                assert(old(self).view() =~= old(self).view().remove(session_id@));
            },
            Some(i) => {
                self.sessions.remove(i);
                proof {
                    let s = self.sessions@;
                    assert(s == old_s.remove(i as int));
                    assert(ids_unique(s)) by {
                        assert forall|a: int, b: int| 0 <= a < b < s.len() implies s[a].id@ != s[b].id@ by {
                            if b < i {
                                assert(s[a] == old_s[a] && s[b] == old_s[b]);
                            } else if a < i {
                                assert(s[a] == old_s[a] && s[b] == old_s[b + 1]);
                            } else {
                                assert(s[a] == old_s[a + 1] && s[b] == old_s[b + 1]);
                            }
                        }
                    }
                    lemma_sessions_map(s);
                    let m = sessions_map(old_s).remove(session_id@);
                    assert forall|k: Seq<char>| sessions_map(s).dom().contains(k) <==> m.dom().contains(k) by {
                        if m.dom().contains(k) {
                            let j = choose|j: int| 0 <= j < old_s.len() && #[trigger] old_s[j].id@ == k;
                            assert(j != i);
                            if j < i {
                                assert(s[j].id@ == k);
                            } else {
                                assert(s[j - 1].id@ == k);
                            }
                        }
                        if sessions_map(s).dom().contains(k) {
                            let j = choose|j: int| 0 <= j < s.len() && #[trigger] s[j].id@ == k;
                            if j < i {
                                assert(old_s[j].id@ == k);
                            } else {
                                assert(old_s[j + 1].id@ == k);
                            }
                        }
                    }
                    assert forall|k: Seq<char>| #[trigger] m.dom().contains(k) implies sessions_map(s)[k] == m[k] by {
                        let j = choose|j: int| 0 <= j < old_s.len() && #[trigger] old_s[j].id@ == k;
                        if j < i {
                            assert(s[j] == old_s[j]);
                        } else {
                            assert(s[j - 1] == old_s[j]);
                        }
                    }
                    assert(sessions_map(s) =~= m);
                }
            },
        }
        Ok(())
    }

    /// Drop every session that has expired at time `now`; the others stay
    /// unchanged.
    pub fn cleanup_expired_at(&mut self, now: i64)
        requires
            old(self).wf(),
        ensures
            final(self).wf(),
            final(self).view() == unexpired(old(self).view(), now as int),
    {
        proof {
            lemma_sessions_map(self.sessions@);
        }
        let ghost old_s = self.sessions@;
        let mut kept: Vec<Session> = Vec::new();
        let mut j: usize = 0;
        assert(old_s.take(0) =~= Seq::<Session>::empty());
        while j < self.sessions.len()
            invariant
                self.sessions@ == old_s,
                j <= old_s.len(),
                kept@ == keep_unexpired(old_s.take(j as int), now as int),
            decreases old_s.len() - j,
        {
            assert(old_s.take(j + 1).drop_last() =~= old_s.take(j as int));
            if !self.sessions[j].is_expired_at(now) {
                let s = self.sessions[j].duplicate();
                kept.push(s);
            }
            j += 1;
        }
        assert(old_s.take(old_s.len() as int) =~= old_s);
        self.sessions = kept;
        proof {
            lemma_keep_unexpired(old_s, now as int);
        }
    }

    /// Drop every session that has expired by the current clock.
    pub fn cleanup_expired(&mut self)
        requires
            old(self).wf(),
        ensures
            final(self).wf(),
            exists|now: int| final(self).view() == #[trigger] unexpired(old(self).view(), now),
    {
        let now = now_unix_utc();
        self.cleanup_expired_at(now);
    }

    /// The number of sessions held.
    pub fn len(&self) -> (res: usize)
        requires
            self.wf(),
        ensures
            res == self.view().dom().len(),
    {
        proof {
            lemma_sessions_map_len(self.sessions@);
        }
        self.sessions.len()
    }
}

proof fn lemma_sessions_map_len(s: Seq<Session>)
    requires
        ids_unique(s),
    ensures
        sessions_map(s).dom().len() == s.len(),
        sessions_map(s).dom().finite(),
    decreases s.len(),
{
    if s.len() > 0 {
        let t = s.drop_last();
        assert(ids_unique(t));
        lemma_sessions_map_len(t);
        lemma_sessions_map(t);
        if sessions_map(t).dom().contains(s.last().id@) {
            let i = choose|i: int| 0 <= i < t.len() && #[trigger] t[i].id@ == s.last().id@;
            assert(s[i].id@ == s[s.len() - 1].id@);
        }
    }
}

/// A stored session is found again under its id for as long as it has not
/// expired.
pub proof fn law_get_after_create(m: Map<Seq<char>, Session>, x: Session, now: int)
    requires
        !expired_at(x, now),
    ensures
        lookup_at(m.insert(x.id@, x), x.id@, now) == Ok::<Session, SessionError>(x),
{
}

/// Storing a session leaves every other id's lookup unchanged.
pub proof fn law_create_keeps_others(m: Map<Seq<char>, Session>, x: Session, id: Seq<char>, now: int)
    requires
        id != x.id@,
    ensures
        lookup_at(m.insert(x.id@, x), id, now) == lookup_at(m, id, now),
{
}

/// After a logout the session is no longer found.
pub proof fn law_get_after_delete(m: Map<Seq<char>, Session>, id: Seq<char>, now: int)
    ensures
        lookup_at(m.remove(id), id, now) matches Err(SessionError::NotFound),
{
}

/// Cleaning up at `now` turns exactly the lookups that reported `Expired`
/// into `NotFound` and leaves all other lookups at `now` unchanged.
pub proof fn law_cleanup_then_get(m: Map<Seq<char>, Session>, id: Seq<char>, now: int)
    ensures
        lookup_at(m, id, now) matches Err(SessionError::Expired) ==> lookup_at(unexpired(m, now), id, now) matches Err(SessionError::NotFound),
        !(lookup_at(m, id, now) matches Err(SessionError::Expired)) ==> lookup_at(unexpired(m, now), id, now) == lookup_at(m, id, now),
{
}

// ---------------------------------------------------------------------------
// Session and cookie names
// ---------------------------------------------------------------------------

/// The key under which a tenant session is kept in the cache:
/// `session:<id>`.
pub fn session_key(session_id: &str) -> (res: String)
    ensures
        res@ == "session:"@ + session_id@,
{
    let mut key = String::new();
    push_str(&mut key, "session:");
    push_str(&mut key, session_id);
    key
}

/// The cache lifetime of a tenant session: its lifetime in seconds, or one
/// hour when the expiry lies before the creation time.
pub fn session_ttl_secs(created_at: i64, expires_at: i64) -> (res: u64)
    requires
        i64::MIN <= expires_at - created_at <= i64::MAX,
    ensures
        res == if expires_at - created_at >= 0 { (expires_at - created_at) as u64 } else { 3600 },
{
    let ttl = expires_at - created_at;
    if ttl >= 0 {
        ttl as u64
    } else {
        3600
    }
}

/// The `Set-Cookie` value of a login:
/// `session_id=<id>; Path=/; HttpOnly; SameSite=Strict; Secure`.
pub fn build_session_cookie(session_id: &str) -> (res: String)
    ensures
        res@ == "session_id="@ + session_id@ + "; Path=/; HttpOnly; SameSite=Strict; Secure"@,
{
    let mut cookie = String::new();
    push_str(&mut cookie, "session_id=");
    push_str(&mut cookie, session_id);
    push_str(&mut cookie, "; Path=/; HttpOnly; SameSite=Strict; Secure");
    cookie
}

/// A space or a tab (the white space that cookie parsing trims).
pub open spec fn is_wsp(c: char) -> bool {
    c == ' ' || c == '\t'
}

pub open spec fn trim_start_wsp(s: Seq<char>) -> Seq<char>
    decreases s.len(),
{
    if s.len() > 0 && is_wsp(s[0]) {
        trim_start_wsp(s.skip(1))
    } else {
        s
    }
}

pub open spec fn trim_end_wsp(s: Seq<char>) -> Seq<char>
    decreases s.len(),
{
    if s.len() > 0 && is_wsp(s.last()) {
        trim_end_wsp(s.drop_last())
    } else {
        s
    }
}

/// `s` without leading and trailing white space.
pub open spec fn trim_wsp(s: Seq<char>) -> Seq<char> {
    trim_end_wsp(trim_start_wsp(s))
}

/// The name of the cookie a `Set-Cookie` value sets (RFC 6265, 5.2): the
/// text of its first `;`-separated part before the first `=`, trimmed.
pub open spec fn set_cookie_name(v: Seq<char>) -> Seq<char> {
    trim_wsp(before_char(split_parts(v, ';')[0], '='))
}

/// The value of the cookie a `Set-Cookie` value sets: the text of its
/// first part after the first `=`, trimmed.
pub open spec fn set_cookie_value(v: Seq<char>) -> Seq<char> {
    let p = split_parts(v, ';')[0];
    trim_wsp(p.skip(before_char(p, '=').len() + 1 as int))
}

/// The attributes of a `Set-Cookie` value: its other parts, trimmed.
pub open spec fn set_cookie_attributes(v: Seq<char>) -> Seq<Seq<char>> {
    split_parts(v, ';').skip(1).map_values(|a: Seq<char>| trim_wsp(a))
}

proof fn lemma_before_char_concat(x: Seq<char>, y: Seq<char>, c: char)
    requires
        lacks_char(x, c),
        y.len() > 0,
        y[0] == c,
    ensures
        before_char(x + y, c) == x,
    decreases x.len(),
{
    if x.len() == 0 {
        assert(x + y =~= y);
    } else {
        lemma_before_char_concat(x.skip(1), y, c);
        assert((x + y).skip(1) =~= x.skip(1) + y);
        assert(seq![x[0]] + x.skip(1) =~= x);
    }
}

proof fn lemma_trim_leading_space(s: Seq<char>)
    requires
        s.len() > 1,
        s[0] == ' ',
        !is_wsp(s[1]),
        !is_wsp(s.last()),
    ensures
        trim_wsp(s) == s.skip(1),
{
    assert(trim_start_wsp(s.skip(1)) == s.skip(1));
    assert(s.skip(1).last() == s.last());
}

/// The cookie of a login reads back as set: for a session id without `;`
/// that neither starts nor ends with white space, the `Set-Cookie` value is
/// read as the cookie `session_id` with that id as its value and exactly
/// the attributes `Path=/`, `HttpOnly`, `SameSite=Strict` and `Secure`.
pub proof fn law_session_cookie_reads_back(id: Seq<char>)
    requires
        lacks_char(id, ';'),
        id.len() > 0 ==> !is_wsp(id[0]) && !is_wsp(id.last()),
    ensures
        set_cookie_name("session_id="@ + id + "; Path=/; HttpOnly; SameSite=Strict; Secure"@) == "session_id"@,
        set_cookie_value("session_id="@ + id + "; Path=/; HttpOnly; SameSite=Strict; Secure"@) == id,
        set_cookie_attributes("session_id="@ + id + "; Path=/; HttpOnly; SameSite=Strict; Secure"@) == seq![
            "Path=/"@,
            "HttpOnly"@,
            "SameSite=Strict"@,
            "Secure"@,
        ],
{
    reveal_strlit("session_id=");
    reveal_strlit("session_id");
    reveal_strlit("; Path=/; HttpOnly; SameSite=Strict; Secure");
    reveal_strlit("Path=/");
    reveal_strlit("HttpOnly");
    reveal_strlit("SameSite=Strict");
    reveal_strlit("Secure");
    let v = "session_id="@ + id + "; Path=/; HttpOnly; SameSite=Strict; Secure"@;
    let name = "session_id"@;
    let a = name + seq!['='] + id;
    let b1 = seq![' '] + "Path=/"@;
    let b2 = seq![' '] + "HttpOnly"@;
    let b3 = seq![' '] + "SameSite=Strict"@;
    let b4 = seq![' '] + "Secure"@;
    let semi = seq![';'];
    assert(v =~= a + semi + b1 + semi + b2 + semi + b3 + semi + b4);
    assert(lacks_char(a, ';')) by {
        assert forall|i: int| 0 <= i < a.len() implies #[trigger] a[i] != ';' by {
            if i >= 11 {
                assert(a[i] == id[i - 11]);
            }
        }
    }
    assert(lacks_char(b1, ';'));
    assert(lacks_char(b2, ';'));
    assert(lacks_char(b3, ';'));
    assert(lacks_char(b4, ';'));
    let e = Seq::<char>::empty();
    lemma_split_append(e, a, ';');
    assert(e + a =~= a);
    let p1 = a + semi;
    assert(p1.drop_last() =~= a);
    assert(split_state(p1, ';') == (seq![a], e));
    lemma_split_append(p1, b1, ';');
    assert(e + b1 =~= b1);
    let p2 = p1 + b1 + semi;
    assert(p2.drop_last() =~= p1 + b1);
    assert(split_state(p2, ';') == (seq![a, b1], e));
    lemma_split_append(p2, b2, ';');
    assert(e + b2 =~= b2);
    let p3 = p2 + b2 + semi;
    assert(p3.drop_last() =~= p2 + b2);
    assert(split_state(p3, ';') == (seq![a, b1, b2], e));
    lemma_split_append(p3, b3, ';');
    assert(e + b3 =~= b3);
    let p4 = p3 + b3 + semi;
    assert(p4.drop_last() =~= p3 + b3);
    assert(split_state(p4, ';') == (seq![a, b1, b2, b3], e));
    lemma_split_append(p4, b4, ';');
    assert(e + b4 =~= b4);
    assert(v =~= p4 + b4);
    assert(split_parts(v, ';') =~= seq![a, b1, b2, b3, b4]);
    assert(lacks_char(name, '='));
    lemma_before_char_concat(name, seq!['='] + id, '=');
    assert(a =~= name + (seq!['='] + id));
    assert(before_char(a, '=') == name);
    assert(trim_start_wsp(name) == name);
    assert(trim_end_wsp(name) == name);
    assert(a.skip(11) =~= id);
    if id.len() > 0 {
        assert(trim_start_wsp(id) == id);
        assert(trim_end_wsp(id) == id);
    } else {
        assert(trim_start_wsp(id) == id);
        assert(trim_end_wsp(id) == id);
    }
    lemma_trim_leading_space(b1);
    lemma_trim_leading_space(b2);
    lemma_trim_leading_space(b3);
    lemma_trim_leading_space(b4);
    assert(b1.skip(1) =~= "Path=/"@);
    assert(b2.skip(1) =~= "HttpOnly"@);
    assert(b3.skip(1) =~= "SameSite=Strict"@);
    assert(b4.skip(1) =~= "Secure"@);
    assert(set_cookie_attributes(v) =~= seq!["Path=/"@, "HttpOnly"@, "SameSite=Strict"@, "Secure"@]);
}

// ---------------------------------------------------------------------------
// Cache session tokens
// ---------------------------------------------------------------------------

/// A character allowed in a session token: alphanumeric in Unicode's sense
/// (among ASCII characters, the letters and digits).
pub open spec fn token_char(c: char) -> bool {
    alnum_char(c)
}

/// A well-formed session token: 32 bytes of UTF-8, every character
/// alphanumeric.
pub open spec fn session_token_valid(token: Seq<char>) -> bool {
    &&& utf8(token).len() == 32
    &&& forall|i: int| 0 <= i < token.len() ==> token_char(#[trigger] token[i])
}

/// Check the form of a session token; a malformed one is `Invalid`.
pub fn validate_session_token(token: &str) -> (res: Result<(), SessionError>)
    ensures
        session_token_valid(token@) ==> res is Ok,
        !session_token_valid(token@) ==> (res matches Err(SessionError::Invalid)),
{
    let bytes = utf8_bytes(token);
    if bytes.len() != 32 {
        return Err(SessionError::Invalid);
    }
    let cs = chars_of(token);
    let mut i: usize = 0;
    while i < cs.len()
        invariant
            cs@ == token@,
            i <= cs@.len(),
            forall|j: int| 0 <= j < i ==> token_char(#[trigger] cs@[j]),
        decreases cs@.len() - i,
    {
        if !is_alphanumeric_char(cs[i]) {
            return Err(SessionError::Invalid);
        }
        i = i + 1;
    }
    Ok(())
}

/// A fresh session token: 32 random ASCII letters and digits.
pub fn new_session_token() -> (res: String)
    ensures
        res@.len() == 32,
        forall|i: int| 0 <= i < 32 ==> is_ascii_alphanumeric(#[trigger] res@[i]),
{
    let cs = random_alphanumeric(32);
    string_from_chars(&cs)
}

/// Every token that `new_session_token` can produce passes
/// `validate_session_token`.
pub proof fn law_new_token_is_valid(token: Seq<char>)
    requires
        token.len() == 32,
        forall|i: int| 0 <= i < 32 ==> is_ascii_alphanumeric(#[trigger] token[i]),
    ensures
        session_token_valid(token),
{
    assert(vstd::utf8::is_ascii_chars(token)) by {
        assert forall|i: int| 0 <= i < token.len() implies '\0' <= #[trigger] token[i] <= '\u{7f}' by {
            assert(is_ascii_alphanumeric(token[i]));
        }
    }
    vstd::utf8::is_ascii_chars_encode_utf8(token);
    assert forall|i: int| 0 <= i < token.len() implies token_char(#[trigger] token[i]) by {
        assert(is_ascii_alphanumeric(token[i]));
    }
}

/// A token holding a character that is ASCII but neither a letter nor a
/// digit (a space, `/`, `-`, ...) is never valid.
pub proof fn law_token_with_ascii_symbol_is_invalid(token: Seq<char>, i: int)
    requires
        0 <= i < token.len(),
        token[i] <= '\u{7f}',
        !is_ascii_alphanumeric(token[i]),
    ensures
        !session_token_valid(token),
{
    assert(!token_char(token[i]));
}

/// How long the previous token stays usable after a rotation, in seconds.
pub const ROTATION_OVERLAP_SECS: u64 = 30;

/// The cache writes of a token rotation, in order: store the session under
/// the new token's key with the full lifetime, then let the old token's key
/// expire after the overlap (for requests already in flight).
pub struct RotationPlan {
    pub new_token: String,
    pub new_key: String,
    pub session_data: String,
    pub ttl_secs: u64,
    pub old_key: String,
    pub old_key_ttl_secs: u64,
}

/// Rotate the token of a session, given what reading the session under the
/// old token gave: a failed read is passed on, a missing session is
/// `NotFound`; otherwise the session moves to a fresh token.
pub fn rotation_plan(old_token: &str, ttl_secs: u64, read: Result<Option<String>, SessionError>) -> (res: Result<
    RotationPlan,
    SessionError,
>)
    ensures
        read matches Err(e) ==> (res matches Err(f) && f == e),
        read matches Ok(None) ==> (res matches Err(SessionError::NotFound)),
        read matches Ok(Some(data)) ==> (res matches Ok(plan) && {
            &&& session_token_valid(plan.new_token@)
            &&& plan.new_token@.len() == 32
            &&& forall|i: int| 0 <= i < 32 ==> is_ascii_alphanumeric(#[trigger] plan.new_token@[i])
            &&& plan.new_key@ == "session:"@ + plan.new_token@
            &&& plan.session_data == data
            &&& plan.ttl_secs == ttl_secs
            &&& plan.old_key@ == "session:"@ + old_token@
            &&& plan.old_key_ttl_secs == ROTATION_OVERLAP_SECS
        }),
{
    let data = match read {
        Err(e) => return Err(e),
        Ok(None) => return Err(SessionError::NotFound),
        Ok(Some(data)) => data,
    };
    let new_token = new_session_token();
    proof {
        law_new_token_is_valid(new_token@);
    }
    let new_key = session_key(new_token.as_str());
    Ok(RotationPlan {
        new_token,
        new_key,
        session_data: data,
        ttl_secs,
        old_key: session_key(old_token),
        old_key_ttl_secs: ROTATION_OVERLAP_SECS,
    })
}

} // verus!
