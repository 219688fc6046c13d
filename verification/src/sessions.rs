//! Control sessions: bearer tokens handed out after a PIN check, each valid
//! until its expiry instant.
use vstd::prelude::*;

use crate::time::Timestamp;

verus! {

/// One control session.
#[derive(Debug)]
pub struct Session {
    pub token: String,
    pub expires_at_utc: Timestamp,
}

/// The token-to-expiry map that a sequence of sessions stands for; a later
/// entry for a token wins.
pub open spec fn sessions_view(s: Seq<Session>) -> Map<Seq<char>, Timestamp>
    decreases s.len(),
{
    if s.len() == 0 {
        Map::empty()
    } else {
        sessions_view(s.drop_last()).insert(s.last().token@, s.last().expires_at_utc)
    }
}

/// No token occurs twice.
pub open spec fn tokens_distinct(s: Seq<Session>) -> bool
    decreases s.len(),
{
    s.len() == 0 || (tokens_distinct(s.drop_last()) && !sessions_view(s.drop_last()).contains_key(
        s.last().token@,
    ))
}

/// The entries of `m` whose token and expiry satisfy `keep`.
pub open spec fn map_keep(
    m: Map<Seq<char>, Timestamp>,
    keep: spec_fn(Seq<char>, Timestamp) -> bool,
) -> Map<Seq<char>, Timestamp> {
    Map::new(|k: Seq<char>| m.contains_key(k) && keep(k, m[k]), |k: Seq<char>| m[k])
}

/// The sessions still valid at `now`.
pub open spec fn live_sessions(m: Map<Seq<char>, Timestamp>, now: Timestamp) -> Map<
    Seq<char>,
    Timestamp,
> {
    map_keep(m, |k: Seq<char>, e: Timestamp| e@ > now@)
}

/// Whether `token` names a session valid at `now`.
pub open spec fn session_valid(m: Map<Seq<char>, Timestamp>, token: Seq<char>, now: Timestamp) -> bool {
    m.contains_key(token) && m[token]@ > now@
}

proof fn lemma_view_keys(s: Seq<Session>, k: Seq<char>)
    ensures
        sessions_view(s).contains_key(k) <==> exists|i: int| 0 <= i < s.len() && s[i].token@ == k,
    decreases s.len(),
{
    if s.len() > 0 {
        lemma_view_keys(s.drop_last(), k);
        if sessions_view(s).contains_key(k) && s.last().token@ != k {
            let i = choose|i: int| 0 <= i < s.drop_last().len() && s.drop_last()[i].token@ == k;
            assert(s[i].token@ == k);
        }
        if exists|i: int| 0 <= i < s.len() && s[i].token@ == k {
            let i = choose|i: int| 0 <= i < s.len() && s[i].token@ == k;
            if i < s.len() - 1 {
                assert(s.drop_last()[i].token@ == k);
            }
        }
    }
}

proof fn lemma_view_at(s: Seq<Session>, i: int)
    requires
        tokens_distinct(s),
        0 <= i < s.len(),
    ensures
        sessions_view(s).contains_key(s[i].token@),
        sessions_view(s)[s[i].token@] == s[i].expires_at_utc,
    decreases s.len(),
{
    if i < s.len() - 1 {
        lemma_view_at(s.drop_last(), i);
        assert(s.drop_last()[i] == s[i]);
    }
}

proof fn lemma_filter_step(s: Seq<Session>, p: spec_fn(Session) -> bool, i: int)
    requires
        0 <= i < s.len(),
    ensures
        s.take(i + 1).filter(p) == if p(s[i]) {
            s.take(i).filter(p).push(s[i])
        } else {
            s.take(i).filter(p)
        },
{
    reveal(Seq::filter);
    assert(s.take(i + 1).drop_last() =~= s.take(i));
}

proof fn lemma_filter_view(
    s: Seq<Session>,
    keep: spec_fn(Seq<char>, Timestamp) -> bool,
    p: spec_fn(Session) -> bool,
)
    requires
        tokens_distinct(s),
        forall|x: Session| #[trigger] p(x) == keep(x.token@, x.expires_at_utc),
    ensures
        tokens_distinct(s.filter(p)),
        sessions_view(s.filter(p)) == map_keep(sessions_view(s), keep),
    decreases s.len(),
{
    reveal(Seq::filter);
    if s.len() == 0 {
        assert(sessions_view(s.filter(p)) =~= map_keep(sessions_view(s), keep));
    } else {
        let dl = s.drop_last();
        let x = s.last();
        lemma_filter_view(dl, keep, p);
        assert(s.filter(p) == if p(x) { dl.filter(p).push(x) } else { dl.filter(p) });
        if p(x) {
            assert(dl.filter(p).push(x).drop_last() =~= dl.filter(p));
            assert(sessions_view(s.filter(p)) =~= map_keep(sessions_view(s), keep));
        } else {
            assert(sessions_view(s.filter(p)) =~= map_keep(sessions_view(s), keep));
        }
    }
}

/// The set of open control sessions.
pub struct SessionStore {
    entries: Vec<Session>,
}

impl View for SessionStore {
    type V = Map<Seq<char>, Timestamp>;

    closed spec fn view(&self) -> Map<Seq<char>, Timestamp> {
        sessions_view(self.entries@)
    }
}

fn copy_session(s: &Session) -> (r: Session)
    ensures
        r == *s,
{
    Session { token: s.token.clone(), expires_at_utc: s.expires_at_utc }
}

impl SessionStore {
    #[verifier::type_invariant]
    closed spec fn distinct(self) -> bool {
        tokens_distinct(self.entries@)
    }

    /// No sessions.
    pub fn new() -> (r: SessionStore)
        ensures
            r@ == Map::<Seq<char>, Timestamp>::empty(),
    {
        SessionStore { entries: Vec::new() }
    }

    /// Opens (or renews) the session `token`, valid until `expires_at_utc`.
    pub fn record(&mut self, token: String, expires_at_utc: Timestamp)
        ensures
            final(self)@ == old(self)@.insert(token@, expires_at_utc),
    {
        proof { use_type_invariant(&*self); }
        let ghost old_entries = self.entries@;
        let ghost p = |x: Session| x.token@ != token@;
        let ghost keep = |k: Seq<char>, e: Timestamp| k != token@;
        let mut kept: Vec<Session> = Vec::new();
        let n = self.entries.len();
        for i in 0..n
            invariant
                n == self.entries.len(),
                self.entries@ == old_entries,
                kept@ == old_entries.take(i as int).filter(p),
                p == (|x: Session| x.token@ != token@),
        {
            proof { lemma_filter_step(old_entries, p, i as int); }
            if !(self.entries[i].token == token) {
                kept.push(copy_session(&self.entries[i]));
            }
        }
        proof {
            assert(old_entries.take(n as int) =~= old_entries);
            lemma_filter_view(old_entries, keep, p);
            assert(kept@.push(Session { token, expires_at_utc }).drop_last() =~= kept@);
        }
        kept.push(Session { token, expires_at_utc });
        proof {
            assert(sessions_view(kept@) =~= old(self)@.insert(token@, expires_at_utc));
        }
        self.entries = kept;
    }

    /// Forgets every session that is no longer valid at `now`.
    pub fn prune(&mut self, now: Timestamp)
        ensures
            final(self)@ == live_sessions(old(self)@, now),
    {
        proof { use_type_invariant(&*self); }
        let ghost old_entries = self.entries@;
        let ghost p = |x: Session| x.expires_at_utc@ > now@;
        let ghost keep = |k: Seq<char>, e: Timestamp| e@ > now@;
        let mut kept: Vec<Session> = Vec::new();
        let n = self.entries.len();
        for i in 0..n
            invariant
                n == self.entries.len(),
                self.entries@ == old_entries,
                kept@ == old_entries.take(i as int).filter(p),
                p == (|x: Session| x.expires_at_utc@ > now@),
        {
            proof { lemma_filter_step(old_entries, p, i as int); }
            if self.entries[i].expires_at_utc.is_after(&now) {
                kept.push(copy_session(&self.entries[i]));
            }
        }
        proof {
            assert(old_entries.take(n as int) =~= old_entries);
            lemma_filter_view(old_entries, keep, p);
        }
        self.entries = kept;
    }

    /// The expiry of session `token`, if it is open.
    pub fn expiry_of(&self, token: &str) -> (r: Option<Timestamp>)
        ensures
            r == if self@.contains_key(token@) {
                Some(self@[token@])
            } else {
                None
            },
    {
        proof { use_type_invariant(self); }
        let wanted = token.to_owned();
        let n = self.entries.len();
        for i in 0..n
            invariant
                n == self.entries.len(),
                wanted@ == token@,
                tokens_distinct(self.entries@),
                forall|j: int| 0 <= j < i ==> self.entries@[j].token@ != token@,
        {
            if self.entries[i].token == wanted {
                proof { lemma_view_at(self.entries@, i as int); }
                return Some(self.entries[i].expires_at_utc);
            }
        }
        proof { lemma_view_keys(self.entries@, token@); }
        None
    }
}

} // verus!
