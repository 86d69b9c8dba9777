//! Forward-secret session keys between clients, and the flushing of their
//! message counters.
use vstd::prelude::*;
use crate::error::VaultlessError;
use crate::text::{chars_of, string_of, split_chars, split_text, chars_starts_with, sub_chars, views, join_text, free_of, lemma_split_join};
use crate::usage::counters::wrapping_inc;
use crate::keys::{key_text, cache_key};

verus! {

/// A client and the application it belongs to.
#[derive(Debug, Clone, Copy, PartialEq, Eq, Structural)]
pub struct ClientAppRef {
    pub id: u128,
    pub application_id: u128,
}

/// The first client with identifier `id`.
pub open spec fn find_client(cs: Seq<ClientAppRef>, id: u128) -> Option<ClientAppRef>
    decreases cs.len(),
{
    if cs.len() == 0 {
        None
    } else if cs[0].id == id {
        Some(cs[0])
    } else {
        find_client(cs.drop_first(), id)
    }
}

fn find_client_exec(cs: &Vec<ClientAppRef>, id: u128) -> (r: Option<ClientAppRef>)
    ensures
        r == find_client(cs@, id),
{
    let mut i: usize = 0;
    assert(cs@.subrange(0, cs.len() as int) =~= cs@);
    while i < cs.len()
        invariant
            i <= cs.len(),
            find_client(cs@, id) == find_client(cs@.subrange(i as int, cs.len() as int), id),
        decreases cs.len() - i,
    {
        let ghost rest = cs@.subrange(i as int, cs.len() as int);
        assert(rest.drop_first() =~= cs@.subrange(i + 1, cs.len() as int));
        if cs[i].id == id {
            return Some(cs[i]);
        }
        i = i + 1;
    }
    None
}

/// The application two clients share, from the looked-up clients: both
/// must be found (exactly two rows) and belong to the same application.
pub fn validate_same_application(clients: &Vec<ClientAppRef>, client_id: u128, peer_client_id: u128) -> (r: Result<u128, VaultlessError>)
    ensures
        clients@.len() != 2 ==> (r matches Err(VaultlessError::NotFound(m)) && m@ == "One or both clients not found"@),
        clients@.len() == 2 && find_client(clients@, client_id) is None
            ==> (r matches Err(VaultlessError::NotFound(m)) && m@ == "Client not found"@),
        clients@.len() == 2 && find_client(clients@, client_id) is Some && find_client(clients@, peer_client_id) is None
            ==> (r matches Err(VaultlessError::NotFound(m)) && m@ == "Peer client not found"@),
        clients@.len() == 2 ==> (find_client(clients@, client_id) matches Some(a)
            ==> (find_client(clients@, peer_client_id) matches Some(b) ==> (a.application_id != b.application_id
                ==> (r matches Err(VaultlessError::Forbidden(m)) && m@ == "Clients must belong to the same application to establish a session"@)))),
        clients@.len() == 2 ==> (find_client(clients@, client_id) matches Some(a)
            ==> (find_client(clients@, peer_client_id) matches Some(b) ==> (a.application_id == b.application_id
                ==> r == Ok::<u128, VaultlessError>(a.application_id)))),
{
    if clients.len() != 2 {
        return Err(VaultlessError::NotFound(String::from_str("One or both clients not found")));
    }
    let c1 = match find_client_exec(clients, client_id) {
        Some(c) => c,
        None => {
            return Err(VaultlessError::NotFound(String::from_str("Client not found")));
        },
    };
    let c2 = match find_client_exec(clients, peer_client_id) {
        Some(c) => c,
        None => {
            return Err(VaultlessError::NotFound(String::from_str("Peer client not found")));
        },
    };
    if c1.application_id != c2.application_id {
        return Err(VaultlessError::Forbidden(String::from_str("Clients must belong to the same application to establish a session")));
    }
    Ok(c1.application_id)
}

// =============================================================================
// Counter flushing
// =============================================================================

/// Counters that monitor the session flusher.
#[derive(Debug, Clone, Copy, PartialEq, Eq, Structural)]
pub struct SessionFlusherMetrics {
    pub sessions_flushed: u64,
    pub errors: u64,
    pub total_flush_duration_ms: u64,
}

impl SessionFlusherMetrics {
    /// All counters at zero.
    pub fn new() -> (m: SessionFlusherMetrics)
        ensures
            m == (SessionFlusherMetrics { sessions_flushed: 0, errors: 0, total_flush_duration_ms: 0 }),
    {
        SessionFlusherMetrics { sessions_flushed: 0, errors: 0, total_flush_duration_ms: 0 }
    }

    /// Counts one error.
    pub fn record_error(&mut self)
        ensures
            *final(self) == (SessionFlusherMetrics { errors: wrapping_inc(old(self).errors), ..*old(self) }),
    {
        self.errors = if self.errors == u64::MAX { 0 } else { self.errors + 1 };
    }
}

/// `s` without its leading colons.
pub open spec fn trim_leading(s: Seq<char>) -> Seq<char>
    decreases s.len(),
{
    if s.len() > 0 && s[0] == ':' {
        trim_leading(s.drop_first())
    } else {
        s
    }
}

/// `s` without its trailing colons.
pub open spec fn trim_trailing(s: Seq<char>) -> Seq<char>
    decreases s.len(),
{
    if s.len() > 0 && s.last() == ':' {
        trim_trailing(s.drop_last())
    } else {
        s
    }
}

/// The session a counter key names: with the prefix
/// `vaultless:session:metric` removed and surrounding colons trimmed, the
/// text before the first colon; empty for a key without the prefix.
pub open spec fn session_id_of(key: Seq<char>) -> Seq<char> {
    let p = "vaultless:session:metric"@;
    if p.len() <= key.len() && key.subrange(0, p.len() as int) == p {
        split_text(trim_trailing(trim_leading(key.subrange(p.len() as int, key.len() as int))), ':')[0]
    } else {
        Seq::empty()
    }
}

fn trim_colons(s: &Vec<char>) -> (r: Vec<char>)
    ensures
        r@ == trim_trailing(trim_leading(s@)),
{
    let mut a: usize = 0;
    assert(s@.subrange(0, s.len() as int) =~= s@);
    while a < s.len() && s[a] == ':'
        invariant
            a <= s.len(),
            trim_leading(s@) == trim_leading(s@.subrange(a as int, s.len() as int)),
        decreases s.len() - a,
    {
        assert(s@.subrange(a as int, s.len() as int).drop_first() =~= s@.subrange(a + 1, s.len() as int));
        a = a + 1;
    }
    proof {
        assert(s@.subrange(0, s.len() as int) =~= s@);
    }
    let mid = sub_chars(s, a, s.len());
    assert(trim_leading(s@) == mid@);
    let mut b: usize = mid.len();
    assert(mid@.subrange(0, mid.len() as int) =~= mid@);
    while b > 0 && mid[b - 1] == ':'
        invariant
            b <= mid.len(),
            trim_trailing(mid@) == trim_trailing(mid@.subrange(0, b as int)),
        decreases b,
    {
        assert(mid@.subrange(0, b as int).drop_last() =~= mid@.subrange(0, b - 1));
        b = b - 1;
    }
    proof {
        assert(mid@.subrange(0, mid.len() as int) =~= mid@);
    }
    sub_chars(&mid, 0, b)
}

/// The session a counter key names (empty when it names none).
pub fn extract_session_id_from_key(key: &str) -> (id: String)
    ensures
        id@ == session_id_of(key@),
{
    let k = chars_of(key);
    let p = chars_of("vaultless:session:metric");
    if !chars_starts_with(&k, &p) {
        return String::new();
    }
    let after = sub_chars(&k, p.len(), k.len());
    let t = trim_colons(&after);
    let parts = split_chars(&t, ':');
    proof {
        crate::text::lemma_split_nonempty(t@, ':');
    }
    string_of(&parts[0])
}

/// The key of one counter (`sent`, `received`, `proved`, `bytes_sent`,
/// `bytes_received`) of a session: `vaultless:session:metric:{session}:{counter}`.
pub fn session_metric_key(session_id: &str, counter: &str) -> (k: String)
    ensures
        k@ == key_text(seq!["session"@, "metric"@, session_id@, counter@]),
{
    let mut parts: Vec<Vec<char>> = Vec::new();
    parts.push(chars_of("session"));
    parts.push(chars_of("metric"));
    parts.push(chars_of(session_id));
    parts.push(chars_of(counter));
    assert(views(parts@) =~= seq!["session"@, "metric"@, session_id@, counter@]);
    cache_key(parts)
}

/// Law: the session named by a session counter key is the session it was
/// made for (a non-empty session text without `:`, a counter name without
/// `:`).
pub proof fn lemma_session_metric_key_names_session(session_id: Seq<char>, counter: Seq<char>)
    requires
        session_id.len() > 0,
        free_of(session_id, ':'),
        free_of(counter, ':'),
        counter.len() > 0,
    ensures
        session_id_of(key_text(seq!["session"@, "metric"@, session_id, counter])) == session_id,
{
    reveal_strlit("vaultless");
    reveal_strlit("session");
    reveal_strlit("metric");
    reveal_strlit("vaultless:session:metric");
    let parts = seq!["vaultless"@, "session"@, "metric"@, session_id, counter];
    assert(seq!["vaultless"@].add(seq!["session"@, "metric"@, session_id, counter]) =~= parts);
    let p = "vaultless:session:metric"@;
    let j3 = join_text(seq!["vaultless"@, "session"@, "metric"@], ':');
    assert(seq!["vaultless"@, "session"@, "metric"@].drop_last() =~= seq!["vaultless"@, "session"@]);
    assert(seq!["vaultless"@, "session"@].drop_last() =~= seq!["vaultless"@]);
    let j1 = join_text(seq!["vaultless"@], ':');
    assert(j1 == "vaultless"@);
    let j2 = join_text(seq!["vaultless"@, "session"@], ':');
    assert(j2 == j1.push(':') + "session"@);
    assert(j3 == j2.push(':') + "metric"@);
    assert(j3 =~= p);
    assert(parts.drop_last() =~= seq!["vaultless"@, "session"@, "metric"@, session_id]);
    assert(parts.drop_last().drop_last() =~= seq!["vaultless"@, "session"@, "metric"@]);
    let j4 = join_text(parts.drop_last(), ':');
    assert(j4 == j3.push(':') + session_id);
    let key = join_text(parts, ':');
    assert(key == j4.push(':') + counter);
    let rest = seq![':'] + session_id + seq![':'] + counter;
    assert(key =~= p + rest);
    assert(key.subrange(0, p.len() as int) =~= p);
    assert(key.subrange(p.len() as int, key.len() as int) =~= rest);
    let inner = session_id + seq![':'] + counter;
    assert(rest.drop_first() =~= inner);
    assert(session_id[0] != ':') by {
        assert(free_of(session_id, ':'));
    }
    assert(inner[0] == session_id[0]);
    assert(trim_leading(inner) == inner);
    assert(trim_leading(rest) == inner);
    assert(inner.last() == counter.last());
    assert(counter.last() != ':') by {
        assert(free_of(counter, ':'));
    }
    assert(trim_trailing(inner) == inner);
    let two = seq![session_id, counter];
    assert(two.drop_last() =~= seq![session_id]);
    assert(join_text(seq![session_id], ':') == session_id);
    assert(join_text(two, ':') == join_text(seq![session_id], ':').push(':') + counter);
    assert(join_text(two, ':') =~= inner);
    assert forall|i: int| 0 <= i < two.len() implies free_of(#[trigger] two[i], ':') by {}
    lemma_split_join(two, ':');
}

/// The pattern that the session counter keys match.
pub fn session_metric_pattern() -> (p: String)
    ensures
        p@ == key_text(seq!["session"@, "metric"@, "*"@]),
{
    let mut parts: Vec<Vec<char>> = Vec::new();
    parts.push(chars_of("session"));
    parts.push(chars_of("metric"));
    parts.push(chars_of("*"));
    assert(views(parts@) =~= seq!["session"@, "metric"@, "*"@]);
    cache_key(parts)
}

/// A session's counters to add to its stored row.
#[derive(Debug)]
pub struct SessionCounterRow {
    pub session_id: String,
    pub sent: i64,
    pub received: i64,
    pub proved: i64,
    pub bytes_sent: i64,
    pub bytes_received: i64,
}

/// What the flush cycle does with a scanned key.
#[derive(Debug)]
pub enum SessionKeyAction {
    /// Nothing: the key names no session, or the session was seen already.
    Skip,
    /// Read the session's counters.
    ReadCounters(String),
}

/// State of one session-flush cycle: the sessions seen and the rows
/// collected.
#[derive(Debug)]
pub struct SessionFlushCycle {
    pub seen: Vec<String>,
    pub batch: Vec<SessionCounterRow>,
    pub max_batch_size: usize,
}

/// The texts of the sessions seen.
pub open spec fn seen_texts(c: SessionFlushCycle) -> Seq<Seq<char>> {
    c.seen@.map_values(|s: String| s@)
}

fn contains_text(v: &Vec<String>, s: &Vec<char>) -> (b: bool)
    ensures
        b == v@.map_values(|x: String| x@).contains(s@),
{
    let mut i: usize = 0;
    while i < v.len()
        invariant
            i <= v.len(),
            forall|j: int| 0 <= j < i ==> v@[j]@ != s@,
        decreases v.len() - i,
    {
        if crate::text::chars_eq(&chars_of(v[i].as_str()), s) {
            assert(v@.map_values(|x: String| x@)[i as int] == s@);
            return true;
        }
        i = i + 1;
    }
    assert forall|j: int| #![trigger v@[j]] 0 <= j < v@.len() implies v@.map_values(|x: String| x@)[j] != s@ by {}
    false
}

impl SessionFlushCycle {
    /// A cycle that has seen nothing.
    pub fn new(max_batch_size: usize) -> (c: SessionFlushCycle)
        ensures
            c.seen@.len() == 0,
            c.batch@.len() == 0,
            c.max_batch_size == max_batch_size,
    {
        SessionFlushCycle { seen: Vec::new(), batch: Vec::new(), max_batch_size }
    }

    /// Takes a scanned key: a key naming a session not seen yet marks it
    /// seen and asks for its counters.
    pub fn on_key(&mut self, key: &str) -> (a: SessionKeyAction)
        ensures
            final(self).batch == old(self).batch,
            final(self).max_batch_size == old(self).max_batch_size,
            session_id_of(key@).len() == 0 ==> (a is Skip && final(self).seen == old(self).seen),
            session_id_of(key@).len() > 0 && seen_texts(*old(self)).contains(session_id_of(key@))
                ==> (a is Skip && final(self).seen == old(self).seen),
            session_id_of(key@).len() > 0 && !seen_texts(*old(self)).contains(session_id_of(key@))
                ==> (a matches SessionKeyAction::ReadCounters(id) && id@ == session_id_of(key@)
                    && seen_texts(*final(self)) == seen_texts(*old(self)).push(session_id_of(key@))),
    {
        let id = extract_session_id_from_key(key);
        let idc = chars_of(id.as_str());
        if idc.len() == 0 {
            return SessionKeyAction::Skip;
        }
        if contains_text(&self.seen, &idc) {
            return SessionKeyAction::Skip;
        }
        let ghost before = self.seen@;
        self.seen.push(id.clone());
        proof {
            assert(self.seen@.map_values(|x: String| x@) =~= before.map_values(|x: String| x@).push(id@));
        }
        SessionKeyAction::ReadCounters(id)
    }

    /// Takes a session's counters (`None` when all were zero): counters
    /// with something positive join the batch.  Answers whether the batch
    /// must be written now.
    pub fn on_counters(&mut self, session_id: String, counters: Option<(i64, i64, i64, i64, i64)>) -> (flush: bool)
        ensures
            final(self).seen == old(self).seen,
            final(self).max_batch_size == old(self).max_batch_size,
            counters matches Some(c) ==> ((c.0 > 0 || c.1 > 0 || c.2 > 0 || c.3 > 0 || c.4 > 0)
                ==> final(self).batch@.len() == old(self).batch@.len() + 1
                    && final(self).batch@.drop_last() == old(self).batch@
                    && final(self).batch@.last().session_id == session_id
                    && final(self).batch@.last().sent == c.0
                    && final(self).batch@.last().received == c.1
                    && final(self).batch@.last().proved == c.2
                    && final(self).batch@.last().bytes_sent == c.3
                    && final(self).batch@.last().bytes_received == c.4),
            !(counters matches Some(c) && (c.0 > 0 || c.1 > 0 || c.2 > 0 || c.3 > 0 || c.4 > 0))
                ==> final(self).batch == old(self).batch,
            flush == (final(self).batch@.len() >= final(self).max_batch_size),
    {
        match counters {
            Some(c) => {
                if c.0 > 0 || c.1 > 0 || c.2 > 0 || c.3 > 0 || c.4 > 0 {
                    let ghost before = self.batch@;
                    self.batch.push(SessionCounterRow {
                        session_id,
                        sent: c.0,
                        received: c.1,
                        proved: c.2,
                        bytes_sent: c.3,
                        bytes_received: c.4,
                    });
                    assert(self.batch@.drop_last() =~= before);
                }
            },
            None => {},
        }
        self.batch.len() >= self.max_batch_size
    }
}

/// The counters of a session as read, or `None` when all are zero.
pub fn nonzero_counters(sent: i64, received: i64, proved: i64, bytes_sent: i64, bytes_received: i64) -> (r: Option<(i64, i64, i64, i64, i64)>)
    ensures
        r == (if sent == 0 && received == 0 && proved == 0 && bytes_sent == 0 && bytes_received == 0 {
            None
        } else {
            Some((sent, received, proved, bytes_sent, bytes_received))
        }),
{
    if sent == 0 && received == 0 && proved == 0 && bytes_sent == 0 && bytes_received == 0 {
        None
    } else {
        Some((sent, received, proved, bytes_sent, bytes_received))
    }
}

} // verus!
