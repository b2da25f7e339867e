//! The relay server's registry of active client sessions: registration and
//! eviction, hostname routing, and the pending-request bookkeeping that
//! correlates each forwarded request with the one response that concludes
//! it — by a matching reply, by timeout, or by the session's end, and never
//! by more than one of them.

use vstd::prelude::*;
use crate::errors::DispatchError;
use crate::msg::{FrameModel, TunnelMessage, opt_text, opt_wire_text, wire_text};
use crate::text::{str_starts_with, text_prefix};

verus! {

broadcast use vstd::string::group_string_axioms;

/// Outbound-channel capacity used when none is chosen.
pub const DEFAULT_OUTBOUND_CAPACITY: usize = 100;

/// A forwarded public request awaiting its correlated response.
#[derive(Debug, Clone, Copy, PartialEq, Eq, Structural)]
pub struct PendingRequest {
    /// Correlation key, unique among this registry's requests.
    pub request_id: u64,
    /// When the wait for a response is over, on the dispatcher's clock.
    pub deadline_ms: u64,
}

/// How a pending request was concluded. Exactly one of these reaches the
/// task that awaits the request.
#[derive(Debug, Clone, PartialEq, Eq)]
pub enum RequestOutcome {
    /// The client answered; these are the exact bytes it sent.
    Delivered { data: Vec<u8> },
    /// A later registration under the same client id evicted the session.
    ClientReplaced,
    /// The session was deregistered before a response arrived.
    ClientDisconnected,
    /// No response arrived before the deadline.
    TimedOut,
}

/// The conclusion of one pending request.
#[derive(Debug, Clone, PartialEq, Eq)]
pub struct Delivery {
    pub request_id: u64,
    pub outcome: RequestOutcome,
}

/// Server-side state of one registered tunnel client.
#[derive(Debug)]
pub struct ClientSession {
    /// The client's self-chosen opaque identifier.
    pub client_id: String,
    /// Custom hostname, if the client asked for one.
    pub domain: Option<String>,
    /// Frames queued for this client's single socket-writer task, in order.
    pub outbound: Vec<TunnelMessage>,
    /// Requests dispatched to this client and not yet concluded.
    pub pending: Vec<PendingRequest>,
}

/// No two entries carry the same request id.
pub open spec fn distinct_ids(ps: Seq<PendingRequest>) -> bool {
    forall|i: int, j: int|
        0 <= i < j < ps.len() ==> #[trigger] ps[i].request_id != #[trigger] ps[j].request_id
}

/// Some entry carries this request id.
pub open spec fn has_id(ps: Seq<PendingRequest>, rid: u64) -> bool {
    exists|i: int| 0 <= i < ps.len() && #[trigger] ps[i].request_id == rid
}

/// The index of the entry carrying this request id.
pub open spec fn id_index(ps: Seq<PendingRequest>, rid: u64) -> int {
    choose|i: int| 0 <= i < ps.len() && #[trigger] ps[i].request_id == rid
}

/// The entries with this request id taken out (there is at most one).
pub open spec fn remove_id(ps: Seq<PendingRequest>, rid: u64) -> Seq<PendingRequest> {
    if has_id(ps, rid) {
        let i = id_index(ps, rid);
        ps.subrange(0, i) + ps.subrange(i + 1, ps.len() as int)
    } else {
        ps
    }
}

impl ClientSession {
    /// Internal consistency: ASCII identity and distinct, wire-ready state.
    pub open spec fn wf(self) -> bool {
        &&& wire_text(self.client_id@)
        &&& opt_wire_text(opt_text(self.domain))
        &&& distinct_ids(self.pending@)
        &&& forall|k: int| 0 <= k < self.outbound@.len() ==> (#[trigger] self.outbound@[k]@).wf()
    }
}

/// The public URL a registration is answered with: the custom domain if one
/// was asked for, else a generated subdomain of the base suffix.
pub open spec fn spec_public_url(
    cid: Seq<char>,
    domain: Option<Seq<char>>,
    suffix: Seq<char>,
) -> Seq<char> {
    match domain {
        Some(d) => "https://"@ + d,
        None => "https://"@ + cid + "."@ + suffix,
    }
}

/// The two literals of a public URL are ASCII.
proof fn lemma_scheme_ascii()
    ensures
        vstd::utf8::is_ascii_chars("https://"@),
        "https://"@.len() == 8,
        vstd::utf8::is_ascii_chars("."@),
        "."@.len() == 1,
{
    reveal_strlit("https://");
    reveal_strlit(".");
    assert("https://"@[0] == 'h');
    assert("https://"@[1] == 't');
    assert("https://"@[2] == 't');
    assert("https://"@[3] == 'p');
    assert("https://"@[4] == 's');
    assert("https://"@[5] == ':');
    assert("https://"@[6] == '/');
    assert("https://"@[7] == '/');
    assert("."@[0] == '.');
}

/// A public URL built from ASCII parts that leave room for the scheme and
/// the dot is itself wire-ready text.
proof fn lemma_url_wire_text(cid: Seq<char>, domain: Option<Seq<char>>, suffix: Seq<char>)
    requires
        wire_text(cid),
        opt_wire_text(domain),
        wire_text(suffix),
        cid.len() + suffix.len() + 9 <= u32::MAX,
        match domain {
            Some(d) => d.len() + 8 <= u32::MAX,
            None => true,
        },
    ensures
        wire_text(spec_public_url(cid, domain, suffix)),
{
    lemma_scheme_ascii();
    let url = spec_public_url(cid, domain, suffix);
    match domain {
        Some(d) => {
            vstd::utf8::is_ascii_chars_concat(url, "https://"@, d);
        },
        None => {
            let a = "https://"@ + cid;
            let b = a + "."@;
            vstd::utf8::is_ascii_chars_concat(a, "https://"@, cid);
            vstd::utf8::is_ascii_chars_concat(b, a, "."@);
            vstd::utf8::is_ascii_chars_concat(url, b, suffix);
        },
    }
}

/// Builds the public URL for a registration.
fn public_url(client_id: &String, domain: &Option<String>, suffix: &String) -> (r: String)
    ensures
        r@ == spec_public_url(client_id@, opt_text(*domain), suffix@),
{
    let mut url = String::from_str("https://");
    match domain {
        Some(d) => {
            url.append(d.as_str());
        },
        None => {
            url.append(client_id.as_str());
            url.append(".");
            url.append(suffix.as_str());
        },
    }
    url
}

/// Concludes every entry of a pending list at once, as `ClientReplaced`
/// when a new registration evicted the session, else `ClientDisconnected`.
fn fail_all(pending: &Vec<PendingRequest>, replaced: bool) -> (r: Vec<Delivery>)
    ensures
        r@.len() == pending@.len(),
        forall|k: int|
            0 <= k < pending@.len() ==> (#[trigger] r@[k]).request_id == pending@[k].request_id
                && if replaced {
                r@[k].outcome is ClientReplaced
            } else {
                r@[k].outcome is ClientDisconnected
            },
{
    let mut out: Vec<Delivery> = Vec::new();
    let n = pending.len();
    let mut i: usize = 0;
    while i < n
        invariant
            n == pending@.len(),
            i <= n,
            out@.len() == i,
            forall|k: int|
                0 <= k < i ==> (#[trigger] out@[k]).request_id == pending@[k].request_id && if replaced {
                    out@[k].outcome is ClientReplaced
                } else {
                    out@[k].outcome is ClientDisconnected
                },
        decreases n - i,
    {
        let outcome = if replaced {
            RequestOutcome::ClientReplaced
        } else {
            RequestOutcome::ClientDisconnected
        };
        out.push(Delivery { request_id: pending[i].request_id, outcome });
        i = i + 1;
    }
    out
}

/// The moment a dispatched request stops waiting: `now + timeout`, pinned
/// to the top of the clock's range rather than wrapping.
pub open spec fn spec_deadline(now_ms: u64, timeout_ms: u64) -> u64 {
    if now_ms + timeout_ms > u64::MAX {
        u64::MAX
    } else {
        (now_ms + timeout_ms) as u64
    }
}

/// Taking a request id out of a pending list with distinct ids removes that
/// id and only that id, exactly once: the id is gone afterwards, every other
/// id is untouched, and the ids stay distinct. This is what makes the
/// conclusion of a request unrepeatable — once a response, a timeout or a
/// session teardown has claimed the entry, a later response to the same id
/// finds nothing.
pub proof fn lemma_remove_id(ps: Seq<PendingRequest>, rid: u64)
    requires
        distinct_ids(ps),
    ensures
        distinct_ids(remove_id(ps, rid)),
        !has_id(remove_id(ps, rid), rid),
        has_id(ps, rid) ==> remove_id(ps, rid).len() == ps.len() - 1,
        !has_id(ps, rid) ==> remove_id(ps, rid) == ps,
        forall|x: u64| x != rid ==> (has_id(remove_id(ps, rid), x) <==> has_id(ps, x)),
{
    if has_id(ps, rid) {
        let i = id_index(ps, rid);
        let q = remove_id(ps, rid);
        assert(0 <= i < ps.len() && ps[i].request_id == rid);
        assert(q.len() == ps.len() - 1);
        assert forall|j: int| 0 <= j < q.len() implies #[trigger] q[j] == if j < i {
            ps[j]
        } else {
            ps[j + 1]
        } by {}
        assert forall|j: int| 0 <= j < q.len() implies (#[trigger] q[j]).request_id != rid by {
            if j < i {
                assert(ps[j].request_id != ps[i].request_id);
            } else {
                assert(ps[j + 1].request_id != ps[i].request_id);
            }
        }
        assert forall|x: u64| x != rid implies (has_id(q, x) <==> has_id(ps, x)) by {
            if has_id(q, x) {
                let j = choose|j: int| 0 <= j < q.len() && #[trigger] q[j].request_id == x;
                if j < i {
                    assert(ps[j].request_id == x);
                } else {
                    assert(ps[j + 1].request_id == x);
                }
            }
            if has_id(ps, x) {
                let w = choose|w: int| 0 <= w < ps.len() && #[trigger] ps[w].request_id == x;
                if w < i {
                    assert(q[w].request_id == x);
                } else {
                    assert(w != i);
                    assert(q[w - 1].request_id == x);
                }
            }
        }
    }
}

/// The session's custom domain routes this host: the domain is a prefix of
/// the hostname.
pub open spec fn domain_matches(s: ClientSession, host: Seq<char>) -> bool {
    match s.domain {
        Some(d) => text_prefix(d@, host),
        None => false,
    }
}

/// The session's generated subdomain routes this host: the hostname starts
/// with `{client_id}.{base_suffix}`.
pub open spec fn generated_matches(s: ClientSession, host: Seq<char>, suffix: Seq<char>) -> bool {
    text_prefix(s.client_id@ + "."@ + suffix, host)
}

/// The first session at or after `k` whose custom domain routes `host`.
pub open spec fn first_domain_from(ss: Seq<ClientSession>, host: Seq<char>, k: int) -> Option<int>
    decreases ss.len() - k,
{
    if k < 0 || k >= ss.len() {
        None
    } else if domain_matches(ss[k], host) {
        Some(k)
    } else {
        first_domain_from(ss, host, k + 1)
    }
}

/// The first session at or after `k` whose generated subdomain routes `host`.
pub open spec fn first_generated_from(
    ss: Seq<ClientSession>,
    host: Seq<char>,
    suffix: Seq<char>,
    k: int,
) -> Option<int>
    decreases ss.len() - k,
{
    if k < 0 || k >= ss.len() {
        None
    } else if generated_matches(ss[k], host, suffix) {
        Some(k)
    } else {
        first_generated_from(ss, host, suffix, k + 1)
    }
}

/// Routing: custom domains take precedence over generated subdomains, and
/// within each pass the oldest matching registration wins.
pub open spec fn spec_lookup(ss: Seq<ClientSession>, host: Seq<char>, suffix: Seq<char>) -> Option<
    int,
> {
    match first_domain_from(ss, host, 0) {
        Some(i) => Some(i),
        None => first_generated_from(ss, host, suffix, 0),
    }
}

/// Finds the entry carrying `rid` in a pending list with distinct ids.
fn find_pending(ps: &Vec<PendingRequest>, rid: u64) -> (r: Option<usize>)
    requires
        distinct_ids(ps@),
    ensures
        match r {
            Some(k) => has_id(ps@, rid) && k == id_index(ps@, rid) && k < ps@.len()
                && ps@[k as int].request_id == rid,
            None => !has_id(ps@, rid),
        },
{
    let n = ps.len();
    let mut i: usize = 0;
    while i < n
        invariant
            distinct_ids(ps@),
            n == ps@.len(),
            i <= n,
            forall|j: int| 0 <= j < i ==> (#[trigger] ps@[j]).request_id != rid,
        decreases n - i,
    {
        if ps[i].request_id == rid {
            proof {
                let w = id_index(ps@, rid);
                assert(0 <= w < ps@.len() && ps@[w].request_id == rid);
                if w != i {
                    assert(ps@[w].request_id != ps@[i as int].request_id);
                }
            }
            return Some(i);
        }
        i = i + 1;
    }
    None
}

/// No custom domain routes `host` at or after `k`, so the domain pass finds
/// nothing from `k` on.
proof fn lemma_first_domain_none(ss: Seq<ClientSession>, host: Seq<char>, k: int)
    requires
        forall|j: int| k <= j < ss.len() ==> !domain_matches(#[trigger] ss[j], host),
    ensures
        first_domain_from(ss, host, k) is None,
    decreases ss.len() - k,
{
    if 0 <= k < ss.len() {
        lemma_first_domain_none(ss, host, k + 1);
    }
}

/// The generated pass starting at `k` finds `i` when `i` is the first
/// session at or after `k` whose generated subdomain routes `host`.
proof fn lemma_first_generated_hits(ss: Seq<ClientSession>, host: Seq<char>, suffix: Seq<char>, k: int, i: int)
    requires
        0 <= k <= i < ss.len(),
        generated_matches(ss[i], host, suffix),
        forall|j: int| k <= j < i ==> !generated_matches(#[trigger] ss[j], host, suffix),
    ensures
        first_generated_from(ss, host, suffix, k) == Some(i),
    decreases i - k,
{
    if k < i {
        lemma_first_generated_hits(ss, host, suffix, k + 1, i);
    }
}

/// Routing law for generated subdomains: a registered client with no custom
/// domain is found by looking up `{client_id}.{base_suffix}`, provided no
/// session's custom domain is a prefix of that hostname and no earlier
/// session's generated subdomain is one either.
pub proof fn lemma_generated_subdomain_routes(reg: Registry, host: Seq<char>, i: int)
    requires
        reg.wf(),
        0 <= i < reg.sessions@.len(),
        reg.sessions@[i].domain is None,
        host == reg.sessions@[i].client_id@ + "."@ + reg.base_suffix@,
        forall|j: int|
            0 <= j < reg.sessions@.len() ==> !domain_matches(#[trigger] reg.sessions@[j], host),
        forall|j: int|
            0 <= j < i ==> !generated_matches(#[trigger] reg.sessions@[j], host, reg.base_suffix@),
    ensures
        spec_lookup(reg.sessions@, host, reg.base_suffix@) == Some(i),
{
    assert(host.subrange(0, host.len() as int) =~= host);
    assert(generated_matches(reg.sessions@[i], host, reg.base_suffix@));
    lemma_first_domain_none(reg.sessions@, host, 0);
    lemma_first_generated_hits(reg.sessions@, host, reg.base_suffix@, 0, i);
}

/// Correlation law: dispatching records the fresh id as pending, and
/// concluding it — by response, timeout or teardown — removes exactly that
/// entry, restoring the list as it was; after that the id names nothing, so
/// a second conclusion of the same id is a no-op.
pub proof fn lemma_correlation_exactly_once(ps: Seq<PendingRequest>, rid: u64, deadline_ms: u64)
    requires
        distinct_ids(ps),
        !has_id(ps, rid),
    ensures
        ({
            let ps1 = ps.push(PendingRequest { request_id: rid, deadline_ms });
            &&& distinct_ids(ps1)
            &&& has_id(ps1, rid)
            &&& remove_id(ps1, rid) == ps
            &&& !has_id(remove_id(ps1, rid), rid)
        }),
{
    let entry = PendingRequest { request_id: rid, deadline_ms };
    let ps1 = ps.push(entry);
    assert(ps1[ps.len() as int].request_id == rid);
    assert(has_id(ps1, rid));
    lemma_remove_id(ps1, rid);
    let w = id_index(ps1, rid);
    assert(0 <= w < ps1.len() && ps1[w].request_id == rid);
    if w != ps.len() {
        assert(ps[w].request_id == rid);
    }
    assert(remove_id(ps1, rid) =~= ps);
}

/// The relay's registry: every active session, the base suffix public URLs
/// are issued under, and the source of fresh request ids.
#[derive(Debug)]
pub struct Registry {
    /// Fixed hostname suffix for generated per-client subdomains.
    pub base_suffix: String,
    /// Bound on each session's outbound queue; a full queue refuses
    /// further dispatches rather than growing without limit.
    pub outbound_capacity: usize,
    /// The next request id to hand out; all live ids are below it.
    pub next_request_id: u64,
    /// Active sessions, oldest registration first.
    pub sessions: Vec<ClientSession>,
}

impl Registry {
    /// There is a session under this client id.
    pub open spec fn has_session(self, cid: Seq<char>) -> bool {
        exists|i: int|
            0 <= i < self.sessions@.len() && (#[trigger] self.sessions@[i]).client_id@ == cid
    }

    /// The index of the session under this client id.
    pub open spec fn session_index(self, cid: Seq<char>) -> int {
        choose|i: int|
            0 <= i < self.sessions@.len() && (#[trigger] self.sessions@[i]).client_id@ == cid
    }

    /// The sessions with the one under `cid` (if any) taken out, order kept.
    pub open spec fn sessions_without(self, cid: Seq<char>) -> Seq<ClientSession> {
        if self.has_session(cid) {
            let i = self.session_index(cid);
            self.sessions@.subrange(0, i) + self.sessions@.subrange(
                i + 1,
                self.sessions@.len() as int,
            )
        } else {
            self.sessions@
        }
    }

    /// Registry invariant: one session per client id, each internally
    /// consistent, every live request id below the allocation counter.
    pub open spec fn wf(self) -> bool {
        &&& wire_text(self.base_suffix@)
        &&& self.base_suffix@.len() + 9 <= u32::MAX
        &&& forall|i: int, j: int|
            0 <= i < j < self.sessions@.len() ==> (#[trigger] self.sessions@[i]).client_id@ != (
            #[trigger] self.sessions@[j]).client_id@
        &&& forall|i: int| 0 <= i < self.sessions@.len() ==> (#[trigger] self.sessions@[i]).wf()
        &&& forall|i: int, k: int|
            0 <= i < self.sessions@.len() && 0 <= k < self.sessions@[i].pending@.len() ==> (
            #[trigger] self.sessions@[i].pending@[k]).request_id < self.next_request_id
    }

    /// A fresh registry with no sessions.
    pub fn new(base_suffix: String, outbound_capacity: usize) -> (r: Registry)
        requires
            wire_text(base_suffix@),
            base_suffix@.len() + 9 <= u32::MAX,
        ensures
            r.wf(),
            r.base_suffix@ == base_suffix@,
            r.outbound_capacity == outbound_capacity,
            r.sessions@.len() == 0,
            r.next_request_id == 0,
    {
        Registry { base_suffix, outbound_capacity, next_request_id: 0, sessions: Vec::new() }
    }

    /// Finds the session under `client_id`, if any.
    fn find_session(&self, client_id: &String) -> (r: Option<usize>)
        requires
            self.wf(),
        ensures
            match r {
                Some(i) => self.has_session(client_id@) && i == self.session_index(client_id@)
                    && i < self.sessions@.len(),
                None => !self.has_session(client_id@),
            },
    {
        let n = self.sessions.len();
        let mut i: usize = 0;
        while i < n
            invariant
                self.wf(),
                n == self.sessions@.len(),
                i <= n,
                forall|j: int| 0 <= j < i ==> (#[trigger] self.sessions@[j]).client_id@
                    != client_id@,
            decreases n - i,
        {
            if self.sessions[i].client_id == *client_id {
                proof {
                    let w = self.session_index(client_id@);
                    assert(0 <= w < self.sessions@.len() && self.sessions@[w].client_id@
                        == client_id@);
                    if w != i {
                        assert(self.sessions@[w as int].client_id@
                            != self.sessions@[i as int].client_id@);
                    }
                }
                return Some(i);
            }
            i = i + 1;
        }
        None
    }

    /// Resolves a routing host to the session that serves it, custom
    /// domains first, else generated subdomains, oldest registration first
    /// in each pass; `None` when no session matches.
    pub fn lookup(&self, hostname: &String) -> (r: Option<usize>)
        requires
            self.wf(),
        ensures
            match r {
                Some(i) => i < self.sessions@.len() && spec_lookup(
                    self.sessions@,
                    hostname@,
                    self.base_suffix@,
                ) == Some(i as int),
                None => spec_lookup(self.sessions@, hostname@, self.base_suffix@) is None,
            },
    {
        let ghost ss = self.sessions@;
        let n = self.sessions.len();
        let mut i: usize = 0;
        while i < n
            invariant
                n == ss.len(),
                ss == self.sessions@,
                i <= n,
                first_domain_from(ss, hostname@, 0) == first_domain_from(ss, hostname@, i as int),
            decreases n - i,
        {
            let matched = match &self.sessions[i].domain {
                Some(d) => str_starts_with(hostname, d),
                None => false,
            };
            if matched {
                proof {
                    assert(domain_matches(ss[i as int], hostname@));
                }
                return Some(i);
            }
            proof {
                assert(!domain_matches(ss[i as int], hostname@));
            }
            i = i + 1;
        }
        let mut j: usize = 0;
        while j < n
            invariant
                n == ss.len(),
                ss == self.sessions@,
                j <= n,
                first_domain_from(ss, hostname@, 0) is None,
                first_generated_from(ss, hostname@, self.base_suffix@, 0) == first_generated_from(
                    ss,
                    hostname@,
                    self.base_suffix@,
                    j as int,
                ),
            decreases n - j,
        {
            let mut g = self.sessions[j].client_id.clone();
            g.append(".");
            g.append(self.base_suffix.as_str());
            proof {
                assert(g@ == ss[j as int].client_id@ + "."@ + self.base_suffix@);
            }
            if str_starts_with(hostname, &g) {
                proof {
                    assert(generated_matches(ss[j as int], hostname@, self.base_suffix@));
                }
                return Some(j);
            }
            proof {
                assert(!generated_matches(ss[j as int], hostname@, self.base_suffix@));
            }
            j = j + 1;
        }
        None
    }

    /// Registers a client: inserts a fresh session under `client_id`,
    /// evicting any prior session under the same id and concluding all of
    /// that session's pending requests as `ClientReplaced`. Returns the
    /// public URL and those conclusions.
    pub fn register(&mut self, client_id: String, domain: Option<String>) -> (r: (
        String,
        Vec<Delivery>,
    ))
        requires
            old(self).wf(),
            wire_text(client_id@),
            opt_wire_text(opt_text(domain)),
            client_id@.len() + old(self).base_suffix@.len() + 9 <= u32::MAX,
            match domain {
                Some(d) => d@.len() + 8 <= u32::MAX,
                None => true,
            },
        ensures
            final(self).wf(),
            final(self).base_suffix@ == old(self).base_suffix@,
            final(self).outbound_capacity == old(self).outbound_capacity,
            final(self).next_request_id == old(self).next_request_id,
            final(self).sessions@.len() == old(self).sessions_without(client_id@).len() + 1,
            final(self).sessions@.drop_last() == old(self).sessions_without(client_id@),
            ({
                let s = final(self).sessions@.last();
                &&& s.client_id@ == client_id@
                &&& opt_text(s.domain) == opt_text(domain)
                &&& s.outbound@.len() == 0
                &&& s.pending@.len() == 0
            }),
            r.0@ == spec_public_url(client_id@, opt_text(domain), old(self).base_suffix@),
            wire_text(r.0@),
            ({
                let evicted = if old(self).has_session(client_id@) {
                    old(self).sessions@[old(self).session_index(client_id@)].pending@
                } else {
                    Seq::empty()
                };
                &&& r.1@.len() == evicted.len()
                &&& forall|k: int|
                    0 <= k < evicted.len() ==> (#[trigger] r.1@[k]).request_id
                        == evicted[k].request_id && r.1@[k].outcome is ClientReplaced
            }),
    {
        proof {
            lemma_url_wire_text(client_id@, opt_text(domain), self.base_suffix@);
        }
        let url = public_url(&client_id, &domain, &self.base_suffix);
        let failed: Vec<Delivery>;
        match self.find_session(&client_id) {
            Some(i) => {
                let evicted = self.sessions.remove(i);
                failed = fail_all(&evicted.pending, true);
                proof {
                    assert(self.sessions@ =~= old(self).sessions_without(client_id@));
                }
            },
            None => {
                failed = Vec::new();
                proof {
                    assert(self.sessions@ =~= old(self).sessions_without(client_id@));
                }
            },
        }
        let ghost mid = self.sessions@;
        self.sessions.push(
            ClientSession { client_id, domain, outbound: Vec::new(), pending: Vec::new() },
        );
        proof {
            assert(self.sessions@.drop_last() =~= mid);
        }
        (url, failed)
    }

    /// Removes the session under `client_id`, if any, concluding every one
    /// of its pending requests as `ClientDisconnected` — at once, so no
    /// gateway task waiting on this client is left to run out its timeout.
    pub fn deregister(&mut self, client_id: &String) -> (r: Vec<Delivery>)
        requires
            old(self).wf(),
        ensures
            final(self).wf(),
            final(self).sessions@ == old(self).sessions_without(client_id@),
            final(self).base_suffix@ == old(self).base_suffix@,
            final(self).outbound_capacity == old(self).outbound_capacity,
            final(self).next_request_id == old(self).next_request_id,
            ({
                let gone = if old(self).has_session(client_id@) {
                    old(self).sessions@[old(self).session_index(client_id@)].pending@
                } else {
                    Seq::empty()
                };
                &&& r@.len() == gone.len()
                &&& forall|k: int|
                    0 <= k < gone.len() ==> (#[trigger] r@[k]).request_id == gone[k].request_id
                        && r@[k].outcome is ClientDisconnected
            }),
    {
        match self.find_session(client_id) {
            Some(i) => {
                let evicted = self.sessions.remove(i);
                let failed = fail_all(&evicted.pending, false);
                proof {
                    assert(self.sessions@ =~= old(self).sessions_without(client_id@));
                }
                failed
            },
            None => {
                proof {
                    assert(self.sessions@ =~= old(self).sessions_without(client_id@));
                }
                Vec::new()
            },
        }
    }

    /// Dispatches a forwarded public request to a client: allocates a fresh
    /// request id, records the pending entry with its deadline, and queues
    /// an `HttpRequest` frame for the session's writer. Fails — leaving the
    /// registry unchanged — exactly when the client is unknown or its
    /// outbound queue is at capacity.
    pub fn dispatch(
        &mut self,
        client_id: &String,
        data: Vec<u8>,
        now_ms: u64,
        timeout_ms: u64,
    ) -> (r: Result<u64, DispatchError>)
        requires
            old(self).wf(),
            old(self).next_request_id < u64::MAX,
            data@.len() <= u32::MAX,
        ensures
            final(self).wf(),
            final(self).base_suffix@ == old(self).base_suffix@,
            final(self).outbound_capacity == old(self).outbound_capacity,
            ({
                let pre = *old(self);
                let post = *final(self);
                match r {
                    Err(DispatchError::UnknownClient) => !pre.has_session(client_id@)
                        && post.sessions@ == pre.sessions@ && post.next_request_id
                        == pre.next_request_id,
                    Err(DispatchError::ChannelFull) => pre.has_session(client_id@)
                        && pre.sessions@[pre.session_index(client_id@)].outbound@.len()
                        >= pre.outbound_capacity && post.sessions@ == pre.sessions@
                        && post.next_request_id == pre.next_request_id,
                    Ok(rid) => ({
                        let i = pre.session_index(client_id@);
                        let s0 = pre.sessions@[i];
                        let s1 = post.sessions@[i];
                        &&& pre.has_session(client_id@)
                        &&& s0.outbound@.len() < pre.outbound_capacity
                        &&& rid == pre.next_request_id
                        &&& !has_id(s0.pending@, rid)
                        &&& post.next_request_id == rid + 1
                        &&& post.sessions@ == pre.sessions@.update(i, s1)
                        &&& s1.client_id == s0.client_id
                        &&& s1.domain == s0.domain
                        &&& s1.pending@ == s0.pending@.push(
                            PendingRequest {
                                request_id: rid,
                                deadline_ms: spec_deadline(now_ms, timeout_ms),
                            },
                        )
                        &&& s1.outbound@ == s0.outbound@.push(
                            TunnelMessage::HttpRequest { request_id: rid, data },
                        )
                    }),
                }
            }),
    {
        let i = match self.find_session(client_id) {
            None => {
                return Err(DispatchError::UnknownClient);
            },
            Some(i) => i,
        };
        let mut sess = self.sessions.remove(i);
        if sess.outbound.len() >= self.outbound_capacity {
            self.sessions.insert(i, sess);
            proof {
                assert(self.sessions@ =~= old(self).sessions@);
            }
            return Err(DispatchError::ChannelFull);
        }
        let rid = self.next_request_id;
        self.next_request_id = rid + 1;
        let deadline_ms = if timeout_ms > u64::MAX - now_ms {
            u64::MAX
        } else {
            now_ms + timeout_ms
        };
        proof {
            assert forall|k: int| 0 <= k < sess.pending@.len() implies (
            #[trigger] sess.pending@[k]).request_id != rid by {
                assert(old(self).sessions@[i as int].pending@[k].request_id
                    < old(self).next_request_id);
            }
        }
        sess.pending.push(PendingRequest { request_id: rid, deadline_ms });
        sess.outbound.push(TunnelMessage::HttpRequest { request_id: rid, data });
        self.sessions.insert(i, sess);
        proof {
            assert(self.sessions@ =~= old(self).sessions@.update(
                i as int,
                self.sessions@[i as int],
            ));
        }
        Ok(rid)
    }

    /// Delivers a client's response to the pending request it answers: the
    /// entry under `request_id` is removed and the exact bytes are handed
    /// back for the awaiting gateway task. A response for an unknown client
    /// or an unknown — or already concluded — request id is a no-op and
    /// returns `None`, leaving the registry unchanged.
    pub fn resolve(&mut self, client_id: &String, request_id: u64, data: Vec<u8>) -> (r: Option<
        Delivery,
    >)
        requires
            old(self).wf(),
        ensures
            final(self).wf(),
            final(self).base_suffix@ == old(self).base_suffix@,
            final(self).outbound_capacity == old(self).outbound_capacity,
            final(self).next_request_id == old(self).next_request_id,
            ({
                let pre = *old(self);
                let post = *final(self);
                match r {
                    Some(d) => ({
                        let i = pre.session_index(client_id@);
                        let s0 = pre.sessions@[i];
                        let s1 = post.sessions@[i];
                        &&& pre.has_session(client_id@)
                        &&& has_id(s0.pending@, request_id)
                        &&& d.request_id == request_id
                        &&& d.outcome == RequestOutcome::Delivered { data }
                        &&& post.sessions@ == pre.sessions@.update(i, s1)
                        &&& s1.client_id == s0.client_id
                        &&& s1.domain == s0.domain
                        &&& s1.outbound == s0.outbound
                        &&& s1.pending@ == remove_id(s0.pending@, request_id)
                        &&& !has_id(s1.pending@, request_id)
                    }),
                    None => !(pre.has_session(client_id@) && has_id(
                        pre.sessions@[pre.session_index(client_id@)].pending@,
                        request_id,
                    )) && post.sessions@ == pre.sessions@,
                }
            }),
    {
        let i = match self.find_session(client_id) {
            None => {
                return None;
            },
            Some(i) => i,
        };
        let mut sess = self.sessions.remove(i);
        match find_pending(&sess.pending, request_id) {
            None => {
                self.sessions.insert(i, sess);
                proof {
                    assert(self.sessions@ =~= old(self).sessions@);
                }
                None
            },
            Some(k) => {
                let ghost ps0 = sess.pending@;
                sess.pending.remove(k);
                proof {
                    assert(sess.pending@ =~= remove_id(ps0, request_id));
                    lemma_remove_id(ps0, request_id);
                }
                self.sessions.insert(i, sess);
                proof {
                    assert(self.sessions@ =~= old(self).sessions@.update(
                        i as int,
                        self.sessions@[i as int],
                    ));
                }
                Some(Delivery { request_id, outcome: RequestOutcome::Delivered { data } })
            },
        }
    }

    /// Reclaims a pending request whose deadline has passed: the gateway
    /// calls this when its wait times out, so the entry is gone before the
    /// gateway answers and a late response to the same id finds nothing.
    /// Returns `None` — and changes nothing — when the client or the entry
    /// is unknown, or the deadline has not yet arrived.
    pub fn expire(&mut self, client_id: &String, request_id: u64, now_ms: u64) -> (r: Option<
        Delivery,
    >)
        requires
            old(self).wf(),
        ensures
            final(self).wf(),
            final(self).base_suffix@ == old(self).base_suffix@,
            final(self).outbound_capacity == old(self).outbound_capacity,
            final(self).next_request_id == old(self).next_request_id,
            ({
                let pre = *old(self);
                let post = *final(self);
                let i = pre.session_index(client_id@);
                let s0 = pre.sessions@[i];
                let due = pre.has_session(client_id@) && has_id(s0.pending@, request_id) && now_ms
                    >= s0.pending@[id_index(s0.pending@, request_id)].deadline_ms;
                match r {
                    Some(d) => ({
                        let s1 = post.sessions@[i];
                        &&& due
                        &&& d.request_id == request_id
                        &&& d.outcome is TimedOut
                        &&& post.sessions@ == pre.sessions@.update(i, s1)
                        &&& s1.client_id == s0.client_id
                        &&& s1.domain == s0.domain
                        &&& s1.outbound == s0.outbound
                        &&& s1.pending@ == remove_id(s0.pending@, request_id)
                        &&& !has_id(s1.pending@, request_id)
                    }),
                    None => !due && post.sessions@ == pre.sessions@,
                }
            }),
    {
        let i = match self.find_session(client_id) {
            None => {
                return None;
            },
            Some(i) => i,
        };
        let mut sess = self.sessions.remove(i);
        match find_pending(&sess.pending, request_id) {
            None => {
                self.sessions.insert(i, sess);
                proof {
                    assert(self.sessions@ =~= old(self).sessions@);
                }
                None
            },
            Some(k) => {
                if now_ms < sess.pending[k].deadline_ms {
                    self.sessions.insert(i, sess);
                    proof {
                        assert(self.sessions@ =~= old(self).sessions@);
                    }
                    return None;
                }
                let ghost ps0 = sess.pending@;
                sess.pending.remove(k);
                proof {
                    assert(sess.pending@ =~= remove_id(ps0, request_id));
                    lemma_remove_id(ps0, request_id);
                }
                self.sessions.insert(i, sess);
                proof {
                    assert(self.sessions@ =~= old(self).sessions@.update(
                        i as int,
                        self.sessions@[i as int],
                    ));
                }
                Some(Delivery { request_id, outcome: RequestOutcome::TimedOut })
            },
        }
    }

    /// Queues a keep-alive echo for the session's writer, in order with the
    /// other outbound frames. Returns `false` — dropping the echo rather
    /// than blocking — when the client is unknown or the queue is full.
    pub fn enqueue_keepalive(&mut self, client_id: &String) -> (r: bool)
        requires
            old(self).wf(),
        ensures
            final(self).wf(),
            final(self).base_suffix@ == old(self).base_suffix@,
            final(self).outbound_capacity == old(self).outbound_capacity,
            final(self).next_request_id == old(self).next_request_id,
            ({
                let pre = *old(self);
                let post = *final(self);
                let i = pre.session_index(client_id@);
                let s0 = pre.sessions@[i];
                if r {
                    ({
                        let s1 = post.sessions@[i];
                        &&& pre.has_session(client_id@)
                        &&& s0.outbound@.len() < pre.outbound_capacity
                        &&& post.sessions@ == pre.sessions@.update(i, s1)
                        &&& s1.client_id == s0.client_id
                        &&& s1.domain == s0.domain
                        &&& s1.pending == s0.pending
                        &&& s1.outbound@ == s0.outbound@.push(TunnelMessage::KeepAlive)
                    })
                } else {
                    (!pre.has_session(client_id@) || s0.outbound@.len() >= pre.outbound_capacity)
                        && post.sessions@ == pre.sessions@
                }
            }),
    {
        let i = match self.find_session(client_id) {
            None => {
                return false;
            },
            Some(i) => i,
        };
        let mut sess = self.sessions.remove(i);
        if sess.outbound.len() >= self.outbound_capacity {
            self.sessions.insert(i, sess);
            proof {
                assert(self.sessions@ =~= old(self).sessions@);
            }
            return false;
        }
        sess.outbound.push(TunnelMessage::KeepAlive);
        self.sessions.insert(i, sess);
        proof {
            assert(self.sessions@ =~= old(self).sessions@.update(
                i as int,
                self.sessions@[i as int],
            ));
        }
        true
    }

    /// Hands the session's writer task the next frame to put on the wire:
    /// the head of the outbound queue, in enqueue order, always fit for the
    /// codec. `None` when the client is unknown or nothing is queued.
    pub fn take_outbound(&mut self, client_id: &String) -> (r: Option<TunnelMessage>)
        requires
            old(self).wf(),
        ensures
            final(self).wf(),
            final(self).base_suffix@ == old(self).base_suffix@,
            final(self).outbound_capacity == old(self).outbound_capacity,
            final(self).next_request_id == old(self).next_request_id,
            ({
                let pre = *old(self);
                let post = *final(self);
                let i = pre.session_index(client_id@);
                let s0 = pre.sessions@[i];
                match r {
                    Some(m) => ({
                        let s1 = post.sessions@[i];
                        &&& pre.has_session(client_id@)
                        &&& s0.outbound@.len() > 0
                        &&& m == s0.outbound@[0]
                        &&& m@.wf()
                        &&& post.sessions@ == pre.sessions@.update(i, s1)
                        &&& s1.client_id == s0.client_id
                        &&& s1.domain == s0.domain
                        &&& s1.pending == s0.pending
                        &&& s1.outbound@ == s0.outbound@.drop_first()
                    }),
                    None => (!pre.has_session(client_id@) || s0.outbound@.len() == 0)
                        && post.sessions@ == pre.sessions@,
                }
            }),
    {
        let i = match self.find_session(client_id) {
            None => {
                return None;
            },
            Some(i) => i,
        };
        let mut sess = self.sessions.remove(i);
        if sess.outbound.len() == 0 {
            self.sessions.insert(i, sess);
            proof {
                assert(self.sessions@ =~= old(self).sessions@);
            }
            return None;
        }
        let m = sess.outbound.remove(0);
        proof {
            assert(sess.outbound@ =~= old(self).sessions@[i as int].outbound@.drop_first());
        }
        self.sessions.insert(i, sess);
        proof {
            assert(self.sessions@ =~= old(self).sessions@.update(
                i as int,
                self.sessions@[i as int],
            ));
        }
        Some(m)
    }
}

} // verus!
