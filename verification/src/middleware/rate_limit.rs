//! Rate limiting: each client may make a bounded number of requests within
//! a sliding time window.
use crate::config::duration_of_secs;
use crate::text::{chars_eq, chars_of};
use std::time::{Duration, Instant};
use vstd::prelude::*;

verus! {

/// A moment of the monotonic clock (`std::time::Instant`), carried as an
/// opaque value.
#[verifier::external_type_specification]
#[verifier::external_body]
pub struct ExInstant(Instant);

/// Reads the monotonic clock with `Instant::now`. Nothing is stated of the
/// moment returned: it depends on when the call is made.
#[verifier::external_body]
fn instant_now() -> (t: Instant) {
    Instant::now()
}

/// The time elapsed since `origin`, by `Instant::elapsed`. Nothing is
/// stated of the value: it depends on when the call is made.
#[verifier::external_body]
fn instant_elapsed(origin: &Instant) -> (d: Duration) {
    origin.elapsed()
}

/// The whole nanoseconds of a duration, as `Duration::as_nanos` gives them.
pub uninterp spec fn duration_nanos_of(d: Duration) -> u128;

/// The whole nanoseconds of a duration, by `Duration::as_nanos`: for a
/// duration of `s` whole seconds (as `Duration::from_secs(s)` makes it),
/// `s * 10^9`.
#[verifier::external_body]
fn duration_nanos(d: Duration) -> (n: u128)
    ensures
        n == duration_nanos_of(d),
        forall|s: u64| d == duration_of_secs(s) ==> n == s * 1000000000,
{
    d.as_nanos()
}

/// Whether a request made at `t` still counts at `now` for a window of
/// `window` nanoseconds: at most `window` has elapsed since it (a request
/// stamped after `now` has zero elapsed time). Times are in nanoseconds.
pub open spec fn recent(now: u128, window: u128) -> spec_fn(u128) -> bool {
    |t: u128| now <= t + window
}

/// What a request of `id` at `now` does: the client's requests that still
/// count are kept; the request is allowed when fewer than `max` of them
/// remain, and then recorded.
pub open spec fn admit_spec(
    m: Map<Seq<char>, Seq<u128>>,
    id: Seq<char>,
    now: u128,
    window: u128,
    max: usize,
) -> (Map<Seq<char>, Seq<u128>>, bool) {
    let past = if m.dom().contains(id) {
        m[id]
    } else {
        Seq::<u128>::empty()
    };
    let kept = past.filter(recent(now, window));
    if kept.len() < max {
        (m.insert(id, kept.push(now)), true)
    } else {
        (m.insert(id, kept), false)
    }
}

/// A simple rate limiter: per client, the moments (nanoseconds since the
/// limiter was made) of its requests that are still counted.
pub struct RateLimiter {
    requests: Vec<(String, Vec<u128>)>,
    max_requests: usize,
    window_nanos: u128,
    origin: Instant,
}

/// No client occurs twice, and none holds more than `max` requests.
pub open spec fn limiter_wf(r: Seq<(String, Vec<u128>)>, max: usize) -> bool {
    &&& forall|i: int, j: int| 0 <= i < j < r.len() ==> (#[trigger] r[i]).0@ != (#[trigger] r[j]).0@
    &&& forall|i: int| 0 <= i < r.len() ==> (#[trigger] r[i]).1@.len() <= max
}

/// The map of client ids to request moments that a list of pairs holds.
pub open spec fn requests_map(r: Seq<(String, Vec<u128>)>) -> Map<Seq<char>, Seq<u128>> {
    Map::new(
        |id: Seq<char>| exists|i: int| 0 <= i < r.len() && r[i].0@ == id,
        |id: Seq<char>| r[choose|i: int| 0 <= i < r.len() && r[i].0@ == id].1@,
    )
}

proof fn lemma_requests_map_at(r: Seq<(String, Vec<u128>)>, max: usize, i: int)
    requires
        limiter_wf(r, max),
        0 <= i < r.len(),
    ensures
        requests_map(r).dom().contains(r[i].0@),
        requests_map(r)[r[i].0@] == r[i].1@,
{
    let id = r[i].0@;
    let j = choose|j: int| 0 <= j < r.len() && r[j].0@ == id;
    if j != i {
        if j < i {
            assert(r[j].0@ != r[i].0@);
        } else {
            assert(r[i].0@ != r[j].0@);
        }
    }
}

proof fn lemma_filter_step(s: Seq<u128>, p: spec_fn(u128) -> bool, i: int)
    requires
        0 <= i < s.len(),
    ensures
        s.subrange(0, i + 1).filter(p) == if p(s[i]) {
            s.subrange(0, i).filter(p).push(s[i])
        } else {
            s.subrange(0, i).filter(p)
        },
{
    reveal(Seq::filter);
    let t = s.subrange(0, i + 1);
    assert(t.drop_last() =~= s.subrange(0, i));
    assert(t.last() == s[i]);
}

proof fn lemma_requests_map_update(r: Seq<(String, Vec<u128>)>, max: usize, i: int, x: (String, Vec<u128>))
    requires
        limiter_wf(r, max),
        0 <= i < r.len(),
        x.0@ == r[i].0@,
        x.1@.len() <= max,
    ensures
        limiter_wf(r.update(i, x), max),
        requests_map(r.update(i, x)) == requests_map(r).insert(x.0@, x.1@),
{
    let n = r.update(i, x);
    assert forall|p: int, q: int| 0 <= p < q < n.len() implies (#[trigger] n[p]).0@ != (#[trigger] n[q]).0@ by {
        assert(r[p].0@ != r[q].0@);
    }
    assert forall|p: int| 0 <= p < n.len() implies (#[trigger] n[p]).1@.len() <= max by {
        if p != i {
            assert(n[p] == r[p]);
        }
    }
    let m = requests_map(r).insert(x.0@, x.1@);
    assert forall|id: Seq<char>| #[trigger] requests_map(n).dom().contains(id) <==> m.dom().contains(id) by {
        if m.dom().contains(id) && id != x.0@ {
            let j = choose|j: int| 0 <= j < r.len() && r[j].0@ == id;
            assert(n[j].0@ == id);
        }
        if id == x.0@ {
            assert(n[i].0@ == id);
        }
        if requests_map(n).dom().contains(id) {
            let j = choose|j: int| 0 <= j < n.len() && n[j].0@ == id;
            if j != i {
                assert(r[j].0@ == id);
            }
        }
    }
    assert forall|id: Seq<char>| #[trigger] m.dom().contains(id) implies requests_map(n)[id] == m[id] by {
        assert(requests_map(n).dom().contains(id));
        let j = choose|j: int| 0 <= j < n.len() && n[j].0@ == id;
        lemma_requests_map_at(n, max, j);
        if id != x.0@ {
            assert(j != i);
            lemma_requests_map_at(r, max, j);
        }
    }
    assert(requests_map(n) =~= m);
}

proof fn lemma_requests_map_push(r: Seq<(String, Vec<u128>)>, max: usize, x: (String, Vec<u128>))
    requires
        limiter_wf(r, max),
        !requests_map(r).dom().contains(x.0@),
        x.1@.len() <= max,
    ensures
        limiter_wf(r.push(x), max),
        requests_map(r.push(x)) == requests_map(r).insert(x.0@, x.1@),
{
    let n = r.push(x);
    assert forall|p: int, q: int| 0 <= p < q < n.len() implies (#[trigger] n[p]).0@ != (#[trigger] n[q]).0@ by {
        if q == r.len() {
            if n[p].0@ == x.0@ {
                assert(r[p].0@ == x.0@);
            }
        } else {
            assert(r[p].0@ != r[q].0@);
        }
    }
    assert forall|p: int| 0 <= p < n.len() implies (#[trigger] n[p]).1@.len() <= max by {
        if p < r.len() {
            assert(n[p] == r[p]);
        }
    }
    let m = requests_map(r).insert(x.0@, x.1@);
    assert forall|id: Seq<char>| #[trigger] requests_map(n).dom().contains(id) <==> m.dom().contains(id) by {
        if m.dom().contains(id) && id != x.0@ {
            let j = choose|j: int| 0 <= j < r.len() && r[j].0@ == id;
            assert(n[j].0@ == id);
        }
        if id == x.0@ {
            assert(n[r.len() as int].0@ == id);
        }
        if requests_map(n).dom().contains(id) {
            let j = choose|j: int| 0 <= j < n.len() && n[j].0@ == id;
            if j < r.len() {
                assert(r[j].0@ == id);
            }
        }
    }
    assert forall|id: Seq<char>| #[trigger] m.dom().contains(id) implies requests_map(n)[id] == m[id] by {
        assert(requests_map(n).dom().contains(id));
        let j = choose|j: int| 0 <= j < n.len() && n[j].0@ == id;
        lemma_requests_map_at(n, max, j);
        if id != x.0@ {
            assert(j < r.len());
            lemma_requests_map_at(r, max, j);
        }
    }
    assert(requests_map(n) =~= m);
}

proof fn lemma_requests_bounded(r: Seq<(String, Vec<u128>)>, max: usize)
    requires
        limiter_wf(r, max),
    ensures
        forall|id: Seq<char>| #[trigger] requests_map(r).dom().contains(id) ==> requests_map(r)[id].len() <= max,
{
    assert forall|id: Seq<char>| #[trigger] requests_map(r).dom().contains(id) implies requests_map(r)[id].len() <= max by {
        let j = choose|j: int| 0 <= j < r.len() && r[j].0@ == id;
        lemma_requests_map_at(r, max, j);
    }
}

fn kept_requests(past: &Vec<u128>, now: u128, window: u128) -> (kept: Vec<u128>)
    ensures
        kept@ == past@.filter(recent(now, window)),
{
    let mut kept: Vec<u128> = Vec::new();
    let mut i: usize = 0;
    while i < past.len()
        invariant
            i <= past@.len(),
            kept@ == past@.subrange(0, i as int).filter(recent(now, window)),
        decreases past@.len() - i,
    {
        proof {
            lemma_filter_step(past@, recent(now, window), i as int);
        }
        let t = past[i];
        if now <= t || now - t <= window {
            kept.push(t);
        }
        i = i + 1;
    }
    assert(past@.subrange(0, past@.len() as int) =~= past@);
    kept
}

impl RateLimiter {
    #[verifier::type_invariant]
    spec fn wf(self) -> bool {
        limiter_wf(self.requests@, self.max_requests)
    }

    /// The counted request moments of each client.
    pub closed spec fn view(&self) -> Map<Seq<char>, Seq<u128>> {
        requests_map(self.requests@)
    }

    /// The number of requests a client may make within the window.
    pub closed spec fn max(&self) -> usize {
        self.max_requests
    }

    /// The length of the window, in nanoseconds.
    pub closed spec fn window(&self) -> u128 {
        self.window_nanos
    }

    /// A limiter allowing `max_requests` requests per client within
    /// `window`.
    pub fn new(max_requests: usize, window: Duration) -> (r: Self)
        ensures
            r@ == Map::<Seq<char>, Seq<u128>>::empty(),
            r.max() == max_requests,
            r.window() == duration_nanos_of(window),
            forall|s: u64| window == duration_of_secs(s) ==> r.window() == s * 1000000000,
    {
        let r = RateLimiter {
            requests: Vec::new(),
            max_requests,
            window_nanos: duration_nanos(window),
            origin: instant_now(),
        };
        assert(r@ =~= Map::<Seq<char>, Seq<u128>>::empty());
        r
    }

    /// Whether a client may make a request now; an allowed request is
    /// counted.
    pub fn is_allowed(&mut self, client_id: &str) -> (b: bool)
        ensures
            exists|now: u128| (#[trigger] admit_spec(old(self)@, client_id@, now, old(self).window(), old(self).max()))
                == (final(self)@, b),
            final(self).max() == old(self).max(),
            final(self).window() == old(self).window(),
    {
        let now = duration_nanos(instant_elapsed(&self.origin));
        let b = self.is_allowed_at(client_id, now);
        assert(admit_spec(old(self)@, client_id@, now, old(self).window(), old(self).max()) == (self@, b));
        b
    }

    /// Whether a client may make a request at `now` (nanoseconds since the
    /// limiter was made); an allowed request is counted.
    pub fn is_allowed_at(&mut self, client_id: &str, now: u128) -> (b: bool)
        ensures
            admit_spec(old(self)@, client_id@, now, old(self).window(), old(self).max()) == (final(self)@, b),
            final(self).max() == old(self).max(),
            final(self).window() == old(self).window(),
            forall|id: Seq<char>| #[trigger] final(self)@.dom().contains(id) ==> final(self)@[id].len() <= final(self).max(),
    {
        proof {
            use_type_invariant(&*self);
        }
        let id = chars_of(client_id);
        let mut found: Option<usize> = None;
        let mut i: usize = 0;
        while i < self.requests.len()
            invariant
                i <= self.requests@.len(),
                id@ == client_id@,
                found is None ==> forall|j: int| 0 <= j < i ==> self.requests@[j].0@ != client_id@,
                found matches Some(k) ==> k < self.requests@.len() && self.requests@[k as int].0@ == client_id@,
            decreases self.requests@.len() - i,
        {
            if found.is_none() && chars_eq(&chars_of(self.requests[i].0.as_str()), &id) {
                found = Some(i);
            }
            i = i + 1;
        }
        let ghost m0 = self@;
        let max = self.max_requests;
        let window = self.window_nanos;
        let mut requests: Vec<(String, Vec<u128>)> = Vec::new();
        std::mem::swap(&mut requests, &mut self.requests);
        let ghost r0 = requests@;
        assert(m0 == requests_map(r0));
        let b = match found {
            Some(k) => {
                proof {
                    lemma_requests_map_at(r0, max, k as int);
                }
                let kept = kept_requests(&requests[k].1, now, window);
                proof {
                    r0[k as int].1@.lemma_filter_len(recent(now, window));
                }
                let allowed = kept.len() < max;
                let mut kept = kept;
                if allowed {
                    kept.push(now);
                }
                let key = requests[k].0.clone();
                proof {
                    lemma_requests_map_update(r0, max, k as int, (key, kept));
                }
                requests.set(k, (key, kept));
                allowed
            },
            None => {
                let allowed = 0 < max;
                let mut kept: Vec<u128> = Vec::new();
                proof {
                    reveal(Seq::filter);
                    assert(Seq::<u128>::empty().filter(recent(now, window)) =~= kept@);
                }
                if allowed {
                    kept.push(now);
                }
                let key = crate::text::string_from_chars(&id);
                proof {
                    lemma_requests_map_push(r0, max, (key, kept));
                }
                requests.push((key, kept));
                allowed
            },
        };
        proof {
            lemma_requests_bounded(requests@, max);
        }
        self.requests = requests;
        b
    }
}

/// A request is allowed only while the client has fewer than `max`
/// requests within the window, and is then counted; a refused request adds
/// nothing. Only requests still within the window stay counted, and other
/// clients' records are untouched.
pub proof fn law_rate_limit_admits_within_limit(
    m: Map<Seq<char>, Seq<u128>>,
    id: Seq<char>,
    now: u128,
    window: u128,
    max: usize,
)
    requires
        forall|x: Seq<char>| #[trigger] m.dom().contains(x) ==> m[x].len() <= max,
    ensures
        ({
            let (m2, allowed) = admit_spec(m, id, now, window, max);
            &&& m2.dom() == m.dom().insert(id)
            &&& forall|x: Seq<char>| x != id && #[trigger] m.dom().contains(x) ==> m2[x] == m[x]
            &&& m2[id].len() <= max
            &&& forall|i: int| 0 <= i < m2[id].len() ==> now <= #[trigger] m2[id][i] + window
            &&& allowed ==> m2[id].len() > 0 && m2[id].last() == now
            &&& !allowed ==> m2[id].len() == max
            &&& (m.dom().contains(id) ==> forall|t: u128| m[id].contains(t) && now <= t + window ==> (
                #[trigger] m2[id].contains(t)))
        }),
{
    let past = if m.dom().contains(id) { m[id] } else { Seq::<u128>::empty() };
    let kept = past.filter(recent(now, window));
    assert(m.dom().insert(id) =~= admit_spec(m, id, now, window, max).0.dom());
    assert forall|i: int| 0 <= i < kept.len() implies now <= #[trigger] kept[i] + window by {
        past.lemma_filter_pred(recent(now, window), i);
    }
    assert forall|t: u128| past.contains(t) && now <= t + window implies kept.contains(t) by {
        let j = choose|j: int| 0 <= j < past.len() && past[j] == t;
        past.lemma_filter_contains(recent(now, window), j);
    }
    past.lemma_filter_len(recent(now, window));
    if kept.len() < max {
        assert forall|t: u128| kept.contains(t) implies #[trigger] kept.push(now).contains(t) by {
            let j = choose|j: int| 0 <= j < kept.len() && kept[j] == t;
            assert(kept.push(now)[j] == t);
        }
        assert forall|i: int| 0 <= i < kept.push(now).len() implies now <= #[trigger] kept.push(now)[i]
            + window by {
            if i < kept.len() {
                assert(kept.push(now)[i] == kept[i]);
            }
        }
    }
}

} // verus!
