//! The local streaming server's decisions: request rate limiting, which
//! directories may be served, byte ranges, MIME types, subtitle conversion
//! and the URLs handed to the player.
use vstd::prelude::*;
use vstd::utf8::*;

use crate::text::{
    chars_are, chars_of, decimal_seq, has_prefix, owned, push_decimal, push_str_chars,
    starts_with_chars, string_of,
};
use crate::url_encoding::{percent_decoded, percent_decoding_undoes_encoding, percent_encoded, url_encode};

verus! {

// ---------------------------------------------------------------------------
// Clock
// ---------------------------------------------------------------------------

#[verifier::external_type_specification]
#[verifier::external_body]
pub struct ExInstant(std::time::Instant);

/// `std::time::Instant::now`.  Nothing is stated of the instant returned.
#[verifier::external_body]
fn instant_now() -> std::time::Instant {
    std::time::Instant::now()
}

/// Whole seconds from `start` to `now` (`Instant::duration_since`, then
/// `Duration::as_secs`).  It depends on the clock, so nothing is stated of it.
#[verifier::external_body]
fn whole_seconds_between(start: &std::time::Instant, now: &std::time::Instant) -> u64 {
    now.duration_since(*start).as_secs()
}

// ---------------------------------------------------------------------------
// Rate limiting
// ---------------------------------------------------------------------------

/// Fixed-window rate limiter for incoming stream requests: a window opens
/// with the first request after the previous window has lasted a second,
/// and within a window only the first `max_requests_per_sec` requests pass.
pub struct StreamRateLimiter {
    requests_this_sec: usize,
    window_start: std::time::Instant,
    max_requests_per_sec: usize,
}

impl StreamRateLimiter {
    /// Requests counted in the current window.
    pub closed spec fn count(&self) -> usize {
        self.requests_this_sec
    }

    /// Requests allowed per window.
    pub closed spec fn max(&self) -> usize {
        self.max_requests_per_sec
    }

    /// Start of the current window.
    pub closed spec fn window_start(&self) -> std::time::Instant {
        self.window_start
    }

    /// A limiter with an empty window opening now.
    pub fn new(max_requests_per_sec: usize) -> (r: StreamRateLimiter)
        ensures
            r.count() == 0,
            r.max() == max_requests_per_sec,
    {
        StreamRateLimiter {
            requests_this_sec: 0,
            window_start: instant_now(),
            max_requests_per_sec,
        }
    }

    /// Accounts for one request made `elapsed_secs` whole seconds after the
    /// window opened, at instant `now`; returns whether it may pass.  A
    /// window that has lasted a second is replaced by one opening `now`, and
    /// the request passes as its first; otherwise the request passes when
    /// fewer than the maximum were counted before it, and is counted either
    /// way (the counter wraps around, as an atomic `fetch_add` does).
    pub fn record_request(&mut self, elapsed_secs: u64, now: std::time::Instant) -> (allowed: bool)
        ensures
            final(self).max() == old(self).max(),
            elapsed_secs >= 1 ==> {
                &&& allowed
                &&& final(self).count() == 1
                &&& final(self).window_start() == now
            },
            elapsed_secs < 1 ==> {
                &&& allowed == (old(self).count() < old(self).max())
                &&& final(self).count() == old(self).count().wrapping_add(1)
                &&& final(self).window_start() == old(self).window_start()
            },
            (allowed, final(self).count()) == request_outcome(
                old(self).count(),
                old(self).max(),
                elapsed_secs,
            ),
    {
        if elapsed_secs >= 1 {
            self.window_start = now;
            self.requests_this_sec = 1;
            true
        } else {
            let count = self.requests_this_sec;
            self.requests_this_sec = count.wrapping_add(1);
            count < self.max_requests_per_sec
        }
    }

    /// Accounts for one request made now; returns whether it may pass.
    /// Its outcome is that of `record_request` for the whole seconds elapsed
    /// since the window opened, which the clock decides.
    /// Either a new window opened and the request passes as its first, or the
    /// request is counted in the current window and passes when fewer than
    /// the maximum were counted before it.
    pub fn check(&mut self) -> (allowed: bool)
        ensures
            final(self).max() == old(self).max(),
            ({
                &&& allowed
                &&& final(self).count() == 1
            }) || ({
                &&& allowed == (old(self).count() < old(self).max())
                &&& final(self).count() == old(self).count().wrapping_add(1)
                &&& final(self).window_start() == old(self).window_start()
            }),
            exists|elapsed: u64|
                #![trigger request_outcome(old(self).count(), old(self).max(), elapsed)]
                (allowed, final(self).count()) == request_outcome(
                    old(self).count(),
                    old(self).max(),
                    elapsed,
                ),
    {
        let now = instant_now();
        let elapsed = whole_seconds_between(&self.window_start, &now);
        let allowed = self.record_request(elapsed, now);
        assert((allowed, self.count()) == request_outcome(old(self).count(), old(self).max(), elapsed));
        allowed
    }
}

/// The outcome of one request made `elapsed` whole seconds after the window
/// opened, with `count` requests counted in it and `max` passing per
/// window: whether it passes, and the count afterwards.  A window that has
/// lasted a second is replaced, and the request passes as its first.
pub open spec fn request_outcome(count: usize, max: usize, elapsed: u64) -> (bool, usize) {
    if elapsed >= 1 {
        (true, 1usize)
    } else {
        (count < max, count.wrapping_add(1))
    }
}

/// What successive requests are answered, when `elapsed[i]` is the whole
/// seconds from the start of the window current at the `i`-th request to
/// that request, `count` requests were counted before the first one and
/// `max` pass per window.
pub open spec fn request_results(count: usize, max: usize, elapsed: Seq<u64>) -> Seq<bool>
    decreases elapsed.len(),
{
    if elapsed.len() == 0 {
        seq![]
    } else {
        let (ok, next) = request_outcome(count, max, elapsed[0]);
        seq![ok] + request_results(next, max, elapsed.drop_first())
    }
}

/// How many of the answers let the request pass.
pub open spec fn passed_count(results: Seq<bool>) -> nat
    decreases results.len(),
{
    if results.len() == 0 {
        0
    } else {
        (if results[0] {
            1nat
        } else {
            0nat
        }) + passed_count(results.drop_first())
    }
}

/// Within one window (every request less than a second after it opened),
/// the `i`-th request passes exactly when fewer than `max` were counted
/// before it: at most the room left under `max` pass, and once one is
/// refused every later one is refused.  (The count is assumed not to wrap
/// around, which takes `usize::MAX` requests.)
pub proof fn requests_within_a_window(count: usize, max: usize, elapsed: Seq<u64>)
    requires
        forall|i: int| 0 <= i < elapsed.len() ==> elapsed[i] < 1,
        count + elapsed.len() <= usize::MAX,
    ensures
        request_results(count, max, elapsed).len() == elapsed.len(),
        forall|i: int|
            0 <= i < elapsed.len() ==> request_results(count, max, elapsed)[i] == (count + i
                < max),
        passed_count(request_results(count, max, elapsed)) <= if count < max {
            (max - count) as nat
        } else {
            0
        },
        forall|i: int, j: int|
            0 <= i < j < elapsed.len() && !request_results(count, max, elapsed)[i]
                ==> !request_results(count, max, elapsed)[j],
    decreases elapsed.len(),
{
    if elapsed.len() > 0 {
        let rest = elapsed.drop_first();
        let next = (count + 1) as usize;
        assert(count.wrapping_add(1) == next);
        requests_within_a_window(next, max, rest);
        let r = request_results(count, max, elapsed);
        let rr = request_results(next, max, rest);
        assert(r == seq![count < max] + rr);
        assert(r.drop_first() =~= rr);
        assert forall|i: int| 0 <= i < elapsed.len() implies r[i] == (count + i < max) by {
            if i > 0 {
                assert(r[i] == rr[i - 1]);
            }
        }
    }
}

/// A request made a second or more after its window opened passes and opens
/// a new window; of the requests that follow within that window at most
/// `max - 1` pass (none when `max` is 0), so the new window lets at most
/// `max` through, its first request aside when `max` is 0.
pub proof fn request_after_reset(count: usize, max: usize, elapsed: Seq<u64>)
    requires
        elapsed.len() >= 1,
        elapsed[0] >= 1,
        forall|i: int| 1 <= i < elapsed.len() ==> elapsed[i] < 1,
        elapsed.len() <= usize::MAX,
    ensures
        request_results(count, max, elapsed)[0],
        passed_count(request_results(count, max, elapsed).drop_first()) <= if 1 < max {
            (max - 1) as nat
        } else {
            0
        },
        passed_count(request_results(count, max, elapsed)) <= if max > 1 {
            max as nat
        } else {
            1
        },
{
    let rest = elapsed.drop_first();
    let r = request_results(count, max, elapsed);
    assert(r == seq![true] + request_results(1usize, max, rest));
    assert(r.drop_first() =~= request_results(1usize, max, rest));
    requests_within_a_window(1usize, max, rest);
}

// ---------------------------------------------------------------------------
// Paths the server may serve
// ---------------------------------------------------------------------------

/// Whether `Path::new(a) == Path::new(b)` (component-wise path equality).
pub uninterp spec fn path_eq_result(a: Seq<char>, b: Seq<char>) -> bool;

/// Whether `Path::new(path).starts_with(base)` (component-wise prefix).
pub uninterp spec fn path_starts_with_result(path: Seq<char>, base: Seq<char>) -> bool;

/// `Path == Path` on two paths given as text.
///
/// Trusted: the result is named `path_eq_result`; a path is equal to itself
/// (`Path` implements `Eq`).  How components are compared is left unsaid.
#[verifier::external_body]
fn same_path(a: &str, b: &str) -> (r: bool)
    ensures
        r == path_eq_result(a@, b@),
        a@ == b@ ==> r,
{
    std::path::Path::new(a) == std::path::Path::new(b)
}

/// `Path::starts_with` on two paths given as text.
///
/// Trusted: the result is named `path_starts_with_result`; nothing else is
/// stated of it.
#[verifier::external_body]
fn path_starts_with(path: &str, base: &str) -> (r: bool)
    ensures
        r == path_starts_with_result(path@, base@),
{
    std::path::Path::new(path).starts_with(base)
}

/// Whether `p` is (path-)equal to one of `dirs`.
pub open spec fn holds_path(dirs: Seq<Seq<char>>, p: Seq<char>) -> bool {
    exists|i: int| 0 <= i < dirs.len() && path_eq_result(p, dirs[i])
}

/// `dirs` without the entries equal to `p`.
pub open spec fn without_path(dirs: Seq<Seq<char>>, p: Seq<char>) -> Seq<Seq<char>> {
    dirs.filter(|e: Seq<char>| !path_eq_result(p, e))
}

/// `dirs` with `p` added unless an equal path is already there.
pub open spec fn with_path(dirs: Seq<Seq<char>>, p: Seq<char>) -> Seq<Seq<char>> {
    if holds_path(dirs, p) {
        dirs
    } else {
        dirs.push(p)
    }
}

/// No two of `dirs` are the same path: each entry is path-distinct from all
/// entries before it.
pub open spec fn distinct_paths(dirs: Seq<Seq<char>>) -> bool
    decreases dirs.len(),
{
    if dirs.len() == 0 {
        true
    } else {
        distinct_paths(dirs.drop_last()) && !holds_path(dirs.drop_last(), dirs.last())
    }
}

/// Pairwise form of `distinct_paths`: no later entry is path-equal to an
/// earlier one.
pub proof fn distinct_paths_pairwise(dirs: Seq<Seq<char>>)
    requires
        distinct_paths(dirs),
    ensures
        forall|i: int, j: int| 0 <= i < j < dirs.len() ==> !path_eq_result(dirs[j], dirs[i]),
    decreases dirs.len(),
{
    if dirs.len() > 0 {
        let d = dirs.drop_last();
        distinct_paths_pairwise(d);
        assert forall|i: int, j: int| 0 <= i < j < dirs.len() implies !path_eq_result(
            dirs[j],
            dirs[i],
        ) by {
            if j == dirs.len() - 1 {
                assert(d[i] == dirs[i]);
                if path_eq_result(dirs[j], dirs[i]) {
                    assert(holds_path(d, dirs.last()));
                }
            } else {
                assert(d[i] == dirs[i] && d[j] == dirs[j]);
            }
        }
    }
}

/// Adding a path that is not there keeps the entries distinct.
proof fn with_path_keeps_distinct(dirs: Seq<Seq<char>>, p: Seq<char>)
    requires
        distinct_paths(dirs),
    ensures
        distinct_paths(with_path(dirs, p)),
{
    if !holds_path(dirs, p) {
        assert(dirs.push(p).drop_last() =~= dirs);
    }
}

/// Removing the entries equal to a path keeps the entries distinct.
proof fn without_path_keeps_distinct(dirs: Seq<Seq<char>>, p: Seq<char>)
    requires
        distinct_paths(dirs),
    ensures
        distinct_paths(without_path(dirs, p)),
    decreases dirs.len(),
{
    reveal_with_fuel(Seq::<Seq<char>>::filter, 1);
    if dirs.len() > 0 {
        let d = dirs.drop_last();
        without_path_keeps_distinct(d, p);
        let w = without_path(d, p);
        if !path_eq_result(p, dirs.last()) {
            assert(w.push(dirs.last()).drop_last() =~= w);
            if holds_path(w, dirs.last()) {
                let i = choose|i: int| 0 <= i < w.len() && path_eq_result(dirs.last(), w[i]);
                d.lemma_filter_contains_rev(|e: Seq<char>| !path_eq_result(p, e), w[i]);
                let k = choose|k: int| 0 <= k < d.len() && d[k] == w[i];
                assert(holds_path(d, dirs.last()));
            }
        }
    }
}

/// The form under which a directory is registered: its canonical path when
/// canonicalizing succeeded, the directory as given otherwise.
pub open spec fn registered_form(canonical: Option<String>, dir: String) -> Seq<char> {
    match canonical {
        Some(c) => c@,
        None => dir@,
    }
}

/// What the server answers about a requested file.
#[derive(Debug, Clone, PartialEq, Eq)]
pub enum PathCheck {
    /// The file may be served; it is given by its canonical path.
    Allowed(String),
    /// The file does not exist (its path could not be canonicalized).
    NotFound,
    /// The file lies outside every allowed directory.
    Forbidden,
}

/// The server's state: its port and the directories it may serve from.
pub struct MediaStreamServer {
    port: u16,
    allowed_paths: Vec<String>,
}

impl MediaStreamServer {
    /// The allowed directories are pairwise path-distinct.
    #[verifier::type_invariant]
    closed spec fn distinct_dirs(self) -> bool {
        distinct_paths(self.dirs())
    }

    /// The allowed directories.
    pub closed spec fn dirs(&self) -> Seq<Seq<char>> {
        self.allowed_paths@.map_values(|s: String| s@)
    }

    /// The port the server listens on.
    pub closed spec fn spec_port(&self) -> u16 {
        self.port
    }

    /// A server on `port` that may serve the artwork cache directory: its
    /// canonical form when canonicalizing succeeded, the directory as given
    /// otherwise.
    pub fn new(port: u16, canonical: Option<String>, artwork_cache_dir: String) -> (r:
        MediaStreamServer)
        ensures
            r.spec_port() == port,
            r.dirs() == seq![registered_form(canonical, artwork_cache_dir)],
            distinct_paths(r.dirs()),
    {
        let ghost first = registered_form(canonical, artwork_cache_dir);
        let dir = match canonical {
            Some(c) => c,
            None => artwork_cache_dir,
        };
        let mut allowed_paths: Vec<String> = Vec::new();
        allowed_paths.push(dir);
        proof {
            let d = allowed_paths@.map_values(|s: String| s@);
            assert(d =~= seq![first]);
            assert(d.drop_last() =~= Seq::<Seq<char>>::empty());
            assert(distinct_paths(Seq::<Seq<char>>::empty()));
            assert(!holds_path(Seq::<Seq<char>>::empty(), first));
            assert(distinct_paths(d));
        }
        let r = MediaStreamServer { port, allowed_paths };
        assert(r.dirs() =~= seq![first]);
        r
    }

    /// The port the server listens on.
    pub fn port(&self) -> (r: u16)
        ensures
            r == self.spec_port(),
    {
        self.port
    }

    /// Allows serving files below a directory: its canonical form when
    /// canonicalizing succeeded, the directory as given otherwise.
    pub fn register_allowed_path(&mut self, canonical: Option<String>, dir: String)
        ensures
            final(self).spec_port() == old(self).spec_port(),
            final(self).dirs() == with_path(old(self).dirs(), registered_form(canonical, dir)),
            holds_path(final(self).dirs(), registered_form(canonical, dir)),
            distinct_paths(final(self).dirs()),
    {
        proof {
            use_type_invariant(&*self);
        }
        let ghost target = registered_form(canonical, dir);
        let p = match canonical {
            Some(c) => c,
            None => dir,
        };
        let mut found = false;
        let mut i: usize = 0;
        while i < self.allowed_paths.len() && !found
            invariant
                0 <= i <= self.allowed_paths.len(),
                found ==> holds_path(self.dirs(), p@),
                !found ==> forall|j: int| 0 <= j < i ==> !path_eq_result(p@, self.dirs()[j]),
            decreases self.allowed_paths.len() - i,
        {
            if same_path(p.as_str(), self.allowed_paths[i].as_str()) {
                assert(self.dirs()[i as int] == self.allowed_paths@[i as int]@);
                found = true;
            }
            i = i + 1;
        }
        if found {
            return;
        }
        let ghost before = self.dirs();
        let reflexive = same_path(p.as_str(), p.as_str());
        assert(reflexive);
        let mut paths: Vec<String> = Vec::new();
        std::mem::swap(&mut paths, &mut self.allowed_paths);
        paths.push(p);
        proof {
            let d = paths@.map_values(|s: String| s@);
            assert(d =~= before.push(p@));
            assert(!holds_path(before, p@));
            assert(d.drop_last() =~= before);
        }
        self.allowed_paths = paths;
        assert(self.dirs() =~= before.push(p@));
        assert(self.dirs()[before.len() as int] == p@);
    }

    /// Stops serving files below a directory: removes the entries equal to
    /// its canonical form (when canonicalizing succeeded) and those equal to
    /// the directory as given.
    pub fn unregister_allowed_path(&mut self, canonical: Option<String>, dir: String)
        ensures
            final(self).spec_port() == old(self).spec_port(),
            final(self).dirs() == without_path(
                match canonical {
                    Some(c) => without_path(old(self).dirs(), c@),
                    None => old(self).dirs(),
                },
                dir@,
            ),
            !holds_path(final(self).dirs(), dir@),
            canonical matches Some(c) ==> !holds_path(final(self).dirs(), c@),
            distinct_paths(final(self).dirs()),
    {
        match &canonical {
            Some(c) => self.remove_equal(c.as_str()),
            None => {},
        }
        let ghost mid = self.dirs();
        self.remove_equal(dir.as_str());
        proof {
            use_type_invariant(&*self);
            unregistered_path_is_gone(mid, dir@);
            if let Some(c) = canonical {
                let first = without_path(old(self).dirs(), c@);
                unregistered_path_is_gone(old(self).dirs(), c@);
                assert forall|i: int| 0 <= i < self.dirs().len() implies !path_eq_result(c@, self.dirs()[i]) by {
                    first.lemma_filter_contains_rev(|e: Seq<char>| !path_eq_result(dir@, e), self.dirs()[i]);
                }
            }
        }
    }

    fn remove_equal(&mut self, p: &str)
        ensures
            final(self).spec_port() == old(self).spec_port(),
            final(self).dirs() == without_path(old(self).dirs(), p@),
    {
        proof {
            use_type_invariant(&*self);
        }
        let mut kept: Vec<String> = Vec::new();
        let ghost old_dirs = self.dirs();
        let mut i: usize = 0;
        while i < self.allowed_paths.len()
            invariant
                0 <= i <= self.allowed_paths.len(),
                old_dirs == self.dirs(),
                kept@.map_values(|s: String| s@) == without_path(
                    old_dirs.subrange(0, i as int),
                    p@,
                ),
            decreases self.allowed_paths.len() - i,
        {
            let keep = !same_path(p, self.allowed_paths[i].as_str());
            let ghost before = kept@;
            if keep {
                kept.push(self.allowed_paths[i].clone());
            }
            proof {
                let sub = old_dirs.subrange(0, i + 1);
                assert(sub.drop_last() =~= old_dirs.subrange(0, i as int));
                assert(sub.last() == self.allowed_paths@[i as int]@);
                reveal_with_fuel(Seq::<Seq<char>>::filter, 1);
                assert(kept@.map_values(|s: String| s@) =~= without_path(sub, p@));
            }
            i = i + 1;
        }
        assert(old_dirs.subrange(0, self.allowed_paths.len() as int) =~= old_dirs);
        proof {
            without_path_keeps_distinct(old_dirs, p@);
        }
        self.allowed_paths = kept;
    }

    /// Decides whether a requested file may be served, given its canonical
    /// path (`None` when canonicalizing failed): it may when it lies below
    /// one of the allowed directories.
    pub fn check_path(&self, canonical: Option<&str>) -> (r: PathCheck)
        ensures
            canonical is None ==> r == PathCheck::NotFound,
            canonical matches Some(p) ==> (r is Forbidden || r is Allowed),
            r matches PathCheck::Allowed(q) ==> (canonical matches Some(p) && q@ == p@ && (exists|
                i: int,
            |
                0 <= i < self.dirs().len() && path_starts_with_result(p@, self.dirs()[i]))),
            r is Forbidden ==> (canonical matches Some(p) && (forall|i: int|
                0 <= i < self.dirs().len() ==> !path_starts_with_result(p@, self.dirs()[i]))),
    {
        match canonical {
            None => PathCheck::NotFound,
            Some(p) => {
                let mut i: usize = 0;
                while i < self.allowed_paths.len()
                    invariant
                        0 <= i <= self.allowed_paths.len(),
                        canonical == Some(p),
                        forall|j: int|
                            0 <= j < i ==> !path_starts_with_result(p@, self.dirs()[j]),
                    decreases self.allowed_paths.len() - i,
                {
                    if path_starts_with(p, self.allowed_paths[i].as_str()) {
                        assert(self.dirs()[i as int] == self.allowed_paths@[i as int]@);
                        return PathCheck::Allowed(owned(p));
                    }
                    i = i + 1;
                }
                PathCheck::Forbidden
            },
        }
    }
}

/// After a directory is unregistered, no path equal to it is left.
pub proof fn unregistered_path_is_gone(dirs: Seq<Seq<char>>, p: Seq<char>)
    ensures
        !holds_path(without_path(dirs, p), p),
{
    let w = without_path(dirs, p);
    assert forall|i: int| 0 <= i < w.len() implies !path_eq_result(p, w[i]) by {
        dirs.lemma_filter_contains_rev(|e: Seq<char>| !path_eq_result(p, e), w[i]);
    }
}

/// Registering a directory that was not allowed and then unregistering it
/// leaves the allowed directories as they were.  (`path_eq_result(p, p)`
/// holds of every path: `same_path` guarantees it whenever it is called.)
pub proof fn register_then_unregister_restores(dirs: Seq<Seq<char>>, p: Seq<char>)
    requires
        !holds_path(dirs, p),
        path_eq_result(p, p),
    ensures
        without_path(with_path(dirs, p), p) == dirs,
{
    reveal_with_fuel(Seq::<Seq<char>>::filter, 1);
    assert(dirs.push(p).drop_last() =~= dirs);
    filter_keeps_all(dirs, p);
}

proof fn filter_keeps_all(dirs: Seq<Seq<char>>, p: Seq<char>)
    requires
        !holds_path(dirs, p),
    ensures
        without_path(dirs, p) == dirs,
    decreases dirs.len(),
{
    reveal_with_fuel(Seq::<Seq<char>>::filter, 1);
    if dirs.len() > 0 {
        let d = dirs.drop_last();
        assert(!holds_path(d, p)) by {
            if holds_path(d, p) {
                let i = choose|i: int| 0 <= i < d.len() && path_eq_result(p, d[i]);
                assert(dirs[i] == d[i]);
            }
        }
        filter_keeps_all(d, p);
        assert(!path_eq_result(p, dirs[dirs.len() - 1]));
        assert(d.push(dirs.last()) =~= dirs);
    }
}

// ---------------------------------------------------------------------------
// URLs handed to the player
// ---------------------------------------------------------------------------

/// `http://127.0.0.1:PORT` followed by `route` and the percent-encoded path
/// as the `path` query parameter.
pub open spec fn local_url(port: u16, route: Seq<char>, path: Seq<char>) -> Seq<char> {
    "http://127.0.0.1:"@ + decimal_seq(port as nat) + route + percent_encoded(encode_utf8(path))
}

/// A local URL up to its `path` parameter's value.
pub open spec fn local_url_prefix(port: u16, route: Seq<char>) -> Seq<char> {
    "http://127.0.0.1:"@ + decimal_seq(port as nat) + route
}

/// The value of the `path` parameter of a local URL for `route`: what
/// follows the prefix.
pub open spec fn local_url_path_value(url: Seq<char>, port: u16, route: Seq<char>) -> Seq<char> {
    url.skip(local_url_prefix(port, route).len() as int)
}

/// A local URL is its prefix followed by the encoded path, and
/// percent-decoding that value (then reading it as UTF-8) gives the path
/// back exactly.
pub proof fn local_url_path_round_trip(port: u16, route: Seq<char>, path: Seq<char>)
    ensures
        local_url(port, route, path) == local_url_prefix(port, route) + percent_encoded(
            encode_utf8(path),
        ),
        decode_utf8(percent_decoded(local_url_path_value(local_url(port, route, path), port, route)))
            == path,
{
    let pre = local_url_prefix(port, route);
    let enc = percent_encoded(encode_utf8(path));
    assert(local_url(port, route, path) =~= pre + enc);
    assert((pre + enc).skip(pre.len() as int) =~= enc);
    percent_decoding_undoes_encoding(encode_utf8(path));
    encode_utf8_decode_utf8(path);
}

impl MediaStreamServer {
    fn local_url_exec(&self, route: &str, path: &str) -> (r: String)
        ensures
            r@ == local_url(self.spec_port(), route@, path@),
    {
        let mut text: Vec<char> = Vec::new();
        push_str_chars(&mut text, "http://127.0.0.1:");
        push_decimal(&mut text, self.port as u64);
        push_str_chars(&mut text, route);
        let encoded = url_encode(path);
        push_str_chars(&mut text, encoded.as_str());
        let r = string_of(text.as_slice());
        assert(r@ =~= local_url(self.spec_port(), route@, path@));
        r
    }

    /// The URL under which the player streams the file at `file_path`.
    pub fn get_stream_url(&self, file_path: &str) -> (r: String)
        ensures
            r@ == local_url(self.spec_port(), "/stream?path="@, file_path@),
            decode_utf8(
                percent_decoded(local_url_path_value(r@, self.spec_port(), "/stream?path="@)),
            ) == file_path@,
    {
        proof {
            local_url_path_round_trip(self.spec_port(), "/stream?path="@, file_path@);
        }
        self.local_url_exec("/stream?path=", file_path)
    }

    /// The URL under which the player loads the subtitle file at
    /// `subtitle_path`.
    pub fn get_subtitle_url(&self, subtitle_path: &str) -> (r: String)
        ensures
            r@ == local_url(self.spec_port(), "/subtitles?path="@, subtitle_path@),
            decode_utf8(
                percent_decoded(local_url_path_value(r@, self.spec_port(), "/subtitles?path="@)),
            ) == subtitle_path@,
    {
        proof {
            local_url_path_round_trip(self.spec_port(), "/subtitles?path="@, subtitle_path@);
        }
        self.local_url_exec("/subtitles?path=", subtitle_path)
    }
}

// ---------------------------------------------------------------------------
// Cross-origin requests
// ---------------------------------------------------------------------------

/// The origins whose pages may use the server: the desktop shell's webview
/// and local development servers.
pub open spec fn origin_allowed(o: Seq<char>) -> bool {
    ||| o == "tauri://localhost"@
    ||| o == "https://tauri.localhost"@
    ||| has_prefix(o, "http://localhost:"@)
    ||| has_prefix(o, "http://127.0.0.1:"@)
    ||| o == "http://localhost"@
    ||| o == "http://127.0.0.1"@
}

/// Whether a request from this origin may be answered (an origin header
/// that is not text counts as the empty origin).
pub fn is_allowed_origin(origin: &str) -> (r: bool)
    ensures
        r == origin_allowed(origin@),
{
    let o = chars_of(origin);
    let s = o.as_slice();
    let localhost_port = chars_of("http://localhost:");
    let loopback_port = chars_of("http://127.0.0.1:");
    chars_are(s, "tauri://localhost") || chars_are(s, "https://tauri.localhost")
        || starts_with_chars(s, localhost_port.as_slice()) || starts_with_chars(
        s,
        loopback_port.as_slice(),
    ) || chars_are(s, "http://localhost") || chars_are(s, "http://127.0.0.1")
}

} // verus!
