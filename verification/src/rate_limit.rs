//! A fixed-window rate limiter: a function may carry a limit of at most
//! `max_calls` calls per caller in each window of `window_seconds`; exempt
//! callers and functions without a limit are never limited.

use vstd::prelude::*;
use crate::keyed::{Keyed, find_first, lookup, upsert};
use crate::registry::AddressSet;

verus! {

/// The limit on one function.
pub struct RateLimit {
    pub function: String,
    pub window_seconds: u64,
    pub max_calls: u32,
}

impl Clone for RateLimit {
    fn clone(&self) -> (r: Self)
        ensures
            r == *self,
    {
        RateLimit {
            function: self.function.clone(),
            window_seconds: self.window_seconds,
            max_calls: self.max_calls,
        }
    }
}

impl Keyed for RateLimit {
    open spec fn key(&self) -> Seq<char> {
        self.function@
    }

    fn key_str(&self) -> (r: &String) {
        &self.function
    }
}

/// The calls that one caller made to a function in its current window,
/// which started at `window_start`.
pub struct CallWindow {
    pub address: String,
    pub window_start: u64,
    pub calls: u32,
}

impl Clone for CallWindow {
    fn clone(&self) -> (r: Self)
        ensures
            r == *self,
    {
        CallWindow { address: self.address.clone(), window_start: self.window_start, calls: self.calls }
    }
}

impl Keyed for CallWindow {
    open spec fn key(&self) -> Seq<char> {
        self.address@
    }

    fn key_str(&self) -> (r: &String) {
        &self.address
    }
}

/// The windows of the callers of one function.
pub struct FunctionUsage {
    pub function: String,
    pub windows: Vec<CallWindow>,
}

impl Keyed for FunctionUsage {
    open spec fn key(&self) -> Seq<char> {
        self.function@
    }

    fn key_str(&self) -> (r: &String) {
        &self.function
    }
}

fn clone_windows(v: &Vec<CallWindow>) -> (r: Vec<CallWindow>)
    ensures
        r@ == v@,
{
    let mut r: Vec<CallWindow> = Vec::new();
    let mut i: usize = 0;
    while i < v.len()
        invariant
            0 <= i <= v@.len(),
            r@ == v@.take(i as int),
        decreases v@.len() - i,
    {
        r.push(v[i].clone());
        assert(r@ =~= v@.take(i + 1));
        i = i + 1;
    }
    assert(v@.take(i as int) =~= v@);
    r
}

proof fn lemma_lookup_empty<T: Keyed>(s: Seq<T>, k: Seq<char>)
    requires
        s.len() == 0,
    ensures
        lookup(s, k) is None,
{
}

/// The limits, the exempt callers and the call windows.
pub struct RateLimiter {
    pub limits: Vec<RateLimit>,
    pub exempt: AddressSet,
    pub usage: Vec<FunctionUsage>,
}

impl RateLimiter {
    /// The limit on function `f`, if any.
    pub open spec fn limit_of(&self, f: Seq<char>) -> Option<RateLimit> {
        lookup(self.limits@, f)
    }

    /// The window of caller `a` for function `f`, if it has called it.
    pub open spec fn window_of(&self, a: Seq<char>, f: Seq<char>) -> Option<CallWindow> {
        match lookup(self.usage@, f) {
            Some(u) => lookup(u.windows@, a),
            None => None,
        }
    }

    /// Whether a call at `now` opens a new window for `a` and `f`: there is
    /// none yet, or the last one has run for `window` seconds.
    pub open spec fn opens_window(&self, a: Seq<char>, f: Seq<char>, now: u64, window: u64) -> bool {
        match self.window_of(a, f) {
            Some(w) => now >= w.window_start && now - w.window_start >= window,
            None => true,
        }
    }

    /// The calls of `a` to `f` that count against a call at `now`.
    pub open spec fn calls_at(&self, a: Seq<char>, f: Seq<char>, now: u64, window: u64) -> nat {
        if self.opens_window(a, f, now, window) {
            0
        } else {
            self.window_of(a, f)->0.calls as nat
        }
    }

    /// Whether a call by `a` to `f` at `now` is allowed: `a` is exempt, `f`
    /// has no limit, or fewer than `max_calls` calls count against it.
    pub open spec fn allows(&self, a: Seq<char>, f: Seq<char>, now: u64) -> bool {
        ||| self.exempt.has(a)
        ||| self.limit_of(f) is None
        ||| self.calls_at(a, f, now, self.limit_of(f)->0.window_seconds) < self.limit_of(f)->0.max_calls
    }

    /// What recording a call by `a` to `f` at `now` leaves: calls that are
    /// exempt or unlimited are not counted; otherwise `a`'s window for `f`
    /// holds one more call, in a new window starting at `now` when the call
    /// opens one, and every other window is unchanged.
    pub open spec fn recorded(&self, next: &Self, a: Seq<char>, f: Seq<char>, now: u64) -> bool {
        &&& next.limits == self.limits
        &&& next.exempt == self.exempt
        &&& if self.exempt.has(a) || self.limit_of(f) is None {
            next.usage == self.usage
        } else {
            let window = self.limit_of(f)->0.window_seconds;
            &&& next.window_of(a, f) matches Some(w) && {
                &&& w.window_start == if self.opens_window(a, f, now, window) {
                    now
                } else {
                    self.window_of(a, f)->0.window_start
                }
                &&& w.calls == self.calls_at(a, f, now, window) + 1
            }
            &&& forall|a2: Seq<char>, f2: Seq<char>|
                (a2 != a || f2 != f) ==> #[trigger] next.window_of(a2, f2) == self.window_of(a2, f2)
        }
    }

    /// No limits, no exempt callers, no calls.
    pub fn new() -> (s: Self)
        ensures
            forall|f: Seq<char>| #[trigger] s.limit_of(f) is None,
            forall|a: Seq<char>| !#[trigger] s.exempt.has(a),
            forall|a: Seq<char>, f: Seq<char>| #[trigger] s.window_of(a, f) is None,
    {
        RateLimiter { limits: Vec::new(), exempt: AddressSet::new(), usage: Vec::new() }
    }

    /// Sets the limit on `function` to `max_calls` calls per `window_seconds`;
    /// other limits, the exempt callers and the windows are unchanged.
    pub fn set_limit(&mut self, function: &String, window_seconds: u64, max_calls: u32)
        ensures
            final(self).limit_of(function@) matches Some(l) && l.window_seconds == window_seconds
                && l.max_calls == max_calls,
            forall|g: Seq<char>| g != function@ ==> #[trigger] final(self).limit_of(g) == old(self).limit_of(g),
            final(self).exempt == old(self).exempt,
            final(self).usage == old(self).usage,
    {
        upsert(&mut self.limits, RateLimit { function: function.clone(), window_seconds, max_calls });
    }

    /// Makes `address` exempt from every limit, or subject to them again.
    pub fn set_exempt(&mut self, address: &String, exempt: bool)
        ensures
            forall|y: Seq<char>| #[trigger] final(self).exempt.has(y) == if y == address@ {
                exempt
            } else {
                old(self).exempt.has(y)
            },
            final(self).limits == old(self).limits,
            final(self).usage == old(self).usage,
    {
        if exempt {
            self.exempt.insert(address);
        } else {
            self.exempt.remove(address);
        }
    }

    /// The current window of `address` for `function`, if any.
    fn find_window(&self, address: &String, function: &String) -> (r: Option<CallWindow>)
        ensures
            r == self.window_of(address@, function@),
    {
        match find_first(&self.usage, function) {
            Some(i) => {
                let windows = &self.usage[i].windows;
                match find_first(windows, address) {
                    Some(j) => Some(windows[j].clone()),
                    None => None,
                }
            },
            None => None,
        }
    }

    /// Whether a call by `address` to `function` at `now` is allowed.
    pub fn allows_call(&self, address: &String, function: &String, now: u64) -> (r: bool)
        ensures
            r == self.allows(address@, function@, now),
    {
        if self.exempt.contains(address) {
            return true;
        }
        let limit = match find_first(&self.limits, function) {
            Some(i) => self.limits[i].clone(),
            None => return true,
        };
        let calls: u32 = match self.find_window(address, function) {
            Some(w) => {
                if now >= w.window_start && now - w.window_start >= limit.window_seconds {
                    0
                } else {
                    w.calls
                }
            },
            None => 0,
        };
        calls < limit.max_calls
    }

    /// Counts an allowed call by `address` to `function` at `now`.
    pub fn record_call(&mut self, address: &String, function: &String, now: u64)
        requires
            old(self).allows(address@, function@, now),
        ensures
            old(self).recorded(&*final(self), address@, function@, now),
    {
        if self.exempt.contains(address) {
            return;
        }
        let limit = match find_first(&self.limits, function) {
            Some(i) => self.limits[i].clone(),
            None => return,
        };
        let ghost old_usage = self.usage@;
        let mut windows: Vec<CallWindow> = match find_first(&self.usage, function) {
            Some(i) => clone_windows(&self.usage[i].windows),
            None => Vec::new(),
        };
        proof {
            if lookup(old_usage, function@) is None {
                lemma_lookup_empty(windows@, address@);
                assert forall|q: Seq<char>| #[trigger] lookup(windows@, q) is None by {
                    lemma_lookup_empty(windows@, q);
                }
            }
        }
        let (start, calls): (u64, u32) = match find_first(&windows, address) {
            Some(j) => {
                let w = &windows[j];
                if now >= w.window_start && now - w.window_start >= limit.window_seconds {
                    (now, 0)
                } else {
                    (w.window_start, w.calls)
                }
            },
            None => (now, 0),
        };
        let ghost old_windows = windows@;
        upsert(&mut windows, CallWindow { address: address.clone(), window_start: start, calls: calls + 1 });
        proof {
            assert forall|q: Seq<char>| q != address@ implies #[trigger] lookup(windows@, q) == lookup(
                old_windows,
                q,
            ) by {}
        }
        upsert(&mut self.usage, FunctionUsage { function: function.clone(), windows });
    }
}

/// A recorded call counts against the caller's next call to the same function
/// in the same window: once a non-exempt caller has made `max_calls` calls in
/// a window, every further call before the window ends is refused.
pub proof fn law_recorded_call_counts(r: RateLimiter, next: RateLimiter, a: Seq<char>, f: Seq<char>, now: u64, later: u64)
    requires
        r.recorded(&next, a, f, now),
        !r.exempt.has(a),
        r.limit_of(f) is Some,
        !next.opens_window(a, f, later, r.limit_of(f)->0.window_seconds),
    ensures
        next.calls_at(a, f, later, r.limit_of(f)->0.window_seconds) == r.calls_at(
            a,
            f,
            now,
            r.limit_of(f)->0.window_seconds,
        ) + 1,
        r.calls_at(a, f, now, r.limit_of(f)->0.window_seconds) + 1 >= r.limit_of(f)->0.max_calls
            ==> !next.allows(a, f, later),
{
}

} // verus!
