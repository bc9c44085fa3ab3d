//! A fixed-window request counter keyed by client identity. It sits in
//! front of the transport as an external collaborator of the core; the
//! clock reading is handed in, so every decision is checked for every
//! possible time.

use vstd::prelude::*;

verus! {

/// Time since a window started, treating a clock that moved backwards as
/// no time passed.
pub open spec fn elapsed(now: u64, since: u64) -> u64 {
    if now >= since {
        (now - since) as u64
    } else {
        0
    }
}

/// One more request, counted without wrapping.
pub open spec fn bump(c: u32) -> u32 {
    if c < 0xFFFFFFFFu32 {
        (c + 1) as u32
    } else {
        c
    }
}

/// True when some entry carries the client identity.
pub open spec fn has_client(s: Seq<(Seq<char>, u32, u64)>, ip: Seq<char>) -> bool {
    exists|i: int| 0 <= i < s.len() && s[i].0 == ip
}

/// The position of the entry carrying the client identity.
pub open spec fn client_idx(s: Seq<(Seq<char>, u32, u64)>, ip: Seq<char>) -> int {
    choose|i: int| 0 <= i < s.len() && s[i].0 == ip
}

/// Counts requests per client identity over a fixed window.
pub struct RateLimiter {
    requests: Vec<(String, u32, u64)>,
    max_requests: u32,
    window: u64,
}

impl View for RateLimiter {
    type V = Seq<(Seq<char>, u32, u64)>;

    closed spec fn view(&self) -> Seq<(Seq<char>, u32, u64)> {
        self.requests@.map_values(|e: (String, u32, u64)| (e.0@, e.1, e.2))
    }
}

impl RateLimiter {
    /// The most requests allowed within one window.
    pub closed spec fn spec_max_requests(&self) -> u32 {
        self.max_requests
    }

    /// The window length in seconds.
    pub closed spec fn spec_window(&self) -> u64 {
        self.window
    }

    /// Client identities are tracked once each.
    pub open spec fn wf(&self) -> bool {
        forall|i: int, j: int| 0 <= i < j < self@.len() ==> self@[i].0 != self@[j].0
    }

    /// A limiter allowing `max_requests` per `window_seconds`, with no
    /// requests seen yet.
    pub fn new(max_requests: u32, window_seconds: u64) -> (r: Self)
        ensures
            r@ == Seq::<(Seq<char>, u32, u64)>::empty(),
            r.spec_max_requests() == max_requests,
            r.spec_window() == window_seconds,
            r.wf(),
    {
        let limiter = RateLimiter { requests: Vec::new(), max_requests, window: window_seconds };
        proof {
            assert(limiter@ =~= Seq::<(Seq<char>, u32, u64)>::empty());
        }
        limiter
    }

    /// The position of the client's entry, if any.
    fn find(&self, ip: &String) -> (r: Option<usize>)
        ensures
            match r {
                Some(i) => 0 <= i < self@.len() && self@[i as int].0 == ip@,
                None => !has_client(self@, ip@),
            },
    {
        let mut i: usize = 0;
        while i < self.requests.len()
            invariant
                0 <= i <= self.requests.len(),
                self@ == self.requests@.map_values(|e: (String, u32, u64)| (e.0@, e.1, e.2)),
                forall|j: int| 0 <= j < i ==> self@[j].0 != ip@,
            decreases self.requests.len() - i,
        {
            if self.requests[i].0 == *ip {
                proof {
                    assert(self@[i as int].0 == ip@);
                }
                return Some(i);
            }
            i = i + 1;
        }
        None
    }

    /// Counts one request from the client at time `now` and answers
    /// whether it exceeds the limit. A client first seen, or seen again
    /// after a full window, starts a fresh window with this one request
    /// and is never limited by it; within a window the count grows by one
    /// and the request is limited exactly when the count passes the
    /// maximum.
    pub fn is_rate_limited(&mut self, ip: &String, now: u64) -> (r: bool)
        requires
            old(self).wf(),
        ensures
            final(self).wf(),
            final(self).spec_max_requests() == old(self).spec_max_requests(),
            final(self).spec_window() == old(self).spec_window(),
            !has_client(old(self)@, ip@) ==> {
                &&& final(self)@ == old(self)@.push((ip@, 1u32, now))
                &&& r == (old(self).spec_window() != 0 && 1u32 > old(self).spec_max_requests())
            },
            has_client(old(self)@, ip@) ==> {
                let i = client_idx(old(self)@, ip@);
                let e = old(self)@[i];
                if elapsed(now, e.2) >= old(self).spec_window() {
                    final(self)@ == old(self)@.update(i, (e.0, 1u32, now)) && r == false
                } else {
                    final(self)@ == old(self)@.update(i, (e.0, bump(e.1), e.2)) && r == (bump(e.1)
                        > old(self).spec_max_requests())
                }
            },
    {
        match self.find(ip) {
            None => {
                let ghost pre = self@;
                self.requests.push((ip.clone(), 1, now));
                proof {
                    assert(self@ =~= pre.push((ip@, 1u32, now)));
                }
                if self.window == 0 {
                    false
                } else {
                    1 > self.max_requests
                }
            },
            Some(i) => {
                proof {
                    lemma_client_idx_unique(self@, ip@, i as int);
                }
                let ghost pre = self@;
                let entry = &self.requests[i];
                let count = entry.1;
                let since = entry.2;
                let passed = if now >= since {
                    now - since
                } else {
                    0
                };
                if passed >= self.window {
                    let fresh_ip = self.requests[i].0.clone();
                    self.requests.set(i, (fresh_ip, 1, now));
                    proof {
                        assert(self@ =~= pre.update(i as int, (pre[i as int].0, 1u32, now)));
                    }
                    false
                } else {
                    let next = if count < 0xFFFFFFFF {
                        count + 1
                    } else {
                        count
                    };
                    let fresh_ip = self.requests[i].0.clone();
                    self.requests.set(i, (fresh_ip, next, since));
                    proof {
                        assert(self@ =~= pre.update(
                            i as int,
                            (pre[i as int].0, bump(pre[i as int].1), pre[i as int].2),
                        ));
                    }
                    next > self.max_requests
                }
            },
        }
    }
}

/// Under unique client identities, the found index is the one
/// `client_idx` picks.
proof fn lemma_client_idx_unique(s: Seq<(Seq<char>, u32, u64)>, ip: Seq<char>, i: int)
    requires
        forall|p: int, q: int| 0 <= p < q < s.len() ==> s[p].0 != s[q].0,
        0 <= i < s.len(),
        s[i].0 == ip,
    ensures
        client_idx(s, ip) == i,
{
    assert(has_client(s, ip));
    let j = client_idx(s, ip);
    if j < i {
        assert(s[j].0 != s[i].0);
    } else if i < j {
        assert(s[i].0 != s[j].0);
    }
}

} // verus!
