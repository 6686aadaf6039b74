//! The rate limiter: a sliding per-client window over request counts.
//!
//! Time reaches this module only as an argument — every decision is a
//! function of the state, the client address and the clock reading the
//! caller took. The idle-reset check runs before the increment, and the
//! throttle compares the freshly incremented count against the limit.

use vstd::prelude::*;

verus! {

/// A request-rate ceiling over one unit of time.
#[derive(Clone, Copy, PartialEq, Eq, Structural, Debug)]
pub enum RateType {
    PerSecond(u32),
    PerMinute(u32),
    PerHour(u32),
    PerDay(u32),
}

impl RateType {
    /// The ceiling itself.
    pub open spec fn spec_limit(&self) -> u32 {
        match self {
            RateType::PerSecond(l) => *l,
            RateType::PerMinute(l) => *l,
            RateType::PerHour(l) => *l,
            RateType::PerDay(l) => *l,
        }
    }

    /// The unit of time, in seconds.
    pub open spec fn spec_unit_secs(&self) -> int {
        match self {
            RateType::PerSecond(_) => 1,
            RateType::PerMinute(_) => 60,
            RateType::PerHour(_) => 3600,
            RateType::PerDay(_) => 86400,
        }
    }

    pub fn limit(&self) -> (r: u32)
        ensures
            r == self.spec_limit(),
    {
        match self {
            RateType::PerSecond(l) => *l,
            RateType::PerMinute(l) => *l,
            RateType::PerHour(l) => *l,
            RateType::PerDay(l) => *l,
        }
    }

    pub fn unit_secs(&self) -> (r: i64)
        ensures
            r == self.spec_unit_secs(),
    {
        match self {
            RateType::PerSecond(_) => 1,
            RateType::PerMinute(_) => 60,
            RateType::PerHour(_) => 3600,
            RateType::PerDay(_) => 86400,
        }
    }
}

/// Two requests this close together count into the same window: fewer
/// than two whole units apart, counting whole units only.
pub open spec fn within_window(diff: int, rate: RateType) -> bool {
    diff < 2 * rate.spec_unit_secs()
}

/// A count about to grow by one, capped so it cannot wrap.
pub open spec fn bump(c: u32) -> u32 {
    if c < u32::MAX {
        (c + 1) as u32
    } else {
        c
    }
}

/// One client's standing: address, in-window count, and when it was last
/// and first seen, as seconds.
pub struct ClientRecord {
    pub ip: String,
    pub count: u32,
    pub last_request: i64,
    pub first_request: i64,
}

/// Is some record's address `ip`?
pub open spec fn has_ip(clients: Seq<ClientRecord>, ip: Seq<char>) -> bool {
    exists|i: int| 0 <= i < clients.len() && clients[i].ip@ == ip
}

/// The index of the record with address `ip`; meaningful only where the
/// addresses are unique and `has_ip` holds.
pub open spec fn ip_index(clients: Seq<ClientRecord>, ip: Seq<char>) -> int {
    choose|i: int| 0 <= i < clients.len() && clients[i].ip@ == ip
}

/// In a table of unique addresses, any record holding `ip` stands at the
/// one index `ip_index` picks.
pub proof fn lemma_ip_index_unique(clients: Seq<ClientRecord>, ip: Seq<char>, k: int)
    requires
        0 <= k < clients.len(),
        clients[k].ip@ == ip,
        forall|i: int, j: int|
            0 <= i < j < clients.len() ==> (#[trigger] clients[i]).ip@ != (
            #[trigger] clients[j]).ip@,
    ensures
        ip_index(clients, ip) == k,
{
    let k2 = ip_index(clients, ip);
    assert(0 <= k2 < clients.len() && clients[k2].ip@ == ip);
    if k2 < k {
        assert(clients[k2].ip@ != clients[k].ip@);
    } else if k < k2 {
        assert(clients[k].ip@ != clients[k2].ip@);
    }
}

/// The per-client table and its configured throttle.
pub struct RateLimitState {
    clients: Vec<ClientRecord>,
    limit: RateType,
    reset_timeout_secs: i64,
}

impl RateLimitState {
    /// The held records, one per distinct address.
    pub closed spec fn clients(&self) -> Seq<ClientRecord> {
        self.clients@
    }

    /// The configured throttle.
    pub closed spec fn rate(&self) -> RateType {
        self.limit
    }

    /// The idle expiry, in seconds.
    pub closed spec fn reset_timeout(&self) -> int {
        self.reset_timeout_secs as int
    }

    /// Each address owns at most one record.
    pub open spec fn wf(&self) -> bool {
        forall|i: int, j: int|
            0 <= i < j < self.clients().len() ==> (#[trigger] self.clients()[i]).ip@ != (
            #[trigger] self.clients()[j]).ip@
    }

    pub fn new(rate: RateType, reset_timeout_secs: i64) -> (r: RateLimitState)
        ensures
            r.clients() =~= Seq::<ClientRecord>::empty(),
            r.rate() == rate,
            r.reset_timeout() == reset_timeout_secs as int,
            r.wf(),
    {
        RateLimitState { clients: Vec::new(), limit: rate, reset_timeout_secs }
    }

    /// Find-or-create the record for `ip`: an existing record's count grows
    /// by one and its last-seen time moves to `now`; a new record starts
    /// counting at one.
    pub fn add_client(&mut self, ip: String, now: i64)
        requires
            old(self).wf(),
        ensures
            final(self).wf(),
            final(self).rate() == old(self).rate(),
            final(self).reset_timeout() == old(self).reset_timeout(),
            if has_ip(old(self).clients(), ip@) {
                let k = ip_index(old(self).clients(), ip@);
                &&& final(self).clients().len() == old(self).clients().len()
                &&& forall|j: int|
                    0 <= j < old(self).clients().len() && j != k ==> final(self).clients()[j] == old(
                        self,
                    ).clients()[j]
                &&& final(self).clients()[k].ip == old(self).clients()[k].ip
                &&& final(self).clients()[k].count == bump(old(self).clients()[k].count)
                &&& final(self).clients()[k].last_request == now
                &&& final(self).clients()[k].first_request == old(
                    self,
                ).clients()[k].first_request
            } else {
                final(self).clients() =~= old(self).clients().push(
                    ClientRecord { ip, count: 1, last_request: now, first_request: now },
                )
            },
    {
        let ghost old_clients = self.clients@;
        let mut i: usize = 0;
        while i < self.clients.len()
            invariant
                0 <= i <= self.clients@.len(),
                self.clients@ == old_clients,
                self.limit == old(self).limit,
                self.reset_timeout_secs == old(self).reset_timeout_secs,
                forall|j: int| 0 <= j < i ==> old_clients[j].ip@ != ip@,
            decreases self.clients@.len() - i,
        {
            if crate::strutil::str_eq(self.clients[i].ip.as_str(), ip.as_str()) {
                proof {
                    assert(old_clients[i as int].ip@ == ip@);
                    assert(ip_index(old_clients, ip@) == i as int);
                }
                let record = &mut self.clients[i];
                if record.count < u32::MAX {
                    record.count = record.count + 1;
                }
                record.last_request = now;
                return ;
            }
            i = i + 1;
        }
        self.clients.push(ClientRecord { ip, count: 1, last_request: now, first_request: now });
    }

    /// The record for `ip`, if one exists.
    pub fn get_client(&self, ip: &str) -> (r: Option<&ClientRecord>)
        requires
            self.wf(),
        ensures
            r is Some <==> has_ip(self.clients(), ip@),
            r matches Some(c) ==> has_ip(self.clients(), ip@) && *c == self.clients()[ip_index(
                self.clients(),
                ip@,
            )],
    {
        let mut i: usize = 0;
        while i < self.clients.len()
            invariant
                0 <= i <= self.clients@.len(),
                forall|j: int| 0 <= j < i ==> self.clients@[j].ip@ != ip@,
            decreases self.clients@.len() - i,
        {
            if crate::strutil::str_eq(self.clients[i].ip.as_str(), ip) {
                proof {
                    assert(self.clients@[i as int].ip@ == ip@);
                    assert(ip_index(self.clients(), ip@) == i as int);
                }
                return Some(&self.clients[i]);
            }
            i = i + 1;
        }
        None
    }

    /// Zero the record for `ip`, moving both timestamps to `now`; say
    /// whether a record was found.
    pub fn reset_client(&mut self, ip: &str, now: i64) -> (found: bool)
        requires
            old(self).wf(),
        ensures
            final(self).wf(),
            final(self).rate() == old(self).rate(),
            final(self).reset_timeout() == old(self).reset_timeout(),
            found == has_ip(old(self).clients(), ip@),
            if has_ip(old(self).clients(), ip@) {
                let k = ip_index(old(self).clients(), ip@);
                &&& final(self).clients().len() == old(self).clients().len()
                &&& forall|j: int|
                    0 <= j < old(self).clients().len() && j != k ==> final(self).clients()[j] == old(
                        self,
                    ).clients()[j]
                &&& final(self).clients()[k].ip == old(self).clients()[k].ip
                &&& final(self).clients()[k].count == 0
                &&& final(self).clients()[k].last_request == now
                &&& final(self).clients()[k].first_request == now
            } else {
                final(self).clients() == old(self).clients()
            },
    {
        let ghost old_clients = self.clients@;
        let mut i: usize = 0;
        while i < self.clients.len()
            invariant
                0 <= i <= self.clients@.len(),
                self.clients@ == old_clients,
                self.limit == old(self).limit,
                self.reset_timeout_secs == old(self).reset_timeout_secs,
                forall|j: int| 0 <= j < i ==> old_clients[j].ip@ != ip@,
            decreases self.clients@.len() - i,
        {
            if crate::strutil::str_eq(self.clients[i].ip.as_str(), ip) {
                proof {
                    assert(old_clients[i as int].ip@ == ip@);
                    assert(ip_index(old_clients, ip@) == i as int);
                }
                let record = &mut self.clients[i];
                record.count = 0;
                record.last_request = now;
                record.first_request = now;
                return true;
            }
            i = i + 1;
        }
        false
    }

    /// What the throttle says for a known client, after the increment:
    /// within the window the fresh count must not exceed the limit; a
    /// request beyond the window starts the count over.
    pub open spec fn on_the_limit_spec(c: ClientRecord, rate: RateType, now: int) -> bool {
        !within_window(now - c.last_request, rate) || c.count <= rate.spec_limit()
    }

    /// The throttle check. An unknown client is turned away; a known one
    /// is admitted unless its count exceeds the limit within the window,
    /// and a request falling beyond the window resets its record.
    pub fn on_the_limit(&mut self, ip: &str, now: i64) -> (admitted: bool)
        requires
            old(self).wf(),
        ensures
            final(self).wf(),
            final(self).rate() == old(self).rate(),
            final(self).reset_timeout() == old(self).reset_timeout(),
            !has_ip(old(self).clients(), ip@) ==> !admitted && final(self).clients() == old(
                self,
            ).clients(),
            has_ip(old(self).clients(), ip@) ==> {
                let k = ip_index(old(self).clients(), ip@);
                let c = old(self).clients()[k];
                &&& admitted == Self::on_the_limit_spec(c, old(self).rate(), now as int)
                &&& if within_window(now - c.last_request, old(self).rate()) {
                    final(self).clients() == old(self).clients()
                } else {
                    &&& final(self).clients().len() == old(self).clients().len()
                    &&& forall|j: int|
                        0 <= j < old(self).clients().len() && j != k ==> final(self).clients()[j]
                            == old(self).clients()[j]
                    &&& final(self).clients()[k].ip == c.ip
                    &&& final(self).clients()[k].count == 0
                    &&& final(self).clients()[k].last_request == now
                    &&& final(self).clients()[k].first_request == now
                }
            },
    {
        let (count, last_request) = match self.get_client(ip) {
            None => {
                return false;
            },
            Some(c) => (c.count, c.last_request),
        };
        let diff = now.checked_sub(last_request);
        let unit = self.limit.unit_secs();
        let in_window = match diff {
            Some(d) => d < 2 * unit,
            // The true difference lies beyond i64: within the window only
            // when it is negative.
            None => now < last_request,
        };
        if in_window {
            if count > self.limit.limit() {
                return false;
            }
            true
        } else {
            self.reset_client(ip, now);
            true
        }
    }

    /// Has `ip` sat idle past the configured reset timeout? An unknown
    /// client has not.
    pub fn passed_reset_timeout(&self, ip: &str, now: i64) -> (r: bool)
        requires
            self.wf(),
        ensures
            r == (has_ip(self.clients(), ip@) && now - self.clients()[ip_index(
                self.clients(),
                ip@,
            )].last_request > self.reset_timeout()),
    {
        match self.get_client(ip) {
            None => false,
            Some(c) => {
                match now.checked_sub(c.last_request) {
                    Some(d) => d > self.reset_timeout_secs,
                    // The true difference lies beyond i64: it is past any
                    // timeout exactly when it is positive.
                    None => now > c.last_request,
                }
            },
        }
    }

    /// One request from `ip` at `now`: the idle check first, then the
    /// increment, then the throttle on the fresh count. A client idle past
    /// the reset timeout starts over, counting this request as its first,
    /// and is admitted; otherwise the request is admitted exactly when the
    /// freshly incremented count stays within the limit.
    pub fn full_check_on_the_limit(&mut self, ip: String, now: i64) -> (admitted: bool)
        requires
            old(self).wf(),
        ensures
            final(self).wf(),
            final(self).rate() == old(self).rate(),
            final(self).reset_timeout() == old(self).reset_timeout(),
            !has_ip(old(self).clients(), ip@) ==> {
                &&& admitted == (1 <= old(self).rate().spec_limit())
                &&& final(self).clients() =~= old(self).clients().push(
                    ClientRecord { ip, count: 1, last_request: now, first_request: now },
                )
            },
            has_ip(old(self).clients(), ip@) ==> {
                let k = ip_index(old(self).clients(), ip@);
                let c = old(self).clients()[k];
                &&& final(self).clients().len() == old(self).clients().len()
                &&& forall|j: int|
                    0 <= j < old(self).clients().len() && j != k ==> final(self).clients()[j]
                        == old(self).clients()[j]
                &&& final(self).clients()[k].ip == c.ip
                &&& final(self).clients()[k].last_request == now
                &&& if now - c.last_request > old(self).reset_timeout() {
                    &&& admitted
                    &&& final(self).clients()[k].count == 1
                    &&& final(self).clients()[k].first_request == now
                } else {
                    &&& admitted == (bump(c.count) <= old(self).rate().spec_limit())
                    &&& final(self).clients()[k].count == bump(c.count)
                    &&& final(self).clients()[k].first_request == c.first_request
                }
            },
    {
        let ghost cs0 = self.clients();
        let ghost k = ip_index(cs0, ip@);
        if self.passed_reset_timeout(ip.as_str(), now) {
            self.reset_client(ip.as_str(), now);
            proof {
                assert(self.clients()[k].ip@ == ip@);
                assert(has_ip(self.clients(), ip@));
                lemma_ip_index_unique(self.clients(), ip@, k);
            }
            let ghost cs1 = self.clients();
            self.add_client(ip, now);
            proof {
                assert(self.clients()[k].ip == cs1[k].ip);
                assert(has_ip(self.clients(), ip@));
            }
            return true;
        }
        self.add_client(ip.clone(), now);
        proof {
            if has_ip(cs0, ip@) {
                assert(self.clients()[k].ip@ == ip@);
                lemma_ip_index_unique(self.clients(), ip@, k);
            } else {
                assert(self.clients()[cs0.len() as int].ip@ == ip@);
                lemma_ip_index_unique(self.clients(), ip@, cs0.len() as int);
            }
        }
        self.on_the_limit(ip.as_str(), now)
    }
}

/// The process-wide counter: one window and limit, no per-client keying.
pub struct ServerLimit {
    limit: RateType,
    current_count: u32,
    last_reset: i64,
    reset_timeout_secs: i64,
}

impl ServerLimit {
    /// The configured throttle.
    pub closed spec fn rate(&self) -> RateType {
        self.limit
    }

    /// Requests counted since the last reset.
    pub closed spec fn count(&self) -> u32 {
        self.current_count
    }

    /// When the counter was last reset, in seconds.
    pub closed spec fn last_reset(&self) -> int {
        self.last_reset as int
    }

    /// The idle expiry, in seconds.
    pub closed spec fn reset_timeout(&self) -> int {
        self.reset_timeout_secs as int
    }

    pub fn new(limit: RateType, reset_timeout_secs: i64, now: i64) -> (r: ServerLimit)
        ensures
            r.rate() == limit,
            r.count() == 0,
            r.last_reset() == now as int,
            r.reset_timeout() == reset_timeout_secs as int,
    {
        ServerLimit { limit, current_count: 0, last_reset: now, reset_timeout_secs }
    }

    /// Start a fresh window at `now`.
    pub fn reset(&mut self, now: i64)
        ensures
            final(self).rate() == old(self).rate(),
            final(self).reset_timeout() == old(self).reset_timeout(),
            final(self).count() == 0,
            final(self).last_reset() == now as int,
    {
        self.current_count = 0;
        self.last_reset = now;
    }

    /// Count one request.
    pub fn increment(&mut self)
        ensures
            final(self).rate() == old(self).rate(),
            final(self).reset_timeout() == old(self).reset_timeout(),
            final(self).last_reset() == old(self).last_reset(),
            final(self).count() == bump(old(self).count()),
    {
        if self.current_count < u32::MAX {
            self.current_count = self.current_count + 1;
        }
    }

    /// The process-scope gate, with the same reset and window logic as the
    /// per-client check: past the idle expiry the counter starts over and
    /// the request is admitted; within the window the count must not
    /// exceed the limit.
    pub fn check(&mut self, now: i64) -> (admitted: bool)
        ensures
            final(self).rate() == old(self).rate(),
            final(self).reset_timeout() == old(self).reset_timeout(),
            if now - old(self).last_reset() > old(self).reset_timeout() {
                &&& admitted
                &&& final(self).count() == 0
                &&& final(self).last_reset() == now as int
            } else {
                &&& *final(self) == *old(self)
                &&& admitted == (!within_window(now - old(self).last_reset(), old(self).rate())
                    || old(self).count() <= old(self).rate().spec_limit())
            },
    {
        let diff = now.checked_sub(self.last_reset);
        let idle = match diff {
            Some(d) => d > self.reset_timeout_secs,
            // The true difference lies beyond i64: past any timeout
            // exactly when it is positive.
            None => now > self.last_reset,
        };
        if idle {
            self.reset(now);
            return true;
        }
        let unit = self.limit.unit_secs();
        let in_window = match diff {
            Some(d) => d < 2 * unit,
            None => now < self.last_reset,
        };
        if in_window && self.current_count > self.limit.limit() {
            return false;
        }
        true
    }
}

} // verus!
