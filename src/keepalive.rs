//! The keepalive contract of one connection: a ping every `interval`
//! milliseconds, and failure when its pong has not come `timeout`
//! milliseconds after it was sent.
use vstd::prelude::*;

verus! {

/// Sum of two times, held at the largest time on overflow.
pub open spec fn sat_add(a: u64, b: u64) -> u64 {
    if a + b > u64::MAX {
        u64::MAX
    } else {
        (a + b) as u64
    }
}

pub(crate) fn saturating_sum(a: u64, b: u64) -> (r: u64)
    ensures
        r == sat_add(a, b),
{
    if a > u64::MAX - b {
        u64::MAX
    } else {
        a + b
    }
}

/// Keepalive state, times in milliseconds.
#[derive(Copy, Clone, Debug, PartialEq, Eq, Structural)]
pub struct Keepalive {
    pub interval: u64,
    pub timeout: u64,
    /// When the next ping is due, while none is outstanding.
    pub next_ping_at: u64,
    /// Whether a ping waits for its pong.
    pub awaiting: bool,
    /// Correlation id of the outstanding ping.
    pub ping_id: u64,
    /// When the outstanding ping was sent.
    pub sent_at: u64,
    /// When the outstanding ping expires.
    pub deadline: u64,
}

/// What a timer tick asks of the session.
#[derive(Copy, Clone, Debug, PartialEq, Eq, Structural)]
pub enum Beat {
    /// Nothing is due.
    Wait,
    /// Send a ping with the id given to the tick.
    Ping,
    /// The outstanding ping has expired: the connection is dead.
    Expired,
}

impl Keepalive {
    /// The state just after the welcome frame, at `now`.
    pub open spec fn armed_at(interval: u64, timeout: u64, now: u64) -> Keepalive {
        Keepalive {
            interval,
            timeout,
            next_ping_at: sat_add(now, interval),
            awaiting: false,
            ping_id: 0,
            sent_at: 0,
            deadline: 0,
        }
    }

    /// The state and the request after a timer tick at `now`; `id` is the
    /// correlation id a ping sent now would carry.
    pub open spec fn after_tick(self, now: u64, id: u64) -> (Keepalive, Beat) {
        if self.awaiting {
            if now >= self.deadline {
                (self, Beat::Expired)
            } else {
                (self, Beat::Wait)
            }
        } else if now >= self.next_ping_at {
            (Keepalive { awaiting: true, ping_id: id, sent_at: now, deadline: sat_add(now, self.timeout), ..self }, Beat::Ping)
        } else {
            (self, Beat::Wait)
        }
    }

    /// The state after a pong with correlation id `id` at `now`: a pong that
    /// answers the outstanding ping in time schedules the next ping one
    /// interval after that ping was sent; any other pong changes nothing.
    pub open spec fn after_pong(self, id: u64, now: u64) -> Keepalive {
        if self.awaiting && id == self.ping_id && now < self.deadline {
            Keepalive { awaiting: false, next_ping_at: sat_add(self.sent_at, self.interval), ..self }
        } else {
            self
        }
    }

    /// When the timer must fire next.
    pub open spec fn wake_time(self) -> u64 {
        if self.awaiting {
            self.deadline
        } else {
            self.next_ping_at
        }
    }

    pub fn armed(interval: u64, timeout: u64, now: u64) -> (r: Keepalive)
        ensures
            r == Keepalive::armed_at(interval, timeout, now),
    {
        Keepalive {
            interval,
            timeout,
            next_ping_at: saturating_sum(now, interval),
            awaiting: false,
            ping_id: 0,
            sent_at: 0,
            deadline: 0,
        }
    }

    pub fn tick(&mut self, now: u64, id: u64) -> (r: Beat)
        ensures
            (*final(self), r) == old(self).after_tick(now, id),
    {
        if self.awaiting {
            if now >= self.deadline {
                Beat::Expired
            } else {
                Beat::Wait
            }
        } else if now >= self.next_ping_at {
            self.awaiting = true;
            self.ping_id = id;
            self.sent_at = now;
            self.deadline = saturating_sum(now, self.timeout);
            Beat::Ping
        } else {
            Beat::Wait
        }
    }

    pub fn pong(&mut self, id: u64, now: u64)
        ensures
            *final(self) == old(self).after_pong(id, now),
    {
        if self.awaiting && id == self.ping_id && now < self.deadline {
            self.awaiting = false;
            self.next_ping_at = saturating_sum(self.sent_at, self.interval);
        }
    }

    pub fn wake_at(&self) -> (r: u64)
        ensures
            r == self.wake_time(),
    {
        if self.awaiting {
            self.deadline
        } else {
            self.next_ping_at
        }
    }
}

/// The state after ticks at each of `times` in turn, with no pong between.
pub open spec fn ticked(k: Keepalive, times: Seq<u64>, id: u64) -> Keepalive
    decreases times.len(),
{
    if times.len() == 0 {
        k
    } else {
        ticked(k, times.drop_last(), id).after_tick(times.last(), id).0
    }
}

/// What holds of a keepalive armed at `t0` while no pong comes.
pub open spec fn unanswered(k: Keepalive, t0: u64) -> bool {
    &&& k.next_ping_at == t0 + k.interval
    &&& (k.awaiting ==> k.deadline >= t0 + k.interval + k.timeout)
}

proof fn lemma_ticked_unanswered(interval: u64, timeout: u64, t0: u64, times: Seq<u64>, id: u64)
    requires
        t0 + interval + timeout <= u64::MAX,
    ensures
        unanswered(ticked(Keepalive::armed_at(interval, timeout, t0), times, id), t0),
        ticked(Keepalive::armed_at(interval, timeout, t0), times, id).interval == interval,
        ticked(Keepalive::armed_at(interval, timeout, t0), times, id).timeout == timeout,
    decreases times.len(),
{
    if times.len() > 0 {
        lemma_ticked_unanswered(interval, timeout, t0, times.drop_last(), id);
    }
}

/// With ping interval I and timeout T, a connection whose pongs never come
/// fails no earlier than I + T after it became active, whatever the times of
/// the ticks; and a timer that fires when `wake_time` asks sends the ping
/// at I and fails the connection at exactly I + T.
pub proof fn lemma_keepalive_bounds(interval: u64, timeout: u64, t0: u64, times: Seq<u64>, id: u64)
    requires
        t0 + interval + timeout <= u64::MAX,
    ensures
        forall|j: int|
            0 <= j < times.len() && (#[trigger] ticked(Keepalive::armed_at(interval, timeout, t0), times.take(j), id)).after_tick(times[j], id).1 == Beat::Expired
            ==> times[j] >= t0 + interval + timeout,
        ({
            let k0 = Keepalive::armed_at(interval, timeout, t0);
            let (k1, b1) = k0.after_tick(k0.wake_time(), id);
            let (k2, b2) = k1.after_tick(k1.wake_time(), id);
            &&& k0.wake_time() == t0 + interval
            &&& b1 == Beat::Ping
            &&& k1.wake_time() == t0 + interval + timeout
            &&& b2 == Beat::Expired
        }),
{
    assert forall|j: int|
        0 <= j < times.len() && (#[trigger] ticked(Keepalive::armed_at(interval, timeout, t0), times.take(j), id)).after_tick(times[j], id).1 == Beat::Expired
        implies times[j] >= t0 + interval + timeout by {
        lemma_ticked_unanswered(interval, timeout, t0, times.take(j), id);
    }
}

} // verus!
