use vstd::prelude::*;

verus! {

/// Least time between the starts of two polls while media plays.
pub const ACTIVE_INTERVAL_MS: u64 = 500;

/// Time between polls while the player is paused.
pub const IDLE_INTERVAL_MS: u64 = 2000;

/// Time between reconnection attempts.
pub const RECONNECT_BACKOFF_MS: u64 = 1000;

/// Where the link to the player stands.
#[derive(Clone, Copy, Debug, PartialEq, Eq, Structural)]
pub enum LinkState {
    /// No connection has been made yet.
    Disconnected,
    /// Connected, and the player is playing.
    Active,
    /// Connected, and the player is paused.
    Idle,
    /// Reconnection attempt `n` is due.
    Reconnecting(u32),
    /// Reconnection attempt `n` connected; its first poll is due.
    Confirming(u32),
    /// Out of attempts: the loop ends.
    Failed,
}

/// What the outside world reports to the loop.
#[derive(Clone, Copy, Debug, PartialEq, Eq, Structural)]
pub enum Event {
    Connected,
    ConnectFailed,
    /// A poll succeeded; `now_ms` is a monotonic clock reading, in milliseconds.
    Polled { paused: bool, now_ms: u64 },
    PollFailed,
}

/// What the loop asks the outside world to do next.
#[derive(Clone, Copy, Debug, PartialEq, Eq, Structural)]
pub enum Action {
    Connect { after_ms: u64 },
    Poll { after_ms: u64 },
    Stop,
}

/// The state of the polling loop.
pub struct Poller {
    pub state: LinkState,
    pub max_attempts: u32,
    /// When the last poll of playing media was due to start.
    pub last_active_ms: u64,
}

pub open spec fn is_failure(ev: Event) -> bool {
    ev is ConnectFailed || ev is PollFailed
}

/// The action that a state awaits, where an event does not fit it.
pub open spec fn resume(st: LinkState) -> Action {
    match st {
        LinkState::Disconnected => Action::Connect { after_ms: 0 },
        LinkState::Reconnecting(_) => Action::Connect { after_ms: 0 },
        LinkState::Failed => Action::Stop,
        _ => Action::Poll { after_ms: 0 },
    }
}

/// After failure `n` of a reconnection: the next attempt, or the end.
pub open spec fn after_attempt(n: u32, max: u32) -> (LinkState, Action) {
    if n < max {
        (LinkState::Reconnecting((n + 1) as u32), Action::Connect { after_ms: RECONNECT_BACKOFF_MS })
    } else {
        (LinkState::Failed, Action::Stop)
    }
}

/// The wait before the next poll of playing media at `now`.
pub open spec fn active_wait(last: u64, now: u64) -> u64 {
    if now >= last && now - last < ACTIVE_INTERVAL_MS {
        (ACTIVE_INTERVAL_MS - (now - last)) as u64
    } else if now < last {
        ACTIVE_INTERVAL_MS
    } else {
        0
    }
}

pub open spec fn sat_add(a: u64, b: u64) -> u64 {
    if a + b > u64::MAX {
        u64::MAX
    } else {
        (a + b) as u64
    }
}

/// After a successful poll: the state, the time of the next active poll and
/// the action.
pub open spec fn after_poll(paused: bool, now: u64, last: u64) -> (LinkState, u64, Action) {
    if paused {
        (LinkState::Idle, last, Action::Poll { after_ms: IDLE_INTERVAL_MS })
    } else {
        let w = active_wait(last, now);
        (LinkState::Active, sat_add(now, w), Action::Poll { after_ms: w })
    }
}

/// One transition of the loop.
pub open spec fn next(st: LinkState, max: u32, last: u64, ev: Event) -> (LinkState, u64, Action) {
    match st {
        LinkState::Failed => (LinkState::Failed, last, Action::Stop),
        LinkState::Disconnected => match ev {
            Event::Connected => (LinkState::Active, last, Action::Poll { after_ms: 0 }),
            Event::ConnectFailed => (LinkState::Failed, last, Action::Stop),
            _ => (st, last, resume(st)),
        },
        LinkState::Active | LinkState::Idle => match ev {
            Event::Polled { paused, now_ms } => after_poll(paused, now_ms, last),
            Event::Connected => (st, last, resume(st)),
            _ => if max == 0 {
                (LinkState::Failed, last, Action::Stop)
            } else {
                (LinkState::Reconnecting(1), last, Action::Connect { after_ms: RECONNECT_BACKOFF_MS })
            },
        },
        LinkState::Reconnecting(n) => match ev {
            Event::Connected => (LinkState::Confirming(n), last, Action::Poll { after_ms: 0 }),
            Event::ConnectFailed => (after_attempt(n, max).0, last, after_attempt(n, max).1),
            _ => (st, last, resume(st)),
        },
        LinkState::Confirming(n) => match ev {
            Event::Polled { paused, now_ms } => after_poll(paused, now_ms, last),
            Event::Connected => (st, last, resume(st)),
            _ => (after_attempt(n, max).0, last, after_attempt(n, max).1),
        },
    }
}

fn active_wait_exec(last: u64, now: u64) -> (r: u64)
    ensures
        r == active_wait(last, now),
{
    if now >= last && now - last < ACTIVE_INTERVAL_MS {
        ACTIVE_INTERVAL_MS - (now - last)
    } else if now < last {
        ACTIVE_INTERVAL_MS
    } else {
        0
    }
}

impl Poller {
    /// A loop that has not connected yet.
    pub fn new(max_attempts: u32) -> (r: Poller)
        ensures
            r.state == LinkState::Disconnected,
            r.max_attempts == max_attempts,
            r.last_active_ms == 0,
    {
        Poller { state: LinkState::Disconnected, max_attempts, last_active_ms: 0 }
    }

    fn polled(&mut self, paused: bool, now: u64) -> (r: Action)
        ensures
            (final(self).state, final(self).last_active_ms, r) == after_poll(
                paused,
                now,
                old(self).last_active_ms,
            ),
            final(self).max_attempts == old(self).max_attempts,
    {
        if paused {
            self.state = LinkState::Idle;
            Action::Poll { after_ms: IDLE_INTERVAL_MS }
        } else {
            let w = active_wait_exec(self.last_active_ms, now);
            self.state = LinkState::Active;
            self.last_active_ms = now.saturating_add(w);
            Action::Poll { after_ms: w }
        }
    }

    fn attempt_failed(&mut self, n: u32) -> (r: Action)
        ensures
            (final(self).state, r) == after_attempt(n, old(self).max_attempts),
            final(self).max_attempts == old(self).max_attempts,
            final(self).last_active_ms == old(self).last_active_ms,
    {
        if n < self.max_attempts {
            self.state = LinkState::Reconnecting(n + 1);
            Action::Connect { after_ms: RECONNECT_BACKOFF_MS }
        } else {
            self.state = LinkState::Failed;
            Action::Stop
        }
    }

    /// Takes one event and says what to do next.
    pub fn step(&mut self, ev: Event) -> (r: Action)
        ensures
            (final(self).state, final(self).last_active_ms, r) == next(
                old(self).state,
                old(self).max_attempts,
                old(self).last_active_ms,
                ev,
            ),
            final(self).max_attempts == old(self).max_attempts,
    {
        match self.state {
            LinkState::Failed => Action::Stop,
            LinkState::Disconnected => match ev {
                Event::Connected => {
                    self.state = LinkState::Active;
                    Action::Poll { after_ms: 0 }
                },
                Event::ConnectFailed => {
                    self.state = LinkState::Failed;
                    Action::Stop
                },
                _ => Action::Connect { after_ms: 0 },
            },
            LinkState::Active | LinkState::Idle => match ev {
                Event::Polled { paused, now_ms } => self.polled(paused, now_ms),
                Event::Connected => Action::Poll { after_ms: 0 },
                _ => if self.max_attempts == 0 {
                    self.state = LinkState::Failed;
                    Action::Stop
                } else {
                    self.state = LinkState::Reconnecting(1);
                    Action::Connect { after_ms: RECONNECT_BACKOFF_MS }
                },
            },
            LinkState::Reconnecting(n) => match ev {
                Event::Connected => {
                    self.state = LinkState::Confirming(n);
                    Action::Poll { after_ms: 0 }
                },
                Event::ConnectFailed => self.attempt_failed(n),
                _ => Action::Connect { after_ms: 0 },
            },
            LinkState::Confirming(n) => match ev {
                Event::Polled { paused, now_ms } => self.polled(paused, now_ms),
                Event::Connected => Action::Poll { after_ms: 0 },
                _ => self.attempt_failed(n),
            },
        }
    }

    /// Whether the loop has ended.
    pub fn is_failed(&self) -> (r: bool)
        ensures
            r == (self.state == LinkState::Failed),
    {
        self.state == LinkState::Failed
    }
}

/// The state after `k` failed connection attempts in a row from `st`.
pub open spec fn after_failures(st: LinkState, max: u32, last: u64, k: nat) -> LinkState
    decreases k,
{
    if k == 0 {
        st
    } else {
        next(after_failures(st, max, last, (k - 1) as nat), max, last, Event::ConnectFailed).0
    }
}

proof fn lemma_failures_count(max: u32, last: u64, k: nat)
    requires
        k < max,
    ensures
        after_failures(LinkState::Reconnecting(1), max, last, k) == LinkState::Reconnecting(
            (k + 1) as u32,
        ),
    decreases k,
{
    if k > 0 {
        lemma_failures_count(max, last, (k - 1) as nat);
    }
}

/// Once reconnection has begun, each failed attempt before the last leads to
/// another attempt, and exactly `max` failed attempts in a row end the loop.
pub proof fn lemma_reconnect_budget(max: u32, last: u64, k: nat)
    requires
        1 <= k <= max,
    ensures
        k < max ==> after_failures(LinkState::Reconnecting(1), max, last, k)
            == LinkState::Reconnecting((k + 1) as u32),
        k < max ==> next(
            after_failures(LinkState::Reconnecting(1), max, last, (k - 1) as nat),
            max,
            last,
            Event::ConnectFailed,
        ).2 == (Action::Connect { after_ms: RECONNECT_BACKOFF_MS }),
        k == max ==> after_failures(LinkState::Reconnecting(1), max, last, k) == LinkState::Failed,
        k == max ==> next(
            after_failures(LinkState::Reconnecting(1), max, last, (k - 1) as nat),
            max,
            last,
            Event::ConnectFailed,
        ).2 == Action::Stop,
{
    lemma_failures_count(max, last, (k - 1) as nat);
    if k < max {
        lemma_failures_count(max, last, k);
    }
}

/// An ended loop stays ended and makes no further attempt, whatever happens.
pub proof fn lemma_failed_is_final(max: u32, last: u64, ev: Event)
    ensures
        next(LinkState::Failed, max, last, ev).0 == LinkState::Failed,
        next(LinkState::Failed, max, last, ev).1 == last,
        next(LinkState::Failed, max, last, ev).2 == Action::Stop,
{
}

} // verus!
