//! The lock lifecycle and its deadline policy.
//!
//! Time is a number of milliseconds since a start that the caller picks; it
//! never runs backwards.

use vstd::prelude::*;

verus! {

/// Time, in milliseconds, between the `locked` event and the automatic unlock.
pub const AUTO_UNLOCK_WINDOW_MS: u64 = 5000;

/// Longest sleep, in milliseconds, of an event-loop turn that dispatched nothing.
pub const POLL_QUANTUM_MS: u64 = 16;

/// Where the lock request stands.
#[derive(Clone, Copy, PartialEq, Eq, Structural, Debug)]
pub enum LockState {
    /// No lock has been requested yet.
    Idle,
    /// The request is sent; neither `locked` nor `finished` has arrived.
    Waiting,
    /// `locked` has arrived: the lock surfaces are what the user sees.
    Locked,
    /// `finished` has arrived: the lock was denied or is over.
    Finished,
}

impl LockState {
    /// Position of the state in the lifecycle; no operation ever lowers it.
    pub open spec fn rank(self) -> nat {
        match self {
            LockState::Idle => 0,
            LockState::Waiting => 1,
            LockState::Locked => 2,
            LockState::Finished => 3,
        }
    }
}

impl Default for LockState {
    fn default() -> (state: Self)
        ensures
            state == LockState::Idle,
    {
        LockState::Idle
    }
}

/// What can happen to a lock session.
#[derive(Clone, Copy, PartialEq, Eq, Structural, Debug)]
pub enum SessionEvent {
    /// The client sends the lock request.
    RequestLock,
    /// The compositor reports `locked` at time `now`.
    Locked { now: u64 },
    /// The compositor reports `finished`.
    Finished,
    /// The event loop evaluates the deadline at time `now`.
    Tick { now: u64 },
}

/// What the event loop does at the end of a turn.
#[derive(Clone, Copy, PartialEq, Eq, Structural, Debug)]
pub enum LoopStep {
    /// The session is over: leave the loop.
    Exit,
    /// The loop ran before any lock request was sent.
    IdleInLoop,
    /// Go on: send `unlock_and_destroy` first if `unlock` is set, then sleep
    /// for `sleep_ms` milliseconds.
    Continue { unlock: bool, sleep_ms: u64 },
}

/// The lock request lifecycle, the automatic-unlock deadline and the flag
/// that keeps the unlock from being sent twice.
#[derive(Clone, Copy, PartialEq, Eq, Structural, Debug)]
pub struct LockSession {
    pub state: LockState,
    pub auto_unlock_deadline: Option<u64>,
    pub auto_unlock_sent: bool,
}

impl LockSession {
    /// Whether a deadline evaluation at `now` sends the automatic unlock.
    pub open spec fn unlock_due(self, now: u64) -> bool {
        &&& self.state == LockState::Locked
        &&& !self.auto_unlock_sent
        &&& self.auto_unlock_deadline matches Some(deadline)
        &&& now >= deadline
    }

    /// The session after `event`.
    pub open spec fn after(self, event: SessionEvent) -> LockSession {
        match event {
            SessionEvent::RequestLock => if self.state == LockState::Idle {
                LockSession { state: LockState::Waiting, ..self }
            } else {
                self
            },
            SessionEvent::Locked { now } => if self.state == LockState::Waiting {
                LockSession {
                    state: LockState::Locked,
                    auto_unlock_deadline: Some((now + AUTO_UNLOCK_WINDOW_MS) as u64),
                    ..self
                }
            } else {
                self
            },
            SessionEvent::Finished => LockSession { state: LockState::Finished, ..self },
            SessionEvent::Tick { now } => if self.unlock_due(now) {
                LockSession { auto_unlock_sent: true, ..self }
            } else {
                self
            },
        }
    }

    /// Whether `event` makes the client send `unlock_and_destroy`.
    pub open spec fn unlocks(self, event: SessionEvent) -> bool {
        event matches SessionEvent::Tick { now } && self.unlock_due(now)
    }

    /// The session after every event of `events`, in order.
    pub open spec fn after_all(self, events: Seq<SessionEvent>) -> LockSession
        decreases events.len(),
    {
        if events.len() == 0 {
            self
        } else {
            self.after(events[0]).after_all(events.subrange(1, events.len() as int))
        }
    }

    /// How many times `unlock_and_destroy` is sent while `events` happen.
    pub open spec fn unlocks_sent(self, events: Seq<SessionEvent>) -> nat
        decreases events.len(),
    {
        if events.len() == 0 {
            0
        } else {
            let first: nat = if self.unlocks(events[0]) { 1 } else { 0 };
            first + self.after(events[0]).unlocks_sent(events.subrange(1, events.len() as int))
        }
    }

    /// How long a turn that dispatched `dispatched` messages sleeps at `now`.
    pub open spec fn sleep_at(self, now: u64, dispatched: usize) -> u64 {
        if dispatched != 0 {
            0
        } else {
            match self.auto_unlock_deadline {
                Some(deadline) => if deadline > now {
                    if deadline - now < POLL_QUANTUM_MS {
                        (deadline - now) as u64
                    } else {
                        POLL_QUANTUM_MS
                    }
                } else {
                    0
                },
                None => POLL_QUANTUM_MS,
            }
        }
    }

    /// What the event loop does at the end of a turn at `now`.
    pub open spec fn step_at(self, now: u64, dispatched: usize) -> LoopStep {
        match self.state {
            LockState::Finished => LoopStep::Exit,
            LockState::Idle => LoopStep::IdleInLoop,
            LockState::Waiting => LoopStep::Continue {
                unlock: false,
                sleep_ms: self.sleep_at(now, dispatched),
            },
            LockState::Locked => if self.auto_unlock_sent {
                LoopStep::Continue { unlock: false, sleep_ms: 0 }
            } else {
                LoopStep::Continue {
                    unlock: self.unlock_due(now),
                    sleep_ms: self.sleep_at(now, dispatched),
                }
            },
        }
    }

    /// A session in which nothing has been requested.
    pub fn new() -> (session: Self)
        ensures
            session.state == LockState::Idle,
            session.auto_unlock_deadline.is_none(),
            !session.auto_unlock_sent,
    {
        LockSession { state: LockState::Idle, auto_unlock_deadline: None, auto_unlock_sent: false }
    }

    /// Records that the lock request was sent. Only an idle session can
    /// request the lock; the result says whether the request is to be sent.
    pub fn request_lock(&mut self) -> (sent: bool)
        ensures
            sent == (old(self).state == LockState::Idle),
            *final(self) == old(self).after(SessionEvent::RequestLock),
    {
        if self.state == LockState::Idle {
            self.state = LockState::Waiting;
            true
        } else {
            false
        }
    }

    /// Handles `locked`: a waiting session becomes locked and the automatic
    /// unlock is armed for `now` plus the window. In any other state the
    /// event changes nothing. The result says whether the session changed.
    pub fn on_locked(&mut self, now: u64) -> (changed: bool)
        requires
            old(self).state == LockState::Waiting ==> now + AUTO_UNLOCK_WINDOW_MS <= u64::MAX,
        ensures
            changed == (old(self).state == LockState::Waiting),
            *final(self) == old(self).after(SessionEvent::Locked { now }),
            changed ==> final(self).auto_unlock_deadline == Some((now + 5000) as u64),
    {
        if self.state == LockState::Waiting {
            self.state = LockState::Locked;
            self.auto_unlock_deadline = Some(now + AUTO_UNLOCK_WINDOW_MS);
            true
        } else {
            false
        }
    }

    /// Handles `finished`: the session is over, whatever it was doing.
    pub fn on_finished(&mut self)
        ensures
            *final(self) == old(self).after(SessionEvent::Finished),
            final(self).state == LockState::Finished,
    {
        self.state = LockState::Finished;
    }

    /// Evaluates the deadline at `now`. Returns `true` when the caller has to
    /// send `unlock_and_destroy`: the session is locked, the deadline has
    /// passed and the unlock was not sent before. The state is left alone:
    /// the compositor's `finished` ends the session.
    pub fn maybe_auto_unlock(&mut self, now: u64) -> (unlock: bool)
        ensures
            unlock == old(self).unlock_due(now),
            *final(self) == old(self).after(SessionEvent::Tick { now }),
            final(self).state == old(self).state,
            unlock ==> final(self).auto_unlock_sent,
    {
        if self.state != LockState::Locked || self.auto_unlock_sent {
            return false;
        }
        match self.auto_unlock_deadline {
            Some(deadline) => {
                if now >= deadline {
                    self.auto_unlock_sent = true;
                    true
                } else {
                    false
                }
            },
            None => false,
        }
    }

    /// How long the event loop sleeps at the end of a turn: nothing after a
    /// turn that dispatched messages, else one poll quantum, cut short so
    /// that the sleep does not run past the deadline.
    pub fn sleep_for(&self, now: u64, dispatched: usize) -> (ms: u64)
        ensures
            ms == self.sleep_at(now, dispatched),
            ms <= POLL_QUANTUM_MS,
            self.auto_unlock_deadline matches Some(deadline) ==> now + ms <= deadline || ms == 0,
    {
        if dispatched != 0 {
            return 0;
        }
        match self.auto_unlock_deadline {
            Some(deadline) => {
                if deadline > now {
                    let left: u64 = deadline - now;
                    if left < POLL_QUANTUM_MS {
                        left
                    } else {
                        POLL_QUANTUM_MS
                    }
                } else {
                    0
                }
            },
            None => POLL_QUANTUM_MS,
        }
    }

    /// Ends a turn of the event loop at `now`, after `dispatched` messages
    /// were handled: decides whether the loop ends, whether the automatic
    /// unlock is sent, and how long to sleep.
    pub fn poll(&mut self, now: u64, dispatched: usize) -> (step: LoopStep)
        ensures
            step == old(self).step_at(now, dispatched),
            *final(self) == old(self).after(SessionEvent::Tick { now }),
    {
        match self.state {
            LockState::Finished => LoopStep::Exit,
            LockState::Idle => LoopStep::IdleInLoop,
            LockState::Waiting => LoopStep::Continue {
                unlock: false,
                sleep_ms: self.sleep_for(now, dispatched),
            },
            LockState::Locked => {
                if self.auto_unlock_sent {
                    LoopStep::Continue { unlock: false, sleep_ms: 0 }
                } else {
                    let unlock = self.maybe_auto_unlock(now);
                    LoopStep::Continue { unlock, sleep_ms: self.sleep_for(now, dispatched) }
                }
            },
        }
    }
}

/// The lifecycle has three arrows and each belongs to one event: idle to
/// waiting by the lock request, waiting to locked by `locked`, and anything
/// to finished by `finished`. Every other pairing leaves the state as it is,
/// nothing leaves `Finished`, and no event moves the state backwards.
pub proof fn law_transitions(session: LockSession, event: SessionEvent)
    ensures
        ({
            let before = session.state;
            let after = session.after(event).state;
            ||| after == before
            ||| before == LockState::Idle && after == LockState::Waiting && event
                == SessionEvent::RequestLock
            ||| before == LockState::Waiting && after == LockState::Locked
                && event is Locked
            ||| before != LockState::Finished && after == LockState::Finished && event
                == SessionEvent::Finished
        }),
        session.state == LockState::Finished ==> session.after(event).state == LockState::Finished,
        session.state.rank() <= session.after(event).state.rank(),
{
}

/// Over any run of events the state never moves backwards, and a finished
/// session stays finished.
pub proof fn law_one_direction(session: LockSession, events: Seq<SessionEvent>)
    ensures
        session.state.rank() <= session.after_all(events).state.rank(),
        session.state == LockState::Finished ==> session.after_all(events).state
            == LockState::Finished,
    decreases events.len(),
{
    if events.len() > 0 {
        law_transitions(session, events[0]);
        law_one_direction(session.after(events[0]), events.subrange(1, events.len() as int));
    }
}

/// The automatic unlock goes out only from a deadline evaluation, only while
/// the session is locked, only once the deadline has passed, and only if it
/// did not go out before; the evaluation that sends it sets the guard and
/// leaves the state alone.
pub proof fn law_unlock_conditions(session: LockSession, event: SessionEvent)
    ensures
        session.unlocks(event) ==> {
            &&& event matches SessionEvent::Tick { now }
            &&& session.state == LockState::Locked
            &&& !session.auto_unlock_sent
            &&& session.auto_unlock_deadline matches Some(deadline)
            &&& deadline <= now
            &&& session.after(event).auto_unlock_sent
            &&& session.after(event).state == LockState::Locked
        },
        session.auto_unlock_sent ==> session.after(event).auto_unlock_sent,
{
}

/// Over any run of events the automatic unlock is sent at most once, and
/// never again once the guard is set.
pub proof fn law_unlock_at_most_once(session: LockSession, events: Seq<SessionEvent>)
    ensures
        session.unlocks_sent(events) <= 1,
        session.auto_unlock_sent ==> session.unlocks_sent(events) == 0,
    decreases events.len(),
{
    if events.len() > 0 {
        law_unlock_conditions(session, events[0]);
        law_unlock_at_most_once(session.after(events[0]), events.subrange(1, events.len() as int));
    }
}

/// A session locked at `locked_at` sends nothing before the window is over,
/// and sends the unlock at the first evaluation from then on.
pub proof fn law_deadline(locked_at: u64, now: u64)
    requires
        locked_at + AUTO_UNLOCK_WINDOW_MS <= u64::MAX,
    ensures
        ({
            let waiting = LockSession {
                state: LockState::Waiting,
                auto_unlock_deadline: None,
                auto_unlock_sent: false,
            };
            let locked = waiting.after(SessionEvent::Locked { now: locked_at });
            &&& locked.state == LockState::Locked
            &&& locked.unlocks(SessionEvent::Tick { now }) == (now >= locked_at + 5000)
        }),
{
}

} // verus!
