//! The subscription session: the lease clock and the state machine that
//! decides, event by event, when to serve a callback connection, when to
//! renew the lease, and when to give up.
use vstd::prelude::*;

verus! {

/// The settings of a subscription.
#[derive(Clone, Copy, Debug)]
pub struct SubscriptionConfig {
    /// The lease asked of the device, in seconds.
    pub lease_seconds: u32,
    /// How long before the lease runs out the renewal is sent, in seconds.
    pub renewal_margin_seconds: u32,
    /// How many messages the delivery queue holds.
    pub callback_queue_capacity: usize,
}

/// Milliseconds from one successful (re)subscription to the next renewal:
/// the lease less the margin, or nothing where the margin eats the lease.
pub open spec fn renewal_interval_ms(config: SubscriptionConfig) -> nat {
    if config.renewal_margin_seconds < config.lease_seconds {
        ((config.lease_seconds - config.renewal_margin_seconds) * 1000) as nat
    } else {
        0
    }
}

/// The renewal deadline for a (re)subscription that succeeded at `now_ms`,
/// held at the largest instant that a `u64` counts.
pub open spec fn deadline_after(now_ms: u64, interval_ms: nat) -> u64 {
    if now_ms + interval_ms <= u64::MAX {
        (now_ms + interval_ms) as u64
    } else {
        u64::MAX
    }
}

impl SubscriptionConfig {
    /// A lease of sixty seconds, renewed ten seconds before it runs out, and a
    /// queue of sixteen messages.
    pub fn new() -> (r: SubscriptionConfig)
        ensures
            r.lease_seconds == 60,
            r.renewal_margin_seconds == 10,
            r.callback_queue_capacity == 16,
    {
        SubscriptionConfig { lease_seconds: 60, renewal_margin_seconds: 10, callback_queue_capacity: 16 }
    }

    /// Milliseconds from a successful (re)subscription to the next renewal.
    pub fn renewal_interval(&self) -> (r: u64)
        ensures
            r == renewal_interval_ms(*self),
    {
        if self.renewal_margin_seconds < self.lease_seconds {
            (self.lease_seconds - self.renewal_margin_seconds) as u64 * 1000
        } else {
            0
        }
    }

    /// The renewal deadline for a (re)subscription that succeeded at `now_ms`.
    pub fn deadline_from(&self, now_ms: u64) -> (r: u64)
        ensures
            r == deadline_after(now_ms, renewal_interval_ms(*self)),
    {
        let interval = self.renewal_interval();
        if now_ms <= u64::MAX - interval {
            now_ms + interval
        } else {
            u64::MAX
        }
    }
}

/// Whether an HTTP status is a success (2xx).
pub open spec fn is_success(status: u16) -> bool {
    200 <= status && status <= 299
}

/// Whether an HTTP status is a success (2xx).
pub fn status_is_success(status: u16) -> (r: bool)
    ensures
        r == is_success(status),
{
    200 <= status && status <= 299
}

/// Where a session stands.
#[derive(Clone, Copy, Debug, PartialEq, Eq, Structural)]
pub enum SessionPhase {
    /// Serving callbacks and waiting for the renewal deadline.
    Active,
    /// A renewal request is out.
    Renewing,
    /// The consumer is gone; the cancellation request is out.
    Cancelling,
    /// The session is over.
    Terminated,
}

/// What came of offering a ping to the delivery queue.
#[derive(Clone, Copy, Debug, PartialEq, Eq, Structural)]
pub enum QueueProbe {
    /// The queue took it.
    Sent,
    /// The queue is full: events are backed up, but the consumer is there.
    Full,
    /// The consumer has dropped its end.
    Closed,
}

/// What happened to a session.
#[derive(Clone, Copy, Debug, PartialEq, Eq, Structural)]
pub enum SessionEvent {
    /// The listener accepted a callback connection.
    Accepted,
    /// The listener failed to accept.
    AcceptFailed,
    /// The renewal timer fired at `now_ms`, and the queue answered a ping.
    TimerFired { now_ms: u64, probe: QueueProbe },
    /// The outstanding request was answered at `now_ms` with `status`, or
    /// failed without an answer (`None`).
    Response { now_ms: u64, status: Option<u16> },
}

/// What the session asks its driver to do next.
#[derive(Clone, Copy, Debug, PartialEq, Eq, Structural)]
pub enum SessionAction {
    /// Hand the accepted connection to a NOTIFY handler and keep going.
    Serve,
    /// Keep accepting until this instant, then fire the timer.
    WaitUntil(u64),
    /// Send the renewal request.
    Renew,
    /// Send the cancellation request.
    Unsubscribe,
    /// Keep waiting for the answer to the outstanding request.
    AwaitResponse,
    /// Close the listener and end the session.
    Stop,
}

/// The phase, the deadline and the action that follow `event` in a session
/// at `phase` with renewal deadline `deadline`, whose renewals come
/// `interval_ms` after each success.
pub open spec fn session_next(phase: SessionPhase, deadline: u64, interval_ms: nat, event: SessionEvent) -> (
    SessionPhase,
    u64,
    SessionAction,
) {
    match phase {
        SessionPhase::Terminated => (SessionPhase::Terminated, deadline, SessionAction::Stop),
        _ => match event {
            SessionEvent::Accepted => (phase, deadline, SessionAction::Serve),
            SessionEvent::AcceptFailed => (SessionPhase::Terminated, deadline, SessionAction::Stop),
            SessionEvent::TimerFired { now_ms, probe } => match phase {
                SessionPhase::Active => if now_ms < deadline {
                    (SessionPhase::Active, deadline, SessionAction::WaitUntil(deadline))
                } else if probe == QueueProbe::Closed {
                    (SessionPhase::Cancelling, deadline, SessionAction::Unsubscribe)
                } else {
                    (SessionPhase::Renewing, deadline, SessionAction::Renew)
                },
                _ => (phase, deadline, SessionAction::AwaitResponse),
            },
            SessionEvent::Response { now_ms, status } => match phase {
                SessionPhase::Renewing => match status {
                    Some(s) if is_success(s) => {
                        let d = deadline_after(now_ms, interval_ms);
                        (SessionPhase::Active, d, SessionAction::WaitUntil(d))
                    },
                    _ => (SessionPhase::Terminated, deadline, SessionAction::Stop),
                },
                SessionPhase::Cancelling => (SessionPhase::Terminated, deadline, SessionAction::Stop),
                _ => (phase, deadline, SessionAction::WaitUntil(deadline)),
            },
        },
    }
}

/// One live subscription, as its background task sees it.
pub struct Session {
    /// The subscription identifier that the device issued.
    pub sid: String,
    pub config: SubscriptionConfig,
    pub phase: SessionPhase,
    /// When the lease is next renewed, in milliseconds of the driver's clock.
    pub deadline_ms: u64,
}

impl Session {
    /// A session whose subscription succeeded at `now_ms` with identifier
    /// `sid`: active, with its first renewal one interval later.
    pub fn start(sid: String, config: SubscriptionConfig, now_ms: u64) -> (r: Session)
        ensures
            r.sid == sid,
            r.config == config,
            r.phase == SessionPhase::Active,
            r.deadline_ms == deadline_after(now_ms, renewal_interval_ms(config)),
    {
        let deadline_ms = config.deadline_from(now_ms);
        Session { sid, config, phase: SessionPhase::Active, deadline_ms }
    }

    /// Applies `event` and says what to do next.
    pub fn step(&mut self, event: SessionEvent) -> (r: SessionAction)
        ensures
            final(self).sid == old(self).sid,
            final(self).config == old(self).config,
            (final(self).phase, final(self).deadline_ms, r) == session_next(
                old(self).phase,
                old(self).deadline_ms,
                renewal_interval_ms(old(self).config),
                event,
            ),
    {
        match self.phase {
            SessionPhase::Terminated => {
                return SessionAction::Stop;
            },
            _ => {},
        }
        match event {
            SessionEvent::Accepted => SessionAction::Serve,
            SessionEvent::AcceptFailed => {
                self.phase = SessionPhase::Terminated;
                SessionAction::Stop
            },
            SessionEvent::TimerFired { now_ms, probe } => match self.phase {
                SessionPhase::Active => {
                    if now_ms < self.deadline_ms {
                        SessionAction::WaitUntil(self.deadline_ms)
                    } else if probe == QueueProbe::Closed {
                        self.phase = SessionPhase::Cancelling;
                        SessionAction::Unsubscribe
                    } else {
                        self.phase = SessionPhase::Renewing;
                        SessionAction::Renew
                    }
                },
                _ => SessionAction::AwaitResponse,
            },
            SessionEvent::Response { now_ms, status } => match self.phase {
                SessionPhase::Renewing => {
                    let renewed = match status {
                        Some(s) => status_is_success(s),
                        None => false,
                    };
                    if renewed {
                        self.deadline_ms = self.config.deadline_from(now_ms);
                        self.phase = SessionPhase::Active;
                        SessionAction::WaitUntil(self.deadline_ms)
                    } else {
                        self.phase = SessionPhase::Terminated;
                        SessionAction::Stop
                    }
                },
                SessionPhase::Cancelling => {
                    self.phase = SessionPhase::Terminated;
                    SessionAction::Stop
                },
                _ => SessionAction::WaitUntil(self.deadline_ms),
            },
        }
    }
}

/// With a sixty-second lease renewed ten seconds early, a successful
/// (re)subscription at `t` sets the next renewal fifty seconds later: a
/// timer that fires before then sends nothing, and one that fires at or after
/// it sends the renewal, unless the consumer is gone.
pub proof fn lemma_renewal_timing(
    config: SubscriptionConfig,
    t: u64,
    status: u16,
    earlier: u64,
    now: u64,
    probe: QueueProbe,
)
    requires
        config.lease_seconds == 60,
        config.renewal_margin_seconds == 10,
        t + 50_000 <= u64::MAX,
        is_success(status),
    ensures
        deadline_after(t, renewal_interval_ms(config)) == t + 50_000,
        session_next(
            SessionPhase::Renewing,
            earlier,
            renewal_interval_ms(config),
            SessionEvent::Response { now_ms: t, status: Some(status) },
        ) == (SessionPhase::Active, (t + 50_000) as u64, SessionAction::WaitUntil((t + 50_000) as u64)),
        now < t + 50_000 ==> session_next(
            SessionPhase::Active,
            (t + 50_000) as u64,
            renewal_interval_ms(config),
            SessionEvent::TimerFired { now_ms: now, probe },
        ) == (SessionPhase::Active, (t + 50_000) as u64, SessionAction::WaitUntil((t + 50_000) as u64)),
        now >= t + 50_000 && probe != QueueProbe::Closed ==> session_next(
            SessionPhase::Active,
            (t + 50_000) as u64,
            renewal_interval_ms(config),
            SessionEvent::TimerFired { now_ms: now, probe },
        ).2 == SessionAction::Renew,
{
}

/// A lease granted at `t` is renewed strictly before the device lets it
/// expire, whenever the margin is positive and shorter than the lease: the
/// deadline falls the margin ahead of the expiry.
pub proof fn lemma_deadline_before_expiry(config: SubscriptionConfig, t: u64)
    requires
        0 < config.renewal_margin_seconds < config.lease_seconds,
        t + config.lease_seconds * 1000 <= u64::MAX,
    ensures
        deadline_after(t, renewal_interval_ms(config)) + config.renewal_margin_seconds * 1000 == t
            + config.lease_seconds * 1000,
        deadline_after(t, renewal_interval_ms(config)) < t + config.lease_seconds * 1000,
{
}

/// Once the consumer has closed its end of the queue, the next renewal check
/// sends the cancellation instead of a renewal; from then on no renewal is
/// sent, and whatever answer comes back ends the session.
pub proof fn lemma_disinterest_shutdown(
    deadline: u64,
    interval_ms: nat,
    now: u64,
    later: SessionEvent,
    answer_at: u64,
    answer: Option<u16>,
)
    requires
        now >= deadline,
    ensures
        session_next(
            SessionPhase::Active,
            deadline,
            interval_ms,
            SessionEvent::TimerFired { now_ms: now, probe: QueueProbe::Closed },
        ) == (SessionPhase::Cancelling, deadline, SessionAction::Unsubscribe),
        session_next(SessionPhase::Cancelling, deadline, interval_ms, later).2 != SessionAction::Renew,
        session_next(
            SessionPhase::Cancelling,
            deadline,
            interval_ms,
            SessionEvent::Response { now_ms: answer_at, status: answer },
        ) == (SessionPhase::Terminated, deadline, SessionAction::Stop),
        session_next(SessionPhase::Terminated, deadline, interval_ms, later) == (
            SessionPhase::Terminated,
            deadline,
            SessionAction::Stop,
        ),
{
}

} // verus!
