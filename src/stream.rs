//! The consumer side of a subscription: what comes out of the delivery queue,
//! and how a receiver turns it into events and an end that stays an end.
use vstd::prelude::*;

verus! {

/// What the session and the connection handlers put on the delivery queue.
pub enum SubscriptionMessage<T> {
    /// A liveness probe; receivers skip it.
    Ping,
    /// One decoded NOTIFY payload.
    Event(T),
}

/// What a receiver does with one message taken from the queue (`None`: the
/// queue is closed and empty).
pub enum Delivery<T> {
    /// Hand this event to the consumer.
    Deliver(T),
    /// Nothing for the consumer; take the next message.
    Skip,
    /// The stream has ended, for good.
    End,
}

/// The message that a connection hands to the queue once its body has been
/// decoded: the event, or nothing where decoding failed.
pub open spec fn message_for<T, E>(decoded: Result<T, E>) -> Option<SubscriptionMessage<T>> {
    match decoded {
        Ok(v) => Some(SubscriptionMessage::Event(v)),
        Err(_) => None,
    }
}

/// The message that a connection forwards once its body has been decoded. A
/// failed decode forwards nothing and affects nothing else.
pub fn forward_decoded<T, E>(decoded: Result<T, E>) -> (r: Option<SubscriptionMessage<T>>)
    ensures
        r == message_for(decoded),
{
    match decoded {
        Ok(v) => Some(SubscriptionMessage::Event(v)),
        Err(_) => None,
    }
}

/// What a receiver that has (`ended`) or has not yet ended does with `msg`,
/// and whether it has ended afterwards.
pub open spec fn receive_next<T>(ended: bool, msg: Option<SubscriptionMessage<T>>) -> (bool, Delivery<T>) {
    if ended {
        (true, Delivery::End)
    } else {
        match msg {
            None => (true, Delivery::End),
            Some(SubscriptionMessage::Ping) => (false, Delivery::Skip),
            Some(SubscriptionMessage::Event(v)) => (false, Delivery::Deliver(v)),
        }
    }
}

/// The receiving end's memory: whether the stream has ended.
pub struct ReceiveState {
    ended: bool,
}

impl View for ReceiveState {
    /// Whether the stream has ended.
    type V = bool;

    closed spec fn view(&self) -> bool {
        self.ended
    }
}

impl ReceiveState {
    /// A stream that has not ended.
    pub fn new() -> (r: ReceiveState)
        ensures
            !r@,
    {
        ReceiveState { ended: false }
    }

    /// Whether the stream has ended; once it has, no message is taken from
    /// the queue any more.
    pub fn is_ended(&self) -> (r: bool)
        ensures
            r == self@,
    {
        self.ended
    }

    /// Takes one message from the queue: events are handed on, pings are
    /// skipped, and a closed queue ends the stream for good.
    pub fn accept<T>(&mut self, msg: Option<SubscriptionMessage<T>>) -> (r: Delivery<T>)
        ensures
            (final(self)@, r) == receive_next(old(self)@, msg),
    {
        if self.ended {
            return Delivery::End;
        }
        match msg {
            None => {
                self.ended = true;
                Delivery::End
            },
            Some(SubscriptionMessage::Ping) => Delivery::Skip,
            Some(SubscriptionMessage::Event(v)) => Delivery::Deliver(v),
        }
    }
}

/// What a receiver starting from `ended` does with each of `msgs` in turn.
pub open spec fn deliveries<T>(ended: bool, msgs: Seq<Option<SubscriptionMessage<T>>>) -> Seq<Delivery<T>>
    decreases msgs.len(),
{
    if msgs.len() == 0 {
        Seq::empty()
    } else {
        let (e, d) = receive_next(ended, msgs[0]);
        seq![d] + deliveries(e, msgs.drop_first())
    }
}

/// Once a stream has ended, whatever the queue yields, every later receive
/// ends too.
pub proof fn lemma_end_is_terminal<T>(ended: bool, msgs: Seq<Option<SubscriptionMessage<T>>>, i: int, j: int)
    requires
        0 <= i < j < msgs.len(),
        deliveries(ended, msgs)[i] is End,
    ensures
        deliveries(ended, msgs)[j] is End,
    decreases msgs.len(),
{
    lemma_deliveries_len(ended, msgs);
    let (e, d) = receive_next(ended, msgs[0]);
    let rest = msgs.drop_first();
    lemma_deliveries_len(e, rest);
    if i == 0 {
        assert(e);
        lemma_all_end(rest, j - 1);
    } else {
        lemma_end_is_terminal(e, rest, i - 1, j - 1);
    }
}

proof fn lemma_deliveries_len<T>(ended: bool, msgs: Seq<Option<SubscriptionMessage<T>>>)
    ensures
        deliveries(ended, msgs).len() == msgs.len(),
    decreases msgs.len(),
{
    if msgs.len() > 0 {
        lemma_deliveries_len(receive_next(ended, msgs[0]).0, msgs.drop_first());
    }
}

proof fn lemma_all_end<T>(msgs: Seq<Option<SubscriptionMessage<T>>>, k: int)
    requires
        0 <= k < msgs.len(),
    ensures
        deliveries(true, msgs)[k] is End,
    decreases msgs.len(),
{
    lemma_deliveries_len(true, msgs.drop_first());
    if k > 0 {
        lemma_all_end(msgs.drop_first(), k - 1);
    }
}

/// The messages that connections forward, in the order in which their
/// bodies finished decoding.
pub open spec fn forwarded<T, E>(outcomes: Seq<Result<T, E>>) -> Seq<SubscriptionMessage<T>>
    decreases outcomes.len(),
{
    if outcomes.len() == 0 {
        Seq::empty()
    } else {
        match message_for(outcomes[0]) {
            Some(m) => seq![m] + forwarded(outcomes.drop_first()),
            None => forwarded(outcomes.drop_first()),
        }
    }
}

/// A connection whose body fails to decode keeps no other connection's
/// event from the queue: in whatever order the connections finish, every
/// event that decoded is forwarded.
pub proof fn lemma_decode_isolation<T, E>(outcomes: Seq<Result<T, E>>, n: int, m: int)
    requires
        0 <= n < outcomes.len(),
        0 <= m < outcomes.len(),
        outcomes[n] is Err,
        outcomes[m] is Ok,
    ensures
        forwarded(outcomes).contains(SubscriptionMessage::Event(outcomes[m]->Ok_0)),
    decreases outcomes.len(),
{
    lemma_forwarded_keeps(outcomes, m);
}

proof fn lemma_forwarded_keeps<T, E>(outcomes: Seq<Result<T, E>>, m: int)
    requires
        0 <= m < outcomes.len(),
        outcomes[m] is Ok,
    ensures
        forwarded(outcomes).contains(SubscriptionMessage::Event(outcomes[m]->Ok_0)),
    decreases outcomes.len(),
{
    let rest = outcomes.drop_first();
    let ev = SubscriptionMessage::Event(outcomes[m]->Ok_0);
    if m == 0 {
        let f = seq![ev] + forwarded(rest);
        assert(f[0] == ev);
    } else {
        lemma_forwarded_keeps(rest, m - 1);
        let k = choose|k: int| 0 <= k < forwarded(rest).len() && forwarded(rest)[k] == ev;
        match message_for(outcomes[0]) {
            Some(x) => {
                assert((seq![x] + forwarded(rest))[k + 1] == ev);
            },
            None => {},
        }
    }
}

} // verus!
