use vstd::prelude::*;

use crate::token::ConnectError;
use crate::token::SubscriptionToken;

verus! {

/// What one poll of the adapter decides under the single-threaded
/// cooperative model.
#[derive(Debug, PartialEq)]
pub enum PollOutcome<T> {
    /// The oldest buffered item, removed from the buffer.
    Item(T),
    /// No item is buffered and none can ever arrive: the source object
    /// is gone, or the subscription was already torn down.
    Finished,
    /// No item is buffered but the subscription is still live: the
    /// caller should register interest with its scheduler and suspend.
    Suspend,
}

/// Mathematical model of one adapter: the items fired by the native
/// callback but not yet taken by the consumer, oldest first; the raw
/// identifier of the subscription token, present until teardown
/// consumes it; and the last known existence of the source object.
#[verifier::ext_equal]
pub struct StreamModel<T> {
    pub pending: Seq<T>,
    pub token: Option<u64>,
    pub source_alive: bool,
}

impl<T> StreamModel<T> {
    /// The subscription is still registered and the source object still
    /// exists, so the native callback may fire again.
    pub open spec fn active(self) -> bool {
        self.token is Some && self.source_alive
    }

    /// No further item can ever be delivered: either the source object
    /// is gone (the toolkit invalidated the callback itself) or the
    /// adapter's teardown has unregistered it.
    pub open spec fn producer_closed(self) -> bool {
        !self.active()
    }
}

/// One firing of the native callback: the produced item joins the end
/// of the buffer; nothing else changes.
pub open spec fn spec_deliver<T>(m: StreamModel<T>, item: T) -> StreamModel<T> {
    StreamModel { pending: m.pending.push(item), token: m.token, source_alive: m.source_alive }
}

/// What one poll returns: the oldest buffered item if any; otherwise
/// end-of-sequence when the producer is closed, else a suspension.
pub open spec fn spec_poll_outcome<T>(m: StreamModel<T>) -> PollOutcome<T> {
    if m.pending.len() > 0 {
        PollOutcome::Item(m.pending[0])
    } else if m.producer_closed() {
        PollOutcome::Finished
    } else {
        PollOutcome::Suspend
    }
}

/// The state after one poll: the oldest buffered item, if any, leaves
/// the buffer; a poll of an empty buffer changes nothing.
pub open spec fn spec_poll_state<T>(m: StreamModel<T>) -> StreamModel<T> {
    if m.pending.len() > 0 {
        StreamModel { pending: m.pending.drop_first(), token: m.token, source_alive: m.source_alive }
    } else {
        m
    }
}

/// The toolkit reports the source object destroyed: already-buffered
/// items remain for the consumer, but no further one can arrive.
pub open spec fn spec_source_destroyed<T>(m: StreamModel<T>) -> StreamModel<T> {
    StreamModel { pending: m.pending, token: m.token, source_alive: false }
}

/// The state after teardown: the token is consumed, whatever else held.
pub open spec fn spec_dispose_state<T>(m: StreamModel<T>) -> StreamModel<T> {
    StreamModel { pending: m.pending, token: None, source_alive: m.source_alive }
}

/// The unregistration teardown owes the toolkit: the held token,
/// exactly when the source object still exists to unregister from;
/// nothing when the object is gone or the token was already consumed.
pub open spec fn spec_dispose_unregister<T>(m: StreamModel<T>) -> Option<u64> {
    if m.source_alive {
        m.token
    } else {
        None
    }
}

/// The raw identifier under an optional token.
pub open spec fn token_view(t: Option<SubscriptionToken>) -> Option<u64> {
    match t {
        Some(tok) => Some(tok@),
        None => None,
    }
}

/// Pull-based view of one named event on one source object: a lazy,
/// ordered sequence of the items the registered native callback fires,
/// whose teardown unregisters that callback if the source object still
/// exists. The buffer is unbounded by design: a bursty producer grows
/// it without limit, which is a documented simplification.
///
/// Producer and consumer are assumed to share one cooperative thread
/// (the toolkit's event loop); the buffer is a same-thread hand-off,
/// not a synchronization primitive.
pub struct EvStream<T> {
    pending: Vec<T>,
    token: Option<SubscriptionToken>,
    source_alive: bool,
}

impl<T> View for EvStream<T> {
    type V = StreamModel<T>;

    closed spec fn view(&self) -> StreamModel<T> {
        StreamModel {
            pending: self.pending@,
            token: token_view(self.token),
            source_alive: self.source_alive,
        }
    }
}

impl<T> EvStream<T> {
    /// Wraps a just-registered subscription: an empty buffer, the token
    /// held for teardown, the source object known alive (registration
    /// just succeeded on it).
    pub fn new(token: SubscriptionToken) -> (s: Self)
        ensures
            s@.pending == Seq::<T>::empty(),
            s@.token == Some(token@),
            s@.source_alive,
    {
        EvStream { pending: Vec::new(), token: Some(token), source_alive: true }
    }

    /// One firing of the native callback: appends the item it produced.
    /// Callable only while the subscription is live — the toolkit never
    /// invokes an unregistered callback, and teardown unregisters
    /// before releasing the buffer, so a firing on a closed adapter is
    /// a programming error the caller must rule out.
    pub fn deliver(&mut self, item: T)
        requires
            old(self)@.active(),
        ensures
            final(self)@ == spec_deliver(old(self)@, item),
    {
        self.pending.push(item);
    }

    /// One firing under a caller-supplied argument-handling rule:
    /// `transform` turns the callback's raw arguments into the one item
    /// to retain (cloning, projecting or discarding as it sees fit),
    /// and that item joins the buffer.
    pub fn deliver_with<A, F: FnOnce(A) -> T>(&mut self, raw: A, transform: F)
        requires
            old(self)@.active(),
            call_requires(transform, (raw,)),
        ensures
            exists|item: T|
                call_ensures(transform, (raw,), item) && final(self)@ == spec_deliver(
                    old(self)@,
                    item,
                ),
    {
        let item = transform(raw);
        let ghost produced = item;
        self.pending.push(item);
        proof {
            assert(call_ensures(transform, (raw,), produced) && self@ == spec_deliver(
                old(self)@,
                produced,
            ));
        }
    }

    /// One consumer poll. Never blocks: it yields the oldest buffered
    /// item; or end-of-sequence once no item is buffered and none can
    /// arrive; or asks the caller to suspend until the producer acts.
    pub fn poll_item(&mut self) -> (r: PollOutcome<T>)
        ensures
            r == spec_poll_outcome(old(self)@),
            final(self)@ == spec_poll_state(old(self)@),
    {
        if self.pending.len() > 0 {
            let item = self.pending.remove(0);
            proof {
                assert(old(self)@.pending.remove(0) =~= old(self)@.pending.drop_first());
            }
            PollOutcome::Item(item)
        } else if self.token.is_some() && self.source_alive {
            PollOutcome::Suspend
        } else {
            PollOutcome::Finished
        }
    }

    /// The toolkit reports the source object destroyed. Buffered items
    /// stay for the consumer; the producer side is closed for good.
    pub fn notify_source_destroyed(&mut self)
        ensures
            final(self)@ == spec_source_destroyed(old(self)@),
    {
        self.source_alive = false;
    }

    /// Teardown. Consumes the token on first use, so a second call can
    /// never double-unregister, and returns it exactly when the source
    /// object still exists — the caller then owes the toolkit one
    /// unregistration with it. A missing source object is the expected,
    /// non-error case: nothing is returned and nothing need be done.
    pub fn dispose(&mut self) -> (r: Option<SubscriptionToken>)
        ensures
            final(self)@ == spec_dispose_state(old(self)@),
            token_view(r) == spec_dispose_unregister(old(self)@),
    {
        let taken = self.token.take();
        if self.source_alive {
            taken
        } else {
            None
        }
    }

    /// Whether the subscription token is still held, that is, teardown
    /// has not yet consumed it.
    pub fn is_registered(&self) -> (r: bool)
        ensures
            r == (self@.token is Some),
    {
        self.token.is_some()
    }

    /// Last known existence of the source object.
    pub fn is_source_alive(&self) -> (r: bool)
        ensures
            r == self@.source_alive,
    {
        self.source_alive
    }

    /// Whether the native callback may still fire into this adapter.
    pub fn is_active(&self) -> (r: bool)
        ensures
            r == self@.active(),
    {
        self.token.is_some() && self.source_alive
    }

    /// How many items are buffered, fired but not yet taken.
    pub fn pending_len(&self) -> (r: usize)
        ensures
            r == self@.pending.len(),
    {
        self.pending.len()
    }

    /// Bounds on how many more items the sequence will produce: at
    /// least every buffered item; no upper bound while the producer may
    /// still fire, exactly the buffered count once it cannot.
    pub fn size_hint(&self) -> (r: (usize, Option<usize>))
        ensures
            r.0 == self@.pending.len(),
            match r.1 {
                Some(upper) => self@.producer_closed() && upper == self@.pending.len(),
                None => !self@.producer_closed(),
            },
    {
        let lower = self.pending.len();
        if self.token.is_some() && self.source_alive {
            (lower, None)
        } else {
            (lower, Some(lower))
        }
    }
}

/// Subscription-construction helper: runs the caller's registration
/// strategy and, exactly when it succeeds, wraps the token it returned
/// in a fresh adapter. Registering and wrapping are one operation: on
/// failure no adapter exists and no subscription is left behind; on
/// success the returned adapter owns the live subscription. A failure
/// (say, a string-named registration on an unknown event) surfaces
/// here, at construction, as the strategy's own error.
pub fn connect<T, F: FnOnce() -> Result<SubscriptionToken, ConnectError>>(register: F) -> (r:
    Result<EvStream<T>, ConnectError>)
    requires
        call_requires(register, ()),
    ensures
        match r {
            Ok(s) => {
                &&& s@.pending == Seq::<T>::empty()
                &&& s@.source_alive
                &&& exists|t: SubscriptionToken|
                    call_ensures(register, (), Ok(t)) && s@.token == Some(t@)
            },
            Err(e) => call_ensures(register, (), Err(e)),
        },
{
    match register() {
        Ok(token) => Ok(EvStream::new(token)),
        Err(e) => Err(e),
    }
}

} // verus!
