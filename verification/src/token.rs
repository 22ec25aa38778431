use vstd::prelude::*;

verus! {

/// Opaque handle, handed out by the toolkit's object system, that
/// identifies one registered native callback on one source object.
/// The adapter consumes it exactly once, at teardown, to unregister
/// that callback.
#[derive(Debug)]
pub struct SubscriptionToken {
    raw: u64,
}

impl View for SubscriptionToken {
    type V = u64;

    closed spec fn view(&self) -> u64 {
        self.raw
    }
}

impl SubscriptionToken {
    /// Wraps the toolkit's raw handler identifier.
    pub fn new(raw: u64) -> (t: Self)
        ensures
            t@ == raw,
    {
        SubscriptionToken { raw }
    }

    /// The raw toolkit identifier this token stands for, needed by the
    /// caller to perform the actual unregistration call.
    pub fn raw(&self) -> (r: u64)
        ensures
            r == self@,
    {
        self.raw
    }
}

/// Why subscription construction failed: the toolkit refused to
/// register a callback for the named event (for instance, a
/// string-named registration on an event the object does not have).
#[derive(Debug)]
pub struct ConnectError {
    event: String,
}

impl View for ConnectError {
    type V = Seq<char>;

    closed spec fn view(&self) -> Seq<char> {
        self.event@
    }
}

impl ConnectError {
    /// Records that registration on `event` was refused.
    pub fn unknown_event(event: String) -> (e: Self)
        ensures
            e@ == event@,
    {
        ConnectError { event }
    }

    /// The event name whose registration was refused.
    pub fn event_name(&self) -> (r: &str)
        ensures
            r@ == self@,
    {
        self.event.as_str()
    }
}

} // verus!
