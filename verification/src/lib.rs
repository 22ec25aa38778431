//! Adapter from a GUI toolkit's discrete callback-based event
//! notifications to a pull-based sequence of items, with the
//! subscription's lifetime tied to the adapter's own.
//!
//! The verified core is the per-subscription state machine: an ordered
//! buffer of items the native callback has fired but the consumer has
//! not yet taken, the subscription token (present until teardown
//! consumes it), and the last known existence of the source object.
//! The host toolkit's calls themselves (registering a callback,
//! checking a weak reference, unregistering) are outside work that the
//! surrounding glue performs, feeding their outcomes into this state
//! machine as plain values.

pub mod adapter;
pub mod laws;
pub mod token;

pub use adapter::EvStream;
pub use adapter::connect;
pub use adapter::PollOutcome;
pub use adapter::StreamModel;
pub use token::ConnectError;
pub use token::SubscriptionToken;
