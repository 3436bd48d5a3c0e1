//! Stream bookkeeping for one multiplexed connection: two concurrency
//! limits, an arena of stream records, and the errors that receive and
//! send operations hand back.

pub mod counts;
pub mod error;
pub mod frame;
pub mod lifecycle;
pub mod peer;
pub mod store;

pub use counts::{Config, Counts, CountsView, Direction};
pub use error::{BlastRadius, RecvError, SendError, UserError};
pub use frame::{Reason, Settings, StreamId};
pub use peer::Role;
pub use store::{Entry, Key, State, Store, Stream};
