//! A latency probe for TCP and HTTP endpoints: a session issues a sequence of
//! timed connection attempts ("frames"), records each outcome, and aggregates
//! minimum / maximum / average latency together with success and loss counts.
//!
//! All timing is carried as whole nanoseconds read from a monotonic clock that
//! the caller owns; the library itself performs no I/O and reads no clock.

pub mod digits;
pub mod error;
pub mod frame;
pub mod method;
pub mod session;
pub mod stats;

pub use frame::TcpFrame;
pub use method::HttpMethod;
pub use method::PingMethod;
pub use session::Pluto;
pub use stats::PingResult;
