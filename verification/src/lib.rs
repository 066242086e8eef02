//! Coarse, low-overhead time measurement.
//!
//! Time spans and monotonic readings are stored as 64-bit fixed-point numbers:
//! the high 32 bits hold whole seconds, the low 32 bits hold the fraction of a
//! second in units of 2^-32 of a second ("ticks"). All arithmetic on these
//! values is total: it saturates instead of wrapping or panicking.
//!
//! A process-wide cache of the latest monotonic reading lets hot paths ask
//! for an approximate "now" without paying for a clock read on every call:
//! see `TimeSource`, `Instant`, `Clock` and `Updater`.

pub mod clock;
pub mod duration;
pub mod helpers;
pub mod instant;
pub mod source;
pub mod updater;

pub use clock::Clock;
pub use clock::ClockError;
pub use clock::UnixTimeStamp;
pub use duration::Duration;
pub use instant::Instant;
pub use source::TimeSource;
pub use updater::Updater;
pub use updater::UpdaterError;
pub use updater::UpdaterPhase;
