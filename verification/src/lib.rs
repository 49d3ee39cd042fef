//! Pluggable-runtime capability contracts for a protocol core.
//!
//! The library defines the small set of contracts a host runtime must
//! implement so that connection handling can run on any concurrency
//! substrate: a task-execution capability, a timer capability with a
//! cancellable and resettable sleep, and poll-based byte-stream
//! capabilities whose read side works through a buffer that tracks its
//! filled and initialized extents.

mod buf;
mod exec;
mod io;
mod time;

pub use buf::BufView;
pub use buf::ReadBuf;
pub use buf::ReadBufCursor;
pub use buf::lemma_clear_reuse;
pub use buf::lemma_fill_round_trip;
pub use exec::Executor;
pub use io::IoError;
pub use io::Poll;
pub use io::Read;
pub use io::Write;
pub use io::accepted_prefix;
pub use io::lemma_short_write_split;
pub use io::unaccepted_tail;
pub use time::Sleep;
pub use time::TickSleep;
pub use time::TickTimer;
pub use time::Timer;
pub use time::sat_add;
