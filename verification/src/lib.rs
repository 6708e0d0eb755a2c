//! Error signaling for a C-ABI compatibility layer.
//!
//! This library is the terminal error-reporting bridge of a TLS library
//! re-implementation that presents a pre-existing C calling convention to
//! foreign callers.  It turns internal failures into the signals those
//! callers expect: a numeric error record appended to the process-wide
//! error queue, plus a per-return-convention sentinel value.
//!
//! The pieces, in dependency order:
//! - [`codes`]: the closed taxonomy of error origins ([`codes::Lib`]) and
//!   conditions ([`codes::Reason`]), with their fixed bit-packed numeric
//!   encodings.
//! - [`queue`]: the model of the shared error queue and the records
//!   appended to it.
//! - [`error`]: the [`error::Error`] value built at a failure site, and
//!   `raise`, which appends its record to a queue.
//! - [`sentinel`]: the per-return-convention failure values handed back
//!   across the boundary.
//! - [`boundary`]: the decision taken at the outermost frame of every
//!   foreign-exposed entry point, converting a caught internal failure
//!   into a raised error and a sentinel.

pub mod boundary;
pub mod codes;
pub mod error;
pub mod queue;
pub mod sentinel;
