//! The panic boundary: the decision taken at the outermost frame of
//! every foreign-exposed entry point.
//!
//! An entry point's body runs under unwind isolation in the glue around
//! this library; no internal failure may ever cross that frame as an
//! unwind, because the foreign caller's stack cannot unwind this
//! runtime's frames safely.  The glue hands the isolated outcome to the
//! function below matching the entry point's declared return
//! convention: `Some(v)` for normal completion, `None` for an
//! intercepted unwind.  On `Some(v)`, `v` comes back unchanged and the
//! queue gains nothing.  On `None`, an internal-error record is raised
//! onto the queue and the convention's sentinel comes back; the
//! remaining work of the wrapped unit is already abandoned.

use vstd::prelude::*;

use crate::codes::{Lib, Reason};
use crate::error::{record_of, Error, ErrorView};
use crate::queue::{ErrorQueue, RecordView};
use crate::sentinel::{
    sentinel_c_int, sentinel_c_long, sentinel_u16, sentinel_u32, sentinel_u64, sentinel_unit,
};

verus! {

/// The record raised when an unexpected internal failure is
/// intercepted: origin is the TLS layer, condition is the internal
/// error, and the message is that condition's default name.
pub open spec fn panic_record() -> RecordView {
    record_of(ErrorView { lib: Lib::Ssl, reason: Reason::InternalError, message: None })
}

/// Boundary decision for an entry point declared to return a signed
/// 32-bit integer.
pub fn boundary_c_int(outcome: Option<i32>, queue: &mut ErrorQueue) -> (r: i32)
    ensures
        outcome matches Some(v) ==> r == v && final(queue)@ == old(queue)@,
        outcome is None ==> r == 0 && final(queue)@ == old(queue)@.push(panic_record()),
{
    match outcome {
        Some(v) => v,
        None => sentinel_c_int(Error::unexpected_panic().raise(queue)),
    }
}

/// Boundary decision for an entry point declared to return a signed
/// wide integer.
pub fn boundary_c_long(outcome: Option<i64>, queue: &mut ErrorQueue) -> (r: i64)
    ensures
        outcome matches Some(v) ==> r == v && final(queue)@ == old(queue)@,
        outcome is None ==> r == 0 && final(queue)@ == old(queue)@.push(panic_record()),
{
    match outcome {
        Some(v) => v,
        None => sentinel_c_long(Error::unexpected_panic().raise(queue)),
    }
}

/// Boundary decision for an entry point declared to return an unsigned
/// 64-bit integer.
pub fn boundary_u64(outcome: Option<u64>, queue: &mut ErrorQueue) -> (r: u64)
    ensures
        outcome matches Some(v) ==> r == v && final(queue)@ == old(queue)@,
        outcome is None ==> r == 0 && final(queue)@ == old(queue)@.push(panic_record()),
{
    match outcome {
        Some(v) => v,
        None => sentinel_u64(Error::unexpected_panic().raise(queue)),
    }
}

/// Boundary decision for an entry point declared to return an unsigned
/// 32-bit integer.
pub fn boundary_u32(outcome: Option<u32>, queue: &mut ErrorQueue) -> (r: u32)
    ensures
        outcome matches Some(v) ==> r == v && final(queue)@ == old(queue)@,
        outcome is None ==> r == 0 && final(queue)@ == old(queue)@.push(panic_record()),
{
    match outcome {
        Some(v) => v,
        None => sentinel_u32(Error::unexpected_panic().raise(queue)),
    }
}

/// Boundary decision for an entry point declared to return an unsigned
/// 16-bit integer.
pub fn boundary_u16(outcome: Option<u16>, queue: &mut ErrorQueue) -> (r: u16)
    ensures
        outcome matches Some(v) ==> r == v && final(queue)@ == old(queue)@,
        outcome is None ==> r == 0 && final(queue)@ == old(queue)@.push(panic_record()),
{
    match outcome {
        Some(v) => v,
        None => sentinel_u16(Error::unexpected_panic().raise(queue)),
    }
}

/// Boundary decision for a void entry point: nothing is returned either
/// way, and the queue gains the internal-error record exactly when the
/// wrapped unit failed.
pub fn boundary_unit(outcome: Option<()>, queue: &mut ErrorQueue)
    ensures
        outcome is Some ==> final(queue)@ == old(queue)@,
        outcome is None ==> final(queue)@ == old(queue)@.push(panic_record()),
{
    match outcome {
        Some(v) => v,
        None => sentinel_unit(Error::unexpected_panic().raise(queue)),
    }
}

} // verus!
