//! Sentinel conversion: the per-return-convention failure values.
//!
//! Each function below maps an [`Error`] to the reserved failure signal
//! of one foreign return convention.  The mapping is field-blind: it
//! never inspects the error's origin, condition or message — all
//! diagnostic content must already have reached the shared queue via
//! [`Error::raise`] — so the result is the same whatever error is
//! handed in.  Foreign callers recover failure detail only by reading
//! the queue, never from the return value.
//!
//! The two opaque-pointer conventions (plain and nullable), whose
//! sentinel is a null pointer, live in the unverified glue around this
//! library: raw pointers stay outside the verified surface.

use vstd::prelude::*;

use crate::error::Error;

verus! {

/// Sentinel for the signed 32-bit convention (the typical foreign
/// function returning 0 on failure).
pub fn sentinel_c_int(_err: Error) -> (r: i32)
    ensures
        r == 0,
{
    0
}

/// Sentinel for the signed wide-integer convention.
pub fn sentinel_c_long(_err: Error) -> (r: i64)
    ensures
        r == 0,
{
    0
}

/// Sentinel for the unsigned 64-bit convention (option-set functions).
pub fn sentinel_u64(_err: Error) -> (r: u64)
    ensures
        r == 0,
{
    0
}

/// Sentinel for the unsigned 32-bit convention (numeric-id getters).
pub fn sentinel_u32(_err: Error) -> (r: u32)
    ensures
        r == 0,
{
    0
}

/// Sentinel for the unsigned 16-bit convention (protocol-id getters).
pub fn sentinel_u16(_err: Error) -> (r: u16)
    ensures
        r == 0,
{
    0
}

/// Sentinel for the no-value convention: a void entry point returns
/// early with no observable output.
pub fn sentinel_unit(_err: Error) {
}

} // verus!
