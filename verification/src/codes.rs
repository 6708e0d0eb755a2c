//! The closed taxonomy of error origins and conditions, and their fixed
//! numeric encodings.
//!
//! Both the origin ids and the condition codes are part of the foreign
//! ABI contract of the emulated library: external tooling inspects the
//! shared error queue and decodes these exact bit patterns, so none of
//! the values below may ever be renumbered independently.

use vstd::prelude::*;

verus! {

/// Bit offset of the flag bits inside a condition code, fixed by the
/// emulated library's error-code layout.
pub const RFLAGS_OFFSET: i32 = 18;

/// Flag bit marking a condition as fatal.
pub const RFLAG_FATAL: i32 = 0x1i32 << RFLAGS_OFFSET;

/// Flag bit marking a condition code drawn from the range shared by all
/// subsystems of the emulated library.
pub const RFLAG_COMMON: i32 = 0x2i32 << RFLAGS_OFFSET;

/// Identifies which subsystem raised an error.
#[derive(Copy, Clone, Debug)]
pub enum Lib {
    /// The re-implemented TLS layer itself.
    Ssl,
    /// A wrapped internal-engine or I/O failure.
    User,
}

/// The fixed numeric id of an origin, as registered by the emulated
/// library: 20 for the TLS layer, 128 for wrapped engine failures.
pub open spec fn spec_lib_code(lib: Lib) -> i32 {
    match lib {
        Lib::Ssl => 20,
        Lib::User => 128,
    }
}

impl Lib {
    /// The numeric origin id carried by every queue record.
    pub fn code(self) -> (r: i32)
        ensures
            r == spec_lib_code(self),
    {
        match self {
            Lib::Ssl => 20,
            Lib::User => 128,
        }
    }
}

/// The closed set of condition codes this library can report.
#[derive(Copy, Clone, Debug)]
pub enum Reason {
    /// A required pointer argument was null.  Fatal.
    PassedNullParameter,
    /// An invariant violation or a caught internal panic.  Fatal.
    InternalError,
    /// A mutual-exclusion acquisition elsewhere in the system failed.
    /// Fatal.
    UnableToGetWriteLock,
    /// An operation could not complete; wraps engine, I/O and generic
    /// failures.  Fatal.
    OperationFailed,
    /// A feature or configuration this re-implementation does not offer.
    /// Not fatal.
    Unsupported,
}

/// The bit-packed numeric encoding of a condition: its base code, the
/// common flag, and the fatal flag where the condition is fatal.
pub open spec fn spec_reason_code(reason: Reason) -> i32 {
    match reason {
        Reason::PassedNullParameter => RFLAG_FATAL | RFLAG_COMMON | 258,
        Reason::InternalError => RFLAG_FATAL | RFLAG_COMMON | 259,
        Reason::UnableToGetWriteLock => RFLAG_FATAL | RFLAG_COMMON | 272,
        Reason::OperationFailed => RFLAG_FATAL | RFLAG_COMMON | 263,
        Reason::Unsupported => RFLAG_COMMON | 268,
    }
}

impl Reason {
    /// The numeric condition code carried by every queue record.
    pub fn code(self) -> (r: i32)
        ensures
            r == spec_reason_code(self),
    {
        match self {
            Reason::PassedNullParameter => RFLAG_FATAL | RFLAG_COMMON | 258,
            Reason::InternalError => RFLAG_FATAL | RFLAG_COMMON | 259,
            Reason::UnableToGetWriteLock => RFLAG_FATAL | RFLAG_COMMON | 272,
            Reason::OperationFailed => RFLAG_FATAL | RFLAG_COMMON | 263,
            Reason::Unsupported => RFLAG_COMMON | 268,
        }
    }
}

/// The default textual name of a condition, used as the queue message
/// when the failure site supplied no hint.
pub open spec fn spec_reason_label(reason: Reason) -> Seq<char> {
    match reason {
        Reason::PassedNullParameter => "PassedNullParameter"@,
        Reason::InternalError => "InternalError"@,
        Reason::UnableToGetWriteLock => "UnableToGetWriteLock"@,
        Reason::OperationFailed => "OperationFailed"@,
        Reason::Unsupported => "Unsupported"@,
    }
}

impl Reason {
    /// The default textual name of this condition.
    pub fn label(self) -> (r: String)
        ensures
            r@ == spec_reason_label(self),
    {
        match self {
            Reason::PassedNullParameter => "PassedNullParameter".to_owned(),
            Reason::InternalError => "InternalError".to_owned(),
            Reason::UnableToGetWriteLock => "UnableToGetWriteLock".to_owned(),
            Reason::OperationFailed => "OperationFailed".to_owned(),
            Reason::Unsupported => "Unsupported".to_owned(),
        }
    }
}

/// Every condition code equals its documented base value with the common
/// flag set, and the fatal flag set exactly on the fatal conditions:
/// the encodings match the published numeric table bit for bit.
pub proof fn lemma_reason_code_values()
    ensures
        spec_reason_code(Reason::PassedNullParameter) == 0xc0102i32,
        spec_reason_code(Reason::InternalError) == 0xc0103i32,
        spec_reason_code(Reason::UnableToGetWriteLock) == 0xc0110i32,
        spec_reason_code(Reason::OperationFailed) == 0xc0107i32,
        spec_reason_code(Reason::Unsupported) == 0x8010ci32,
{
    assert((((0x1i32 << 18i32) | (0x2i32 << 18i32)) | 258i32) == 0xc0102i32) by (bit_vector);
    assert((((0x1i32 << 18i32) | (0x2i32 << 18i32)) | 259i32) == 0xc0103i32) by (bit_vector);
    assert((((0x1i32 << 18i32) | (0x2i32 << 18i32)) | 272i32) == 0xc0110i32) by (bit_vector);
    assert((((0x1i32 << 18i32) | (0x2i32 << 18i32)) | 263i32) == 0xc0107i32) by (bit_vector);
    assert(((0x2i32 << 18i32) | 268i32) == 0x8010ci32) by (bit_vector);
}

} // verus!
