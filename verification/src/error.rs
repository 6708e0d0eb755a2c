//! The error value built at a failure site, and its propagation onto
//! the shared queue.
//!
//! An [`Error`] is created by one of the constructors below, carried to
//! the boundary of the call that failed, raised exactly once, and then
//! converted to a sentinel return value; nothing reads its fields after
//! that.  Raising appends one record to the queue and has no other
//! effect on it; merely dropping an [`Error`] touches no queue at all,
//! since only [`Error::raise`] takes one.

use vstd::prelude::*;

use rustls::Error as RustlsError;
use std::io::Error as IoError;

use crate::codes::{spec_lib_code, spec_reason_code, spec_reason_label, Lib, Reason};
use crate::queue::{ErrorQueue, QueueRecord, RecordView};

verus! {

/// The mathematical content of an [`Error`]: its origin, its condition,
/// and the hint supplied at the failure site, if any.
pub ghost struct ErrorView {
    pub lib: Lib,
    pub reason: Reason,
    pub message: Option<Seq<char>>,
}

/// A failure being reported across the foreign boundary.
#[derive(Debug)]
pub struct Error {
    lib: Lib,
    reason: Reason,
    string: Option<String>,
}

impl View for Error {
    type V = ErrorView;

    closed spec fn view(&self) -> ErrorView {
        ErrorView {
            lib: self.lib,
            reason: self.reason,
            message: match self.string {
                Some(s) => Some(s@),
                None => None,
            },
        }
    }
}

/// The display message of an error: the hint if the failure site gave
/// one, else the default name of the condition.
pub open spec fn spec_display_message(e: ErrorView) -> Seq<char> {
    match e.message {
        Some(hint) => hint,
        None => spec_reason_label(e.reason),
    }
}

/// The queue record an error produces when raised.
pub open spec fn record_of(e: ErrorView) -> RecordView {
    RecordView {
        lib: spec_lib_code(e.lib),
        reason: spec_reason_code(e.reason),
        message: spec_display_message(e),
    }
}

/// A hint supplied at the failure site reaches the queue verbatim: the
/// record of an error carrying a hint has exactly that hint as its
/// message, whatever characters the hint holds.  The message is data,
/// never a format template (see [`crate::queue::message_template`]).
pub proof fn lemma_hint_reaches_queue_verbatim(e: ErrorView)
    requires
        e.message is Some,
    ensures
        record_of(e).message == e.message->0,
{
}

/// `rustls::Error`, the failure type of the wrapped TLS engine, left
/// opaque: this library only renders it to text.
#[verifier::external_type_specification]
#[verifier::external_body]
pub struct ExRustlsError(RustlsError);

/// `std::io::Error`, the wrapped I/O failure type, left opaque: this
/// library only renders it to text.
#[verifier::external_type_specification]
#[verifier::external_body]
pub struct ExIoError(IoError);

/// Relies on the `Display` rendering of `rustls::Error` (through
/// `ToString::to_string`) for the hint text; nothing is assumed about
/// the rendered characters.
#[verifier::external_body]
fn rustls_error_text(err: &RustlsError) -> String {
    err.to_string()
}

/// Relies on the `Display` rendering of `std::io::Error` (through
/// `ToString::to_string`) for the hint text; nothing is assumed about
/// the rendered characters.
#[verifier::external_body]
fn io_error_text(err: &IoError) -> String {
    err.to_string()
}

impl Error {
    /// An uncaught internal panic was intercepted at the boundary.
    pub fn unexpected_panic() -> (r: Error)
        ensures
            r@ == (ErrorView { lib: Lib::Ssl, reason: Reason::InternalError, message: None }),
    {
        Error { lib: Lib::Ssl, reason: Reason::InternalError, string: None }
    }

    /// A required pointer argument was null.
    pub fn null_pointer() -> (r: Error)
        ensures
            r@ == (ErrorView {
                lib: Lib::Ssl,
                reason: Reason::PassedNullParameter,
                message: None,
            }),
    {
        Error { lib: Lib::Ssl, reason: Reason::PassedNullParameter, string: None }
    }

    /// A mutual-exclusion acquisition failed.
    pub fn cannot_lock() -> (r: Error)
        ensures
            r@ == (ErrorView {
                lib: Lib::Ssl,
                reason: Reason::UnableToGetWriteLock,
                message: None,
            }),
    {
        Error { lib: Lib::Ssl, reason: Reason::UnableToGetWriteLock, string: None }
    }

    /// A feature or configuration this re-implementation does not
    /// offer; the hint names it and is stored verbatim.
    pub fn not_supported(hint: &str) -> (r: Error)
        ensures
            r@ == (ErrorView {
                lib: Lib::Ssl,
                reason: Reason::Unsupported,
                message: Some(hint@),
            }),
    {
        Error { lib: Lib::Ssl, reason: Reason::Unsupported, string: Some(hint.to_owned()) }
    }

    /// Malformed or unusable input data; the hint describes it and is
    /// stored verbatim.
    pub fn bad_data(hint: &str) -> (r: Error)
        ensures
            r@ == (ErrorView {
                lib: Lib::Ssl,
                reason: Reason::OperationFailed,
                message: Some(hint@),
            }),
    {
        Error { lib: Lib::Ssl, reason: Reason::OperationFailed, string: Some(hint.to_owned()) }
    }

    /// A wrapped external failure whose rendered text is already in
    /// hand: the error carries exactly that text as its hint, verbatim.
    ///
    /// Both wrapped-failure constructors below route through this one,
    /// so everything after the rendering call is pinned here: whatever
    /// text the rendering produced becomes the hint, unaltered.
    pub fn wrapped_failure(text: String) -> (r: Error)
        ensures
            r@ == (ErrorView {
                lib: Lib::User,
                reason: Reason::OperationFailed,
                message: Some(text@),
            }),
    {
        Error { lib: Lib::User, reason: Reason::OperationFailed, string: Some(text) }
    }

    /// A failure of the wrapped TLS engine; its rendered text becomes
    /// the hint.  What the rendering yields is the engine's own
    /// business (nothing is assumed of the trusted rendering call);
    /// that the result carries it verbatim is
    /// [`Error::wrapped_failure`]'s contract.
    pub fn from_rustls(err: RustlsError) -> (r: Error)
        ensures
            r@.lib == Lib::User,
            r@.reason == Reason::OperationFailed,
            r@.message is Some,
    {
        Error::wrapped_failure(rustls_error_text(&err))
    }

    /// A wrapped I/O failure; its rendered text becomes the hint, as in
    /// [`Error::from_rustls`].
    pub fn from_io(err: IoError) -> (r: Error)
        ensures
            r@.lib == Lib::User,
            r@.reason == Reason::OperationFailed,
            r@.message is Some,
    {
        Error::wrapped_failure(io_error_text(&err))
    }

    /// The display message this error will put on the queue.
    fn display_message(&self) -> (r: String)
        ensures
            r@ == spec_display_message(self@),
    {
        match &self.string {
            Some(s) => s.clone(),
            None => self.reason.label(),
        }
    }

    /// The queue record this error produces when raised: its origin id,
    /// its condition code, and its display message.
    pub fn record(&self) -> (r: QueueRecord)
        ensures
            r@ == record_of(self@),
    {
        QueueRecord {
            lib: self.lib.code(),
            reason: self.reason.code(),
            message: self.display_message(),
        }
    }

    /// Add this error to the shared error queue: exactly one new record
    /// is appended and nothing else changes.  The error itself comes
    /// back unchanged, so the caller can chain the sentinel conversion.
    pub fn raise(self, queue: &mut ErrorQueue) -> (r: Error)
        ensures
            r == self,
            final(queue)@ == old(queue)@.push(record_of(self@)),
    {
        let rec = self.record();
        queue.push(rec);
        self
    }
}

} // verus!
