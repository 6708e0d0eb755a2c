//! The shared error queue, and the records appended to it.
//!
//! The real queue is the process-wide error stack owned by the emulated
//! library; this core only ever appends to it.  [`ErrorQueue`] models
//! that append-only sink as an explicit value, so that every effect of
//! raising an error is visible in a contract; the surrounding program
//! owns the single instance (or forwards each [`QueueRecord`] to the
//! foreign stack through its own glue).

use vstd::prelude::*;

verus! {

/// The mathematical content of one queue record: the numeric origin id,
/// the numeric condition code, and the display message.
pub ghost struct RecordView {
    pub lib: i32,
    pub reason: i32,
    pub message: Seq<char>,
}

/// One record appended to the shared error queue.
///
/// The message is always handed to the foreign stack as the sole data
/// argument of the fixed template [`message_template`]; it is never
/// itself interpreted as a format template, so a message containing
/// format directives reaches the queue verbatim.
pub struct QueueRecord {
    /// Numeric id of the subsystem that raised the error.
    pub lib: i32,
    /// Numeric condition code.
    pub reason: i32,
    /// The display message: the failure site's hint, or the default
    /// name of the condition.
    pub message: String,
}

impl View for QueueRecord {
    type V = RecordView;

    open spec fn view(&self) -> RecordView {
        RecordView { lib: self.lib, reason: self.reason, message: self.message@ }
    }
}

/// The fixed two-character format template meaning "one string
/// argument".  Every record's message is passed as the data argument of
/// this template, which is what keeps caller-influenced hints from ever
/// being interpreted as format directives.
pub fn message_template() -> (r: &'static str)
    ensures
        r@ == "%s"@,
{
    "%s"
}

/// A model of the shared, append-only error queue.
pub struct ErrorQueue {
    /// The records appended so far, oldest first.
    pub records: Vec<QueueRecord>,
}

impl View for ErrorQueue {
    type V = Seq<RecordView>;

    open spec fn view(&self) -> Seq<RecordView> {
        self.records@.map_values(|r: QueueRecord| r@)
    }
}

impl ErrorQueue {
    /// An empty queue.
    pub fn new() -> (q: ErrorQueue)
        ensures
            q@ == Seq::<RecordView>::empty(),
    {
        let q = ErrorQueue { records: Vec::new() };
        proof {
            assert(q@ =~= Seq::<RecordView>::empty());
        }
        q
    }

    /// Append one record; nothing already queued moves or changes.
    pub fn push(&mut self, record: QueueRecord)
        ensures
            final(self)@ == old(self)@.push(record@),
    {
        self.records.push(record);
        proof {
            assert(self@ =~= old(self)@.push(record@));
        }
    }

    /// How many records have been appended.
    pub fn len(&self) -> (n: usize)
        ensures
            n == self@.len(),
    {
        self.records.len()
    }
}

} // verus!
