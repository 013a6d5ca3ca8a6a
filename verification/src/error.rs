//! The error records that the native library queues when a call fails.

use vstd::prelude::*;

verus! {

/// One queued error record, as plain values.
#[derive(Debug)]
pub struct ErrorRecord {
    /// The packed error code.
    pub code: u64,
    /// The source file that raised the error.
    pub file: String,
    /// The line in that file.
    pub line: u32,
    /// The function that raised the error, where the library tells it.
    pub func: Option<String>,
    /// Additional text attached to the record, if any.
    pub data: Option<String>,
}

/// The records taken from the queue at one moment, oldest first.
#[derive(Debug)]
pub struct ErrorStack {
    records: Vec<ErrorRecord>,
}

impl View for ErrorStack {
    type V = Seq<ErrorRecord>;

    closed spec fn view(&self) -> Seq<ErrorRecord> {
        self.records@
    }
}

impl ErrorStack {
    /// A stack without records.
    pub fn new() -> (stack: ErrorStack)
        ensures
            stack@ == Seq::<ErrorRecord>::empty(),
    {
        ErrorStack { records: Vec::new() }
    }

    /// A stack of the given records, in their order.
    pub fn from_records(records: Vec<ErrorRecord>) -> (stack: ErrorStack)
        ensures
            stack@ == records@,
    {
        ErrorStack { records }
    }

    /// The records, oldest first.
    pub fn errors(&self) -> (records: &[ErrorRecord])
        ensures
            records@ == self@,
    {
        self.records.as_slice()
    }

    /// The number of records.
    pub fn len(&self) -> (n: usize)
        ensures
            n == self@.len(),
    {
        self.records.len()
    }

    /// Whether the stack holds no record.
    pub fn is_empty(&self) -> (b: bool)
        ensures
            b == (self@.len() == 0),
    {
        self.records.len() == 0
    }
}

} // verus!
