//! One raw report as the transport hands it over: a buffer, and the count
//! of bytes that the read has filled.

use vstd::prelude::*;
use crate::decoder::{decode, decoded, outcome_view, DecodeError};

verus! {

/// The size of the buffer that a read fills.
pub const REPORT_CAPACITY: usize = 512;

/// A buffer and the number of its bytes that one read has filled. Only
/// those bytes are the report: what lies behind them in the buffer is left
/// over from earlier reads.
#[derive(Debug, PartialEq, Eq)]
pub struct Report {
    buffer: Vec<u8>,
    length: usize,
}

impl View for Report {
    type V = Seq<u8>;

    /// The bytes that the read has filled.
    closed spec fn view(&self) -> Seq<u8> {
        self.buffer@.subrange(0, self.length as int)
    }
}

impl Report {
    #[verifier::type_invariant]
    spec fn well_formed(self) -> bool {
        self.length <= self.buffer@.len()
    }

    /// A report of the first `length` bytes of `buffer`; none where the
    /// buffer holds fewer bytes than that.
    pub fn new(buffer: Vec<u8>, length: usize) -> (report: Option<Report>)
        ensures
            report is Some <==> length <= buffer@.len(),
            report matches Some(r) ==> r@ == buffer@.subrange(0, length as int),
    {
        if length <= buffer.len() {
            Some(Report { buffer, length })
        } else {
            None
        }
    }

    /// The number of bytes that the read has filled.
    pub fn len(&self) -> (length: usize)
        ensures
            length == self@.len(),
    {
        proof {
            use_type_invariant(self);
        }
        self.length
    }

    /// Decodes the report into a line.
    pub fn decode(&self) -> (r: Result<String, DecodeError>)
        ensures
            outcome_view(r) == decoded(self@, self@.len() as int),
    {
        proof {
            use_type_invariant(self);
            assert(self@.subrange(0, self@.len() as int) =~= self@);
        }
        decode(self.buffer.as_slice(), self.length)
    }
}

} // verus!
