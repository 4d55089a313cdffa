//! The summary that a successful run hands back.

use vstd::prelude::*;

verus! {

/// Summary of one run: where the object came from, where the result went,
/// and how large both were.
#[derive(Clone, Debug, PartialEq, Eq)]
pub struct OutcomeRecord {
    pub key: String,
    pub src_bucket: String,
    /// The length of the source as the read reported it.
    pub len: Option<i64>,
    pub dest_key: String,
    pub dest_bucket: String,
    /// The number of bytes that the encoder produced.
    pub output_len: usize,
}

/// Mathematical model of an [`OutcomeRecord`].
pub struct OutcomeModel {
    pub key: Seq<char>,
    pub src_bucket: Seq<char>,
    pub len: Option<i64>,
    pub dest_key: Seq<char>,
    pub dest_bucket: Seq<char>,
    pub output_len: nat,
}

impl View for OutcomeRecord {
    type V = OutcomeModel;

    open spec fn view(&self) -> OutcomeModel {
        OutcomeModel {
            key: self.key@,
            src_bucket: self.src_bucket@,
            len: self.len,
            dest_key: self.dest_key@,
            dest_bucket: self.dest_bucket@,
            output_len: self.output_len as nat,
        }
    }
}

} // verus!
