//! Types shared by the relays: header ids, the error of a node client, and the
//! report of a header submission.

use vstd::prelude::*;

verus! {

/// The id of a header: its number and its hash.
#[derive(Clone, Copy, Debug, PartialEq, Eq)]
pub struct HeaderId<Hash, Number>(pub Number, pub Hash);

/// What can go wrong when a node's reply is read.
#[derive(Debug)]
pub enum ClientError {
    /// The node's reply does not decode as the value that was asked for.
    ResponseParseFailed(parity_scale_codec::Error),
}

/// The report of a header submission: which headers went in, which were
/// rejected, and the error that stopped the submission, if any.
#[derive(Debug)]
pub struct SubmittedHeaders<Id, Error> {
    /// Ids of headers that have been submitted.
    pub submitted: Vec<Id>,
    /// Ids of headers that need more data before they can be submitted.
    pub incomplete: Vec<Id>,
    /// Ids of headers that have been rejected or not submitted at all.
    pub rejected: Vec<Id>,
    /// The error that stopped the submission.
    pub fatal_error: Option<Error>,
}

impl<Id, Error> SubmittedHeaders<Id, Error> {
    /// The report of a submission that has not handled any header yet.
    pub fn empty() -> (r: Self)
        ensures
            r.submitted@.len() == 0,
            r.incomplete@.len() == 0,
            r.rejected@.len() == 0,
            r.fatal_error is None,
    {
        SubmittedHeaders {
            submitted: Vec::new(),
            incomplete: Vec::new(),
            rejected: Vec::new(),
            fatal_error: None,
        }
    }
}

} // verus!
