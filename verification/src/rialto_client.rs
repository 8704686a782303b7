//! The decisions of the client that submits Ethereum headers and exchange
//! transaction proofs to the Rialto runtime: how the runtime's replies are
//! read, what is sent along with a query, and how the outcome of a submission
//! is reported. The queries and submissions themselves go over RPC.

use vstd::prelude::*;
use std::collections::VecDeque;
use crate::relay::{ClientError, HeaderId, SubmittedHeaders};
use crate::scale::{decode_bool, decode_u64_and_hash, encode_bytes32, u64_at};

verus! {

/// The id of an Ethereum header: its number and its hash.
pub type EthereumHeaderId = HeaderId<[u8; 32], u64>;

/// Reads the reply of the runtime method that returns the best (or the best
/// finalized) Ethereum block: its number and its hash.
pub fn header_id_from_response(encoded_response: &[u8]) -> (r: Result<EthereumHeaderId, ClientError>)
    ensures
        r is Ok <==> encoded_response@.len() >= 40,
        r matches Ok(id) ==> id.0 == u64_at(encoded_response@, 0),
        r matches Ok(id) ==> id.1@ == encoded_response@.subrange(8, 40),
        r matches Err(e) ==> e is ResponseParseFailed,
{
    match decode_u64_and_hash(encoded_response) {
        Ok(decoded) => Ok(HeaderId(decoded.0, decoded.1)),
        Err(e) => Err(ClientError::ResponseParseFailed(e)),
    }
}

/// Reads the reply of a runtime method that answers yes or no: whether
/// receipts are required, whether a header is known, whether an exchange
/// transaction proof is allowed.
pub fn flag_from_response(encoded_response: &[u8]) -> (r: Result<bool, ClientError>)
    ensures
        r is Ok <==> (encoded_response@.len() >= 1 && encoded_response@[0] <= 1),
        r matches Ok(b) ==> (b <==> encoded_response@[0] == 1),
        r matches Err(e) ==> e is ResponseParseFailed,
{
    match decode_bool(encoded_response) {
        Ok(b) => Ok(b),
        Err(e) => Err(ClientError::ResponseParseFailed(e)),
    }
}

/// What is sent along with the query whether a header is known: the encoded
/// hash of the header.
pub fn header_known_call_data(header_id: &EthereumHeaderId) -> (r: Vec<u8>)
    ensures
        r@ == header_id.1@,
{
    encode_bytes32(&header_id.1)
}

/// The report of a submission of all headers `ids` in one signed transaction:
/// all of them are submitted when the transaction went in, and all of them
/// are rejected, with the error, when it did not.
pub fn signed_submission_outcome<Id, Error>(ids: Vec<Id>, result: Result<(), Error>) -> (r:
    SubmittedHeaders<Id, Error>)
    ensures
        r.incomplete@.len() == 0,
        result is Ok ==> r.submitted@ == ids@ && r.rejected@.len() == 0 && r.fatal_error is None,
        result matches Err(e) ==> r.submitted@.len() == 0 && r.rejected@ == ids@ && r.fatal_error
            == Some(e),
{
    match result {
        Ok(_) => SubmittedHeaders {
            submitted: ids,
            incomplete: Vec::new(),
            rejected: Vec::new(),
            fatal_error: None,
        },
        Err(error) => SubmittedHeaders {
            submitted: Vec::new(),
            incomplete: Vec::new(),
            rejected: ids,
            fatal_error: Some(error),
        },
    }
}

/// The state of a submission of headers one unsigned transaction at a time:
/// the ids of the headers not yet handled, in order, and the report so far.
pub struct UnsignedSubmission<Id, Error> {
    pending: VecDeque<Id>,
    headers: SubmittedHeaders<Id, Error>,
    all: Ghost<Seq<Id>>,
}

impl<Id, Error> UnsignedSubmission<Id, Error> {
    /// Ids of the headers not handled yet, in the order they are submitted.
    pub closed spec fn pending_ids(&self) -> Seq<Id> {
        self.pending@
    }

    /// The report so far.
    pub closed spec fn report(&self) -> SubmittedHeaders<Id, Error> {
        self.headers
    }

    /// Ids of all headers of the submission, in order.
    pub closed spec fn all_ids(&self) -> Seq<Id> {
        self.all@
    }

    /// Every header of the submission is, in order, either submitted, or
    /// rejected, or still pending; nothing is incomplete; once an error has
    /// stopped the submission nothing is pending, and without an error nothing
    /// has been rejected.
    pub open spec fn wf(&self) -> bool {
        &&& self.report().submitted@ + self.report().rejected@ + self.pending_ids() == self.all_ids()
        &&& self.report().incomplete@.len() == 0
        &&& self.report().fatal_error is Some ==> self.pending_ids().len() == 0
        &&& self.report().fatal_error is None ==> self.report().rejected@.len() == 0
    }

    /// Starts a submission of the headers with ids `ids`, in this order.
    pub fn new(ids: VecDeque<Id>) -> (r: Self)
        ensures
            r.wf(),
            r.all_ids() == ids@,
            r.pending_ids() == ids@,
            r.report().submitted@.len() == 0,
            r.report().fatal_error is None,
    {
        let ghost all = ids@;
        let r = UnsignedSubmission { pending: ids, headers: SubmittedHeaders::empty(), all: Ghost(all) };
        assert(r.headers.submitted@ + r.headers.rejected@ + r.pending@ =~= all);
        r
    }

    /// The number of headers not handled yet.
    pub fn pending_len(&self) -> (n: usize)
        ensures
            n == self.pending_ids().len(),
    {
        self.pending.len()
    }

    /// Records the outcome of submitting the next pending header, and tells
    /// whether the submission goes on. A submitted header joins the submitted
    /// ones; an error rejects that header and every header after it, and
    /// stops the submission.
    pub fn record(&mut self, outcome: Result<(), Error>) -> (go_on: bool)
        requires
            old(self).wf(),
            old(self).pending_ids().len() > 0,
        ensures
            final(self).wf(),
            final(self).all_ids() == old(self).all_ids(),
            go_on <==> outcome is Ok,
            outcome is Ok ==> final(self).report().submitted@ == old(self).report().submitted@.push(
                old(self).pending_ids()[0],
            ) && final(self).pending_ids() == old(self).pending_ids().drop_first()
                && final(self).report().rejected@ == old(self).report().rejected@
                && final(self).report().fatal_error == old(self).report().fatal_error,
            outcome matches Err(e) ==> final(self).report().submitted@ == old(self).report().submitted@
                && final(self).report().rejected@ == old(self).report().rejected@
                + old(self).pending_ids() && final(self).pending_ids().len() == 0
                && final(self).report().fatal_error == Some(e),
    {
        let ghost pre_submitted = self.headers.submitted@;
        let ghost pre_rejected = self.headers.rejected@;
        let ghost pre_pending = self.pending@;
        let id = self.pending.pop_front().unwrap();
        let go_on = match outcome {
            Ok(_) => {
                self.headers.submitted.push(id);
                assert(self.headers.submitted@ + self.headers.rejected@ + self.pending@
                    =~= pre_submitted + pre_rejected + pre_pending);
                true
            },
            Err(error) => {
                self.headers.rejected.push(id);
                while self.pending.len() > 0
                    invariant
                        self.headers.submitted@ == pre_submitted,
                        self.headers.rejected@ + self.pending@ == pre_rejected + pre_pending,
                        self.headers.incomplete@.len() == 0,
                        self.all == old(self).all,
                    decreases self.pending@.len(),
                {
                    let ghost before_rejected = self.headers.rejected@;
                    let ghost before_pending = self.pending@;
                    let next = self.pending.pop_front().unwrap();
                    self.headers.rejected.push(next);
                    assert(self.headers.rejected@ + self.pending@ =~= before_rejected
                        + before_pending);
                }
                assert(self.headers.rejected@ =~= pre_rejected + pre_pending);
                self.headers.fatal_error = Some(error);
                assert(self.headers.submitted@ + self.headers.rejected@ + self.pending@
                    =~= pre_submitted + pre_rejected + pre_pending);
                false
            },
        };
        go_on
    }

    /// When a submission is over, because nothing is pending any more, its
    /// report accounts for every header exactly once and in order: the
    /// submitted ones first, then the rejected ones.
    pub proof fn lemma_finished_submission_reports_every_header(&self)
        requires
            self.wf(),
            self.pending_ids().len() == 0,
        ensures
            self.report().submitted@ + self.report().rejected@ == self.all_ids(),
            self.report().submitted@.len() + self.report().rejected@.len() == self.all_ids().len(),
    {
        assert(self.headers.submitted@ + self.headers.rejected@ =~= self.headers.submitted@
            + self.headers.rejected@ + self.pending@);
    }

    /// The report of the submission.
    pub fn into_submitted_headers(self) -> (r: SubmittedHeaders<Id, Error>)
        ensures
            r == self.report(),
    {
        self.headers
    }
}

} // verus!
