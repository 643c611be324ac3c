use vstd::prelude::*;
use crate::error::{ClientError, ParsePolicy};
use crate::status::{BlobResult, BlobStatus, is_default_result, is_default_status, settles_status};
use crate::wire::{brace_free, json_document_of, lemma_no_brace_no_document};

verus! {

pub struct BlobResponseView {
    pub result: BlobResult,
    pub request_id: Seq<char>,
}

/// The network's answer to a dispersal: the request's state and the identifier to poll it by.
#[derive(Debug, PartialEq, Eq, Hash)]
pub struct BlobResponse {
    result: BlobResult,
    request_id: String,
}

impl View for BlobResponse {
    type V = BlobResponseView;

    closed spec fn view(&self) -> BlobResponseView {
        BlobResponseView { result: self.result, request_id: self.request_id@ }
    }
}

/// A response that stands in for a reply that could not be decoded.
pub open spec fn is_default_response(r: BlobResponseView) -> bool {
    is_default_result(r.result) && r.request_id == Seq::<char>::empty()
}

/// What a dispersal reply settles to, given what its decoder made of it (`None`: the reply
/// held no JSON document) and the policy for replies that do not decode.
pub open spec fn settles_response(
    decoded: Option<Result<BlobResponse, String>>,
    policy: ParsePolicy,
    r: Result<BlobResponse, ClientError>,
) -> bool {
    match decoded {
        Some(Ok(d)) => r == Ok::<BlobResponse, ClientError>(d),
        Some(Err(message)) => match policy {
            ParsePolicy::UseDefault => r matches Ok(d) && is_default_response(d@),
            ParsePolicy::PropagateError => r == Err::<BlobResponse, ClientError>(
                ClientError::MalformedResponse(message),
            ),
        },
        None => match policy {
            ParsePolicy::UseDefault => r matches Ok(d) && is_default_response(d@),
            ParsePolicy::PropagateError => r matches Err(ClientError::MalformedResponse(m))
                && m@ == "no JSON document in the reply"@,
        },
    }
}

impl BlobResponse {
    pub fn new(result: BlobResult, request_id: String) -> (r: Self)
        ensures
            r@ == (BlobResponseView { result, request_id: request_id@ }),
    {
        BlobResponse { result, request_id }
    }

    /// Settles a dispersal reply: a decoded response is kept; a reply that did not decode
    /// gives the default response under `UseDefault`, and a `MalformedResponse` error otherwise.
    pub fn from_decoded(decoded: Option<Result<BlobResponse, String>>, policy: ParsePolicy) -> (r:
        Result<BlobResponse, ClientError>)
        ensures
            settles_response(decoded, policy, r),
    {
        match decoded {
            Some(Ok(d)) => Ok(d),
            Some(Err(message)) => match policy {
                ParsePolicy::UseDefault => Ok(BlobResponse::default()),
                ParsePolicy::PropagateError => Err(ClientError::MalformedResponse(message)),
            },
            None => match policy {
                ParsePolicy::UseDefault => Ok(BlobResponse::default()),
                ParsePolicy::PropagateError => Err(
                    ClientError::MalformedResponse(String::from_str("no JSON document in the reply")),
                ),
            },
        }
    }

    pub fn result(&self) -> (r: &BlobResult)
        ensures
            *r == self@.result,
    {
        &self.result
    }

    pub fn request_id(&self) -> (r: String)
        ensures
            r@ == self@.request_id,
    {
        self.request_id.clone()
    }
}

impl Clone for BlobResponse {
    fn clone(&self) -> (r: Self)
        ensures
            r == *self,
    {
        BlobResponse { result: self.result.clone(), request_id: self.request_id.clone() }
    }
}

impl Default for BlobResponse {
    fn default() -> (r: Self)
        ensures
            is_default_response(r@),
    {
        BlobResponse { result: BlobResult::default(), request_id: String::new() }
    }
}

/// A reply without any `{` holds no JSON document, so there is nothing to decode (`None`);
/// under the `UseDefault` policy that settles to the default response, or the default status.
pub proof fn lemma_fail_soft_without_brace(
    reply: Seq<char>,
    response: Result<BlobResponse, ClientError>,
    status: Result<BlobStatus, ClientError>,
)
    requires
        brace_free(reply),
        settles_response(None, ParsePolicy::UseDefault, response),
        settles_status(None, ParsePolicy::UseDefault, status),
    ensures
        json_document_of(reply) is None,
        response matches Ok(r) && is_default_response(r@),
        status matches Ok(s) && is_default_status(s@),
{
    lemma_no_brace_no_document(reply);
}

} // verus!
