//! The values in flight during one invocation: the inbound request, what the
//! outbound GET produced, and the outbound response.

use vstd::prelude::*;

verus! {

/// The inbound HTTP request, as plain values. The proxy accepts it only as a
/// trigger: no field of it is inspected or used.
pub struct InboundRequest {
    pub method: String,
    pub path: String,
    pub headers: Vec<(String, String)>,
    pub body: Vec<u8>,
}

/// What the single outbound GET to the target produced, reduced to plain
/// values: the body decoded as text, or one of the two failure points.
pub enum FetchOutcome {
    /// The GET succeeded and the body decoded as text.
    Body(String),
    /// The GET itself failed; the field holds the error's display text.
    FetchFailed(String),
    /// The body could not be decoded as text; the field holds the error's
    /// display text.
    DecodeFailed(String),
}

/// The opaque error a propagating variant hands to its hosting runtime. Each
/// failure point collapses to one fixed message; the original error detail is
/// lost.
#[derive(Clone, Copy, Debug, PartialEq, Eq, Structural)]
pub enum HandlerError {
    /// The outbound GET failed.
    Fetch,
    /// The fetched body was not valid text.
    Decode,
}

impl HandlerError {
    /// The fixed message this failure point collapses to.
    pub open spec fn spec_message(self) -> Seq<char> {
        match self {
            HandlerError::Fetch => "failed to get"@,
            HandlerError::Decode => "failed to convert to text"@,
        }
    }

    /// The fixed message, as the propagating variants report it.
    pub fn message(&self) -> (m: String)
        ensures
            m@ == self.spec_message(),
    {
        match self {
            HandlerError::Fetch => "failed to get".to_owned(),
            HandlerError::Decode => "failed to convert to text".to_owned(),
        }
    }
}

/// The outbound HTTP response, as plain values.
#[derive(Debug)]
pub struct HttpResponse {
    /// The status code.
    pub status: u16,
    /// The `content-type` header, where a variant sets one explicitly.
    pub content_type: Option<String>,
    /// The response body.
    pub body: String,
}

/// The mathematical view of an outbound response.
#[verifier::ext_equal]
pub ghost struct ResponseModel {
    pub status: int,
    pub content_type: Option<Seq<char>>,
    pub body: Seq<char>,
}

impl View for HttpResponse {
    type V = ResponseModel;

    open spec fn view(&self) -> ResponseModel {
        ResponseModel {
            status: self.status as int,
            content_type: match self.content_type {
                Option::Some(ct) => Option::Some(ct@),
                Option::None => Option::None,
            },
            body: self.body@,
        }
    }
}

} // verus!
