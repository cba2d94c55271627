//! The messages of the rate-limit service protocol, as plain values, and the
//! mathematical view of each.

use vstd::prelude::*;

verus! {

/// An attribute as contracts see it: its key and its value.
pub type Attribute = (Seq<char>, Seq<char>);

/// One key/value pair of a descriptor.
#[derive(Clone, Debug, PartialEq, Eq)]
pub struct Entry {
    pub key: String,
    pub value: String,
}

impl View for Entry {
    type V = Attribute;

    open spec fn view(&self) -> Attribute {
        (self.key@, self.value@)
    }
}

/// The attributes of the entries of `entries`, in their order.
pub open spec fn attributes_of(entries: Seq<Entry>) -> Seq<Attribute> {
    Seq::new(entries.len(), |i: int| entries[i]@)
}

/// One set of request attributes. Keys may repeat.
#[derive(Clone, Debug, PartialEq, Eq)]
pub struct RateLimitDescriptor {
    pub entries: Vec<Entry>,
}

impl View for RateLimitDescriptor {
    type V = Seq<Attribute>;

    open spec fn view(&self) -> Seq<Attribute> {
        attributes_of(self.entries@)
    }
}

/// The attribute lists of the descriptors of `descriptors`, in their order.
pub open spec fn descriptors_of(descriptors: Seq<RateLimitDescriptor>) -> Seq<Seq<Attribute>> {
    Seq::new(descriptors.len(), |i: int| descriptors[i]@)
}

/// What contracts see of a request.
pub struct RequestView {
    pub domain: Seq<char>,
    pub descriptors: Seq<Seq<Attribute>>,
    pub hits_addend: u32,
}

/// A request to decide whether a call is to be rate limited.
#[derive(Clone, Debug, PartialEq, Eq)]
pub struct RateLimitRequest {
    /// The namespace whose limits apply.
    pub domain: String,
    pub descriptors: Vec<RateLimitDescriptor>,
    /// The hits that the call counts for; zero stands for one.
    pub hits_addend: u32,
}

impl View for RateLimitRequest {
    type V = RequestView;

    open spec fn view(&self) -> RequestView {
        RequestView {
            domain: self.domain@,
            descriptors: descriptors_of(self.descriptors@),
            hits_addend: self.hits_addend,
        }
    }
}

/// The overall code of a response.
#[derive(Clone, Copy, Debug, PartialEq, Eq, Structural)]
pub enum Code {
    /// The request could not be evaluated.
    Unknown,
    /// The call is within its limits: the protocol's `OK`.
    WithinLimit,
    /// The call is over a limit.
    OverLimit,
}

impl Code {
    /// The number that stands for the code on the wire.
    pub open spec fn wire(self) -> int {
        match self {
            Code::Unknown => 0,
            Code::WithinLimit => 1,
            Code::OverLimit => 2,
        }
    }
}

impl From<Code> for i32 {
    /// Returns the number that stands for the code on the wire.
    fn from(code: Code) -> (n: i32) {
        match code {
            Code::Unknown => 0,
            Code::WithinLimit => 1,
            Code::OverLimit => 2,
        }
    }
}

impl vstd::std_specs::convert::FromSpecImpl<Code> for i32 {
    open spec fn obeys_from_spec() -> bool {
        true
    }

    open spec fn from_spec(code: Code) -> i32 {
        code.wire() as i32
    }
}

/// A header that a response asks the caller to add.
#[derive(Clone, Debug, PartialEq, Eq)]
pub struct HeaderValue {
    pub key: String,
    pub value: String,
}

/// What contracts see of a response.
pub struct ResponseView {
    pub overall_code: int,
    pub request_headers_to_add: Seq<HeaderValue>,
    pub response_headers_to_add: Seq<HeaderValue>,
}

/// The answer to a request.
#[derive(Clone, Debug, PartialEq, Eq)]
pub struct RateLimitResponse {
    /// The wire number of a `Code`.
    pub overall_code: i32,
    pub request_headers_to_add: Vec<HeaderValue>,
    pub response_headers_to_add: Vec<HeaderValue>,
}

impl View for RateLimitResponse {
    type V = ResponseView;

    open spec fn view(&self) -> ResponseView {
        ResponseView {
            overall_code: self.overall_code as int,
            request_headers_to_add: self.request_headers_to_add@,
            response_headers_to_add: self.response_headers_to_add@,
        }
    }
}

/// The response that carries `code` and asks for no header.
pub open spec fn response_with(code: Code) -> ResponseView {
    ResponseView {
        overall_code: code.wire(),
        request_headers_to_add: Seq::empty(),
        response_headers_to_add: Seq::empty(),
    }
}

impl RateLimitResponse {
    /// Builds the response that carries `code` and asks for no header.
    pub fn with_code(code: Code) -> (response: RateLimitResponse)
        ensures
            response@ == response_with(code),
    {
        RateLimitResponse {
            overall_code: i32::from(code),
            request_headers_to_add: Vec::new(),
            response_headers_to_add: Vec::new(),
        }
    }
}

} // verus!
