//! What passes between a call and the decision engine: the question that is
//! put to the engine and the verdict that comes back.
//!
//! The engine itself is not part of this library. It is asked by whoever
//! drives a call, with the values of an `EngineCall`, and its answer is
//! handed back as a `CheckOutcome` or as its error.

use crate::context::AttributeContext;
use crate::envoy::Code;
use vstd::prelude::*;

verus! {

/// The verdict of the decision engine on one check.
#[derive(Clone, Copy, Debug, PartialEq, Eq, Structural)]
pub enum CheckOutcome {
    /// The hits were within every limit that matched.
    Allowed,
    /// A limit that matched was exceeded.
    Limited,
}

impl CheckOutcome {
    /// The verdict that stands for an engine's answer to "is this call rate
    /// limited?".
    pub open spec fn of(rate_limited: bool) -> CheckOutcome {
        if rate_limited {
            CheckOutcome::Limited
        } else {
            CheckOutcome::Allowed
        }
    }

    /// Returns the verdict that stands for an engine's answer to "is this
    /// call rate limited?".
    pub fn from_rate_limited(rate_limited: bool) -> (outcome: CheckOutcome)
        ensures
            outcome == CheckOutcome::of(rate_limited),
    {
        if rate_limited {
            CheckOutcome::Limited
        } else {
            CheckOutcome::Allowed
        }
    }

    /// The response code of a verdict.
    pub open spec fn code(self) -> Code {
        match self {
            CheckOutcome::Allowed => Code::WithinLimit,
            CheckOutcome::Limited => Code::OverLimit,
        }
    }

    /// Returns the response code of the verdict.
    pub fn response_code(self) -> (code: Code)
        ensures
            code == self.code(),
    {
        match self {
            CheckOutcome::Allowed => Code::WithinLimit,
            CheckOutcome::Limited => Code::OverLimit,
        }
    }
}

/// What contracts see of a question to the engine.
pub struct EngineCallView {
    pub namespace: Seq<char>,
    pub values: Map<Seq<char>, Seq<char>>,
    pub hits_addend: int,
}

/// One question to the decision engine: are `hits_addend` more hits in
/// `namespace`, for a call with the attributes `values`, over a limit? The
/// engine records the hits as it answers.
#[derive(Debug)]
pub struct EngineCall {
    pub namespace: String,
    pub values: AttributeContext,
    pub hits_addend: i64,
}

impl View for EngineCall {
    type V = EngineCallView;

    open spec fn view(&self) -> EngineCallView {
        EngineCallView {
            namespace: self.namespace@,
            values: self.values@,
            hits_addend: self.hits_addend as int,
        }
    }
}

} // verus!
