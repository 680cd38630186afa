//! What the engine asks of its host, and what the host answers.
//!
//! The engine does no arithmetic of its own.  Whenever an action needs the
//! display read as a number, two numbers combined, or a number written out,
//! the engine states the request and waits for the reply.
use crate::number::Number;
use crate::state::OperatorKind;
use vstd::prelude::*;

verus! {

/// A piece of work for the host.
#[derive(Debug, PartialEq, Eq)]
pub enum Request {
    /// Read the text as a number.
    Parse(String),
    /// Apply the operator to the left and the right operand.
    Compute(OperatorKind, Number, Number),
    /// Write the number as text.
    Format(Number),
}

/// A request as mathematical values.
pub enum RequestView {
    Parse(Seq<char>),
    Compute(OperatorKind, Number, Number),
    Format(Number),
}

impl View for Request {
    type V = RequestView;

    open spec fn view(&self) -> RequestView {
        match self {
            Request::Parse(text) => RequestView::Parse(text@),
            Request::Compute(op, left, right) => RequestView::Compute(*op, *left, *right),
            Request::Format(value) => RequestView::Format(*value),
        }
    }
}

/// The outcome of a piece of work.
#[derive(Debug, PartialEq, Eq)]
pub enum Reply {
    /// The number that the text denotes, or `None` where it denotes none.
    Parsed(Option<Number>),
    /// The result of the operator.
    Computed(Number),
    /// The text of the number.
    Formatted(String),
}

/// A reply as mathematical values.
pub enum ReplyView {
    Parsed(Option<Number>),
    Computed(Number),
    Formatted(Seq<char>),
}

impl View for Reply {
    type V = ReplyView;

    open spec fn view(&self) -> ReplyView {
        match self {
            Reply::Parsed(parsed) => ReplyView::Parsed(*parsed),
            Reply::Computed(result) => ReplyView::Computed(*result),
            Reply::Formatted(text) => ReplyView::Formatted(text@),
        }
    }
}

/// The reply is of the kind that the request asks for; a text is an answer
/// only if it is not empty.
pub open spec fn answers(request: RequestView, reply: ReplyView) -> bool {
    match (request, reply) {
        (RequestView::Parse(_), ReplyView::Parsed(_)) => true,
        (RequestView::Compute(_, _, _), ReplyView::Computed(_)) => true,
        (RequestView::Format(_), ReplyView::Formatted(text)) => text.len() > 0,
        _ => false,
    }
}

} // verus!
