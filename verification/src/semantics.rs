//! What each action comes to when the host's work is seen as three
//! functions: reading a text, applying an operator, writing a number.
//!
//! The engine itself knows nothing of these functions.  They serve to say
//! in one step what an action does to the state, and to say what it means
//! for the engine, reply after reply, to arrive there.
use crate::engine::EngineView;
use crate::number::Number;
use crate::protocol::{Reply, ReplyView, Request, RequestView};
use crate::state::{OperatorKind, StateView};
use vstd::prelude::*;

verus! {

/// The host's work as functions.
pub struct Host {
    /// The number that a text denotes, if it denotes one.
    pub parse: spec_fn(Seq<char>) -> Option<Number>,
    /// The result of an operator on a left and a right operand.
    pub compute: spec_fn(OperatorKind, Number, Number) -> Number,
    /// The text of a number.
    pub format: spec_fn(Number) -> Seq<char>,
}

impl Host {
    /// The host writes no number as the empty text.
    pub open spec fn wf(self) -> bool {
        forall|value: Number| #[trigger] (self.format)(value).len() > 0
    }

    /// The host's reply to a request.
    pub open spec fn answer(self, request: RequestView) -> ReplyView {
        match request {
            RequestView::Parse(text) => ReplyView::Parsed((self.parse)(text)),
            RequestView::Compute(op, left, right) => ReplyView::Computed(
                (self.compute)(op, left, right),
            ),
            RequestView::Format(value) => ReplyView::Formatted((self.format)(value)),
        }
    }

    /// The host reads the text that it writes for `value` as `value` again.
    pub open spec fn reads_back(self, value: Number) -> bool {
        (self.parse)((self.format)(value)) == Some(value)
    }
}

/// Every reply that the executable host may give is the reply of `model`.
pub open spec fn answers_as<H: Fn(Request) -> Reply>(host: H, model: Host) -> bool {
    forall|request: Request, reply: Reply|
        call_ensures(host, (request,), reply) ==> reply@ == model.answer(request@)
}

/// The executable host may give `reply` to the request that `engine` waits
/// with.
pub open spec fn may_answer<H: Fn(Request) -> Reply>(
    host: H,
    engine: EngineView,
    reply: ReplyView,
) -> bool {
    exists|request: Request, given: Reply|
        engine.request() == Some(request@) && given@ == reply && #[trigger] call_ensures(
            host,
            (request,),
            given,
        )
}

/// Each reply of `replies` is one that the executable host may give at its
/// turn, to an engine that starts as `start` and takes the replies one after
/// the other.
pub open spec fn given_by<H: Fn(Request) -> Reply>(
    host: H,
    start: EngineView,
    replies: Seq<ReplyView>,
) -> bool
    decreases replies.len(),
{
    replies.len() == 0 || (given_by(host, start, replies.drop_last()) && may_answer(
        host,
        start.supply_all(replies.drop_last()),
        replies.last(),
    ))
}

impl StateView {
    /// The state after the sign flip: a display that is a number shows the
    /// number under the opposite sign; any other display stays.
    pub open spec fn toggle_sign(self, host: Host) -> StateView {
        match (host.parse)(self.display) {
            Some(value) => self.with_display((host.format)(value.spec_negated())),
            None => self,
        }
    }

    /// The state after percent: a display that is a number shows a hundredth
    /// of it; any other display stays.
    pub open spec fn percent(self, host: Host) -> StateView {
        match (host.parse)(self.display) {
            Some(value) => self.with_display(
                (host.format)(
                    (host.compute)(OperatorKind::Divide, value, Number::spec_hundred()),
                ),
            ),
            None => self,
        }
    }

    /// The state after equals.
    ///
    /// Without a stored value, an operator and a display that is a number,
    /// nothing changes.  A division by a zero fails without being computed,
    /// and so does an operation whose result is a NaN.  Any other result is
    /// shown and stored.
    pub open spec fn equals(self, host: Host) -> StateView {
        match (self.stored_value, self.pending_operator, (host.parse)(self.display)) {
            (Some(left), Some(op), Some(right)) => {
                if op == OperatorKind::Divide && right.spec_is_zero() {
                    self.failed()
                } else {
                    let result = (host.compute)(op, left, right);
                    if result.spec_is_nan() {
                        self.failed()
                    } else {
                        self.resolved(result, (host.format)(result))
                    }
                }
            },
            _ => self,
        }
    }

    /// The text on the display once an operator has been chosen: the result
    /// of the operator that waited, where there is one with both operands, and
    /// the display as it was otherwise.  A division by zero is computed like
    /// any other operation here.
    pub open spec fn folded_display(self, host: Host) -> Seq<char> {
        match (self.stored_value, self.pending_operator, (host.parse)(self.display)) {
            (Some(left), Some(op), Some(right)) => (host.format)(
                (host.compute)(op, left, right),
            ),
            _ => self.display,
        }
    }

    /// The state after the choice of the operator `next`.
    pub open spec fn select_operator(self, host: Host, next: OperatorKind) -> StateView {
        let text = self.folded_display(host);
        self.operator_chosen(next, text, (host.parse)(text))
    }
}

impl EngineView {
    /// The engine after the host has answered up to `replies` requests, one
    /// after the other.
    pub open spec fn run(self, host: Host, replies: nat) -> EngineView
        decreases replies,
    {
        if replies == 0 {
            self
        } else {
            match self.request() {
                Some(request) => self.supply(host.answer(request)).run(
                    host,
                    (replies - 1) as nat,
                ),
                None => self,
            }
        }
    }

    /// The engine after the host has answered every request of the action in
    /// progress.
    pub open spec fn settle(self, host: Host) -> EngineView {
        self.run(host, self.phase.replies_left())
    }
}

} // verus!
