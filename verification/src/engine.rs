//! The engine: the calculator's state together with the action in progress.
//!
//! Entering a digit and clearing are done at once.  The other four actions
//! need arithmetic, which the host does: such an action leaves the engine
//! waiting with a request, each reply moves it on, and the state changes in
//! one piece when the last reply has come.  A new action drops whatever was
//! in progress and starts from the state as it stands.
use crate::laws::{lemma_run_at_rest, lemma_run_rests};
use crate::number::Number;
use crate::protocol::{Reply, ReplyView, Request, RequestView};
use crate::semantics::{answers_as, given_by, Host};
use crate::state::{digit_key, CalculatorState, OperatorKind, StateView};
use vstd::prelude::*;
use vstd::string::*;

verus! {

/// Where an action stands.  What a waiting phase holds is what the coming
/// request and the final state are made of.
#[derive(Debug, PartialEq, Eq)]
pub enum Phase {
    /// No action is in progress.
    Idle,
    /// Sign flip: the display is being read.
    ToggleParse,
    /// Percent: the display is being read.
    PercentParse,
    /// Percent: the number read is being divided by one hundred.
    PercentDivide(Number),
    /// Sign flip or percent: the new value is being written out.
    UnaryFormat(Number),
    /// Equals: the display is being read as the right operand.
    EqualsParse { op: OperatorKind, left: Number },
    /// Equals: the operation is being computed.
    EqualsCompute { op: OperatorKind, left: Number, right: Number },
    /// Equals: the result is being written out.
    EqualsFormat(Number),
    /// Operator after operator: the display is being read as the right
    /// operand of the operator that waited.
    FoldParse { next: OperatorKind, op: OperatorKind, left: Number },
    /// Operator after operator: the operation that waited is being computed.
    FoldCompute { next: OperatorKind, op: OperatorKind, left: Number, right: Number },
    /// Operator after operator: its result is being written out.
    FoldFormat { next: OperatorKind, result: Number },
    /// Operator: the text that will be on the display is being read as the
    /// value to store.
    StoreParse { next: OperatorKind, text: String },
}

/// A phase as mathematical values.
pub enum PhaseView {
    Idle,
    ToggleParse,
    PercentParse,
    PercentDivide(Number),
    UnaryFormat(Number),
    EqualsParse { op: OperatorKind, left: Number },
    EqualsCompute { op: OperatorKind, left: Number, right: Number },
    EqualsFormat(Number),
    FoldParse { next: OperatorKind, op: OperatorKind, left: Number },
    FoldCompute { next: OperatorKind, op: OperatorKind, left: Number, right: Number },
    FoldFormat { next: OperatorKind, result: Number },
    StoreParse { next: OperatorKind, text: Seq<char> },
}

impl View for Phase {
    type V = PhaseView;

    open spec fn view(&self) -> PhaseView {
        match self {
            Phase::Idle => PhaseView::Idle,
            Phase::ToggleParse => PhaseView::ToggleParse,
            Phase::PercentParse => PhaseView::PercentParse,
            Phase::PercentDivide(value) => PhaseView::PercentDivide(*value),
            Phase::UnaryFormat(value) => PhaseView::UnaryFormat(*value),
            Phase::EqualsParse { op, left } => PhaseView::EqualsParse { op: *op, left: *left },
            Phase::EqualsCompute { op, left, right } => PhaseView::EqualsCompute {
                op: *op,
                left: *left,
                right: *right,
            },
            Phase::EqualsFormat(result) => PhaseView::EqualsFormat(*result),
            Phase::FoldParse { next, op, left } => PhaseView::FoldParse {
                next: *next,
                op: *op,
                left: *left,
            },
            Phase::FoldCompute { next, op, left, right } => PhaseView::FoldCompute {
                next: *next,
                op: *op,
                left: *left,
                right: *right,
            },
            Phase::FoldFormat { next, result } => PhaseView::FoldFormat {
                next: *next,
                result: *result,
            },
            Phase::StoreParse { next, text } => PhaseView::StoreParse { next: *next, text: text@ },
        }
    }
}

impl PhaseView {
    /// A text that is to become the display is not empty.
    pub open spec fn wf(self) -> bool {
        self matches PhaseView::StoreParse { text, .. } ==> text.len() > 0
    }

    /// The number of replies that the action in progress can still take.
    pub open spec fn replies_left(self) -> nat {
        match self {
            PhaseView::Idle => 0,
            PhaseView::ToggleParse => 2,
            PhaseView::PercentParse => 3,
            PhaseView::PercentDivide(_) => 2,
            PhaseView::UnaryFormat(_) => 1,
            PhaseView::EqualsParse { .. } => 3,
            PhaseView::EqualsCompute { .. } => 2,
            PhaseView::EqualsFormat(_) => 1,
            PhaseView::FoldParse { .. } => 4,
            PhaseView::FoldCompute { .. } => 3,
            PhaseView::FoldFormat { .. } => 2,
            PhaseView::StoreParse { .. } => 1,
        }
    }
}

/// An engine as mathematical values.
pub struct EngineView {
    pub state: StateView,
    pub phase: PhaseView,
}

impl EngineView {
    /// The engine at rest in `state`.
    pub open spec fn idle(state: StateView) -> EngineView {
        EngineView { state, phase: PhaseView::Idle }
    }

    /// The engine in `phase`, with the state as it is.
    pub open spec fn waiting(self, phase: PhaseView) -> EngineView {
        EngineView { state: self.state, phase }
    }

    /// No text that is shown, or is to be shown, is empty.
    pub open spec fn wf(self) -> bool {
        self.state.wf() && self.phase.wf()
    }

    /// What the engine waits for; `None` when it is at rest.
    pub open spec fn request(self) -> Option<RequestView> {
        match self.phase {
            PhaseView::Idle => None,
            PhaseView::ToggleParse => Some(RequestView::Parse(self.state.display)),
            PhaseView::PercentParse => Some(RequestView::Parse(self.state.display)),
            PhaseView::PercentDivide(value) => Some(
                RequestView::Compute(OperatorKind::Divide, value, Number::spec_hundred()),
            ),
            PhaseView::UnaryFormat(value) => Some(RequestView::Format(value)),
            PhaseView::EqualsParse { .. } => Some(RequestView::Parse(self.state.display)),
            PhaseView::EqualsCompute { op, left, right } => Some(
                RequestView::Compute(op, left, right),
            ),
            PhaseView::EqualsFormat(result) => Some(RequestView::Format(result)),
            PhaseView::FoldParse { .. } => Some(RequestView::Parse(self.state.display)),
            PhaseView::FoldCompute { op, left, right, .. } => Some(
                RequestView::Compute(op, left, right),
            ),
            PhaseView::FoldFormat { result, .. } => Some(RequestView::Format(result)),
            PhaseView::StoreParse { text, .. } => Some(RequestView::Parse(text)),
        }
    }

    /// The digit key `d` is entered at once.
    pub open spec fn enter_digit(self, d: Seq<char>) -> EngineView {
        EngineView::idle(self.state.enter_digit(d))
    }

    /// Clearing gives the fresh calculator at once.
    pub open spec fn clear(self) -> EngineView {
        EngineView::idle(StateView::initial())
    }

    /// The sign flip starts by reading the display.
    pub open spec fn toggle_sign(self) -> EngineView {
        self.waiting(PhaseView::ToggleParse)
    }

    /// Percent starts by reading the display.
    pub open spec fn percent(self) -> EngineView {
        self.waiting(PhaseView::PercentParse)
    }

    /// Equals starts by reading the display, if a stored value and an
    /// operator are there; else nothing happens.
    pub open spec fn equals(self) -> EngineView {
        match (self.state.stored_value, self.state.pending_operator) {
            (Some(left), Some(op)) => self.waiting(PhaseView::EqualsParse { op, left }),
            _ => EngineView::idle(self.state),
        }
    }

    /// Choosing an operator starts by resolving the one that waits, if a
    /// stored value and an operator are there; else by reading the display as
    /// the value to store.
    pub open spec fn select_operator(self, next: OperatorKind) -> EngineView {
        match (self.state.stored_value, self.state.pending_operator) {
            (Some(left), Some(op)) => self.waiting(PhaseView::FoldParse { next, op, left }),
            _ => self.waiting(PhaseView::StoreParse { next, text: self.state.display }),
        }
    }

    /// The engine after a reply.  A reply that does not answer the request is
    /// passed over.
    pub open spec fn supply(self, reply: ReplyView) -> EngineView {
        match (self.phase, reply) {
            (PhaseView::ToggleParse, ReplyView::Parsed(None)) => EngineView::idle(self.state),
            (PhaseView::ToggleParse, ReplyView::Parsed(Some(value))) => self.waiting(
                PhaseView::UnaryFormat(value.spec_negated()),
            ),
            (PhaseView::PercentParse, ReplyView::Parsed(None)) => EngineView::idle(self.state),
            (PhaseView::PercentParse, ReplyView::Parsed(Some(value))) => self.waiting(
                PhaseView::PercentDivide(value),
            ),
            (PhaseView::PercentDivide(_), ReplyView::Computed(quotient)) => self.waiting(
                PhaseView::UnaryFormat(quotient),
            ),
            (PhaseView::UnaryFormat(_), ReplyView::Formatted(text)) => if text.len() > 0 {
                EngineView::idle(self.state.with_display(text))
            } else {
                self
            },
            (PhaseView::EqualsParse { .. }, ReplyView::Parsed(None)) => EngineView::idle(
                self.state,
            ),
            (PhaseView::EqualsParse { op, left }, ReplyView::Parsed(Some(right))) => if op
                == OperatorKind::Divide && right.spec_is_zero() {
                EngineView::idle(self.state.failed())
            } else {
                self.waiting(PhaseView::EqualsCompute { op, left, right })
            },
            (PhaseView::EqualsCompute { .. }, ReplyView::Computed(result)) => if result.spec_is_nan() {
                EngineView::idle(self.state.failed())
            } else {
                self.waiting(PhaseView::EqualsFormat(result))
            },
            (PhaseView::EqualsFormat(result), ReplyView::Formatted(text)) => if text.len() > 0 {
                EngineView::idle(self.state.resolved(result, text))
            } else {
                self
            },
            (PhaseView::FoldParse { next, .. }, ReplyView::Parsed(None)) => self.waiting(
                PhaseView::StoreParse { next, text: self.state.display },
            ),
            (PhaseView::FoldParse { next, op, left }, ReplyView::Parsed(Some(right))) => self.waiting(
                PhaseView::FoldCompute { next, op, left, right },
            ),
            (PhaseView::FoldCompute { next, .. }, ReplyView::Computed(result)) => self.waiting(
                PhaseView::FoldFormat { next, result },
            ),
            (PhaseView::FoldFormat { next, .. }, ReplyView::Formatted(text)) => if text.len() > 0 {
                self.waiting(PhaseView::StoreParse { next, text })
            } else {
                self
            },
            (PhaseView::StoreParse { next, text }, ReplyView::Parsed(parsed)) => EngineView::idle(
                self.state.operator_chosen(next, text, parsed),
            ),
            _ => self,
        }
    }

    /// The engine after the replies of `replies`, one after the other.
    pub open spec fn supply_all(self, replies: Seq<ReplyView>) -> EngineView
        decreases replies.len(),
    {
        if replies.len() == 0 {
            self
        } else {
            self.supply_all(replies.drop_last()).supply(replies.last())
        }
    }
}

/// The calculator: its state and the action in progress.
#[derive(Debug, PartialEq, Eq)]
pub struct Engine {
    state: CalculatorState,
    phase: Phase,
}

impl View for Engine {
    type V = EngineView;

    closed spec fn view(&self) -> EngineView {
        EngineView { state: self.state@, phase: self.phase@ }
    }
}

impl Engine {
    #[verifier::type_invariant]
    spec fn inv(self) -> bool {
        self.phase@.wf()
    }

    /// A fresh calculator at rest.
    pub fn new() -> (r: Engine)
        ensures
            r@ == EngineView::idle(StateView::initial()),
            r@.wf(),
    {
        Engine { state: CalculatorState::new(), phase: Phase::Idle }
    }

    /// A calculator at rest in `state`.
    pub fn from_state(state: CalculatorState) -> (r: Engine)
        ensures
            r@ == EngineView::idle(state@),
            r@.wf(),
    {
        proof {
            use_type_invariant(&state);
        }
        Engine { state, phase: Phase::Idle }
    }

    /// The state as the last finished action left it; an action in progress
    /// is dropped.
    pub fn into_state(self) -> (r: CalculatorState)
        ensures
            r@ == self@.state,
            r@.wf(),
    {
        proof {
            use_type_invariant(&self.state);
        }
        self.state
    }

    /// The state as the last finished action left it.
    pub fn state(&self) -> (r: &CalculatorState)
        ensures
            r@ == self@.state,
    {
        &self.state
    }

    /// The text shown.
    pub fn display(&self) -> (r: &str)
        ensures
            r@ == self@.state.display,
            r@.len() > 0,
    {
        self.state.display()
    }

    /// Tells whether no action is in progress.
    pub fn is_idle(&self) -> (r: bool)
        ensures
            r == (self@.phase is Idle),
            r == (self@.request() is None),
    {
        match self.phase {
            Phase::Idle => true,
            _ => false,
        }
    }

    /// What the engine waits for; `None` when it is at rest.
    pub fn request(&self) -> (r: Option<Request>)
        ensures
            match r {
                Some(request) => self@.request() == Some(request@),
                None => self@.request() is None,
            },
    {
        match &self.phase {
            Phase::Idle => None,
            Phase::ToggleParse => Some(Request::Parse(String::from_str(self.state.display()))),
            Phase::PercentParse => Some(Request::Parse(String::from_str(self.state.display()))),
            Phase::PercentDivide(value) => Some(
                Request::Compute(OperatorKind::Divide, *value, Number::hundred()),
            ),
            Phase::UnaryFormat(value) => Some(Request::Format(*value)),
            Phase::EqualsParse { .. } => Some(
                Request::Parse(String::from_str(self.state.display())),
            ),
            Phase::EqualsCompute { op, left, right } => Some(Request::Compute(*op, *left, *right)),
            Phase::EqualsFormat(result) => Some(Request::Format(*result)),
            Phase::FoldParse { .. } => Some(Request::Parse(String::from_str(self.state.display()))),
            Phase::FoldCompute { op, left, right, .. } => Some(
                Request::Compute(*op, *left, *right),
            ),
            Phase::FoldFormat { result, .. } => Some(Request::Format(*result)),
            Phase::StoreParse { text, .. } => Some(Request::Parse(text.clone())),
        }
    }

    /// Enters the digit key `d`.
    pub fn enter_digit(self, d: &str) -> (r: Engine)
        requires
            digit_key(d@),
        ensures
            r@ == self@.enter_digit(d@),
            r@.wf(),
    {
        Engine { state: self.state.enter_digit(d), phase: Phase::Idle }
    }

    /// Clears the calculator.
    pub fn clear(self) -> (r: Engine)
        ensures
            r@ == self@.clear(),
            r@ == EngineView::idle(StateView::initial()),
            r@.wf(),
    {
        Engine { state: self.state.clear(), phase: Phase::Idle }
    }

    /// Starts the sign flip.
    pub fn toggle_sign(self) -> (r: Engine)
        ensures
            r@ == self@.toggle_sign(),
            r@.wf(),
    {
        proof {
            use_type_invariant(&self.state);
        }
        Engine { state: self.state, phase: Phase::ToggleParse }
    }

    /// Starts percent.
    pub fn percent(self) -> (r: Engine)
        ensures
            r@ == self@.percent(),
            r@.wf(),
    {
        proof {
            use_type_invariant(&self.state);
        }
        Engine { state: self.state, phase: Phase::PercentParse }
    }

    /// Starts equals.  Without a stored value or without an operator nothing
    /// happens, and the engine is at rest.
    pub fn equals(self) -> (r: Engine)
        ensures
            r@ == self@.equals(),
            r@.state == self@.state,
            self@.state.pending_operator is None ==> r@ == EngineView::idle(self@.state),
            r@.wf(),
    {
        proof {
            use_type_invariant(&self.state);
        }
        let phase = match (self.state.stored_value(), self.state.pending_operator()) {
            (Some(left), Some(op)) => Phase::EqualsParse { op, left },
            _ => Phase::Idle,
        };
        Engine { state: self.state, phase }
    }

    /// Starts the choice of the operator `next`.
    pub fn select_operator(self, next: OperatorKind) -> (r: Engine)
        ensures
            r@ == self@.select_operator(next),
            r@.wf(),
    {
        proof {
            use_type_invariant(&self.state);
        }
        let phase = match (self.state.stored_value(), self.state.pending_operator()) {
            (Some(left), Some(op)) => Phase::FoldParse { next, op, left },
            _ => Phase::StoreParse { next, text: String::from_str(self.state.display()) },
        };
        Engine { state: self.state, phase }
    }

    /// Takes a reply from the host.
    pub fn supply(self, reply: Reply) -> (r: Engine)
        ensures
            r@ == self@.supply(reply@),
            r@.wf(),
    {
        proof {
            use_type_invariant(&self);
            use_type_invariant(&self.state);
        }
        let Engine { state, phase } = self;
        match (phase, reply) {
            (Phase::ToggleParse, Reply::Parsed(None)) => Engine { state, phase: Phase::Idle },
            (Phase::ToggleParse, Reply::Parsed(Some(value))) => Engine {
                state,
                phase: Phase::UnaryFormat(value.negated()),
            },
            (Phase::PercentParse, Reply::Parsed(None)) => Engine { state, phase: Phase::Idle },
            (Phase::PercentParse, Reply::Parsed(Some(value))) => Engine {
                state,
                phase: Phase::PercentDivide(value),
            },
            (Phase::PercentDivide(_), Reply::Computed(quotient)) => Engine {
                state,
                phase: Phase::UnaryFormat(quotient),
            },
            (Phase::UnaryFormat(value), Reply::Formatted(text)) => {
                if text.as_str().is_empty() {
                    Engine { state, phase: Phase::UnaryFormat(value) }
                } else {
                    Engine { state: state.with_display(text), phase: Phase::Idle }
                }
            },
            (Phase::EqualsParse { .. }, Reply::Parsed(None)) => Engine {
                state,
                phase: Phase::Idle,
            },
            (Phase::EqualsParse { op, left }, Reply::Parsed(Some(right))) => {
                if is_divide(op) && right.is_zero() {
                    Engine { state: state.failed(), phase: Phase::Idle }
                } else {
                    Engine { state, phase: Phase::EqualsCompute { op, left, right } }
                }
            },
            (Phase::EqualsCompute { .. }, Reply::Computed(result)) => {
                if result.is_nan() {
                    Engine { state: state.failed(), phase: Phase::Idle }
                } else {
                    Engine { state, phase: Phase::EqualsFormat(result) }
                }
            },
            (Phase::EqualsFormat(result), Reply::Formatted(text)) => {
                if text.as_str().is_empty() {
                    Engine { state, phase: Phase::EqualsFormat(result) }
                } else {
                    Engine { state: state.resolved(result, text), phase: Phase::Idle }
                }
            },
            (Phase::FoldParse { next, .. }, Reply::Parsed(None)) => {
                let text = String::from_str(state.display());
                Engine { state, phase: Phase::StoreParse { next, text } }
            },
            (Phase::FoldParse { next, op, left }, Reply::Parsed(Some(right))) => Engine {
                state,
                phase: Phase::FoldCompute { next, op, left, right },
            },
            (Phase::FoldCompute { next, .. }, Reply::Computed(result)) => Engine {
                state,
                phase: Phase::FoldFormat { next, result },
            },
            (Phase::FoldFormat { next, result }, Reply::Formatted(text)) => {
                if text.as_str().is_empty() {
                    Engine { state, phase: Phase::FoldFormat { next, result } }
                } else {
                    Engine { state, phase: Phase::StoreParse { next, text } }
                }
            },
            (Phase::StoreParse { next, text }, Reply::Parsed(parsed)) => Engine {
                state: state.operator_chosen(next, text, parsed),
                phase: Phase::Idle,
            },
            (phase, _) => Engine { state, phase },
        }
    }
}

/// The most replies that an action takes.
pub const MOST_REPLIES: u8 = 4;

impl Engine {
    /// Lets `host` answer the requests of the action in progress until the
    /// engine is at rest, or `host` has been asked `MOST_REPLIES` times.
    ///
    /// Whatever the host answers, the engine that comes back is the one that
    /// its replies lead to, one after the other, and the state has changed
    /// only if the action has ended.  Where the host's work is that of three
    /// functions, the engine comes back at rest, in the state that the action
    /// has under those functions.
    pub fn settle<H: Fn(Request) -> Reply>(self, host: H) -> (r: Engine)
        requires
            forall|request: Request| call_requires(host, (request,)),
        ensures
            r@.wf(),
            self@.phase is Idle ==> r@ == self@,
            r@.state == self@.state || r@.phase is Idle,
            exists|replies: Seq<ReplyView>|
                {
                    &&& replies.len() <= MOST_REPLIES
                    &&& given_by(host, self@, replies)
                    &&& r@ == #[trigger] self@.supply_all(replies)
                    &&& r@.phase is Idle || replies.len() == MOST_REPLIES
                },
            forall|model: Host|
                model.wf() && #[trigger] answers_as(host, model) ==> r@ == self@.settle(model),
    {
        proof {
            use_type_invariant(&self);
            use_type_invariant(&self.state);
            assert forall|model: Host|
                model.wf() && #[trigger] answers_as(host, model) implies self@.run(
                model,
                MOST_REPLIES as nat,
            ) == self@.settle(model) by {
                lemma_run_rests(self@, model, MOST_REPLIES as nat);
            }
        }
        let ghost start = self@;
        let ghost mut given: Seq<ReplyView> = Seq::empty();
        let mut engine = self;
        let mut left: u8 = MOST_REPLIES;
        while left > 0 && !engine.is_idle()
            invariant
                forall|request: Request| call_requires(host, (request,)),
                start == self@,
                engine@.wf(),
                given.len() + left == MOST_REPLIES,
                engine@ == start.supply_all(given),
                given_by(host, start, given),
                engine@.state == start.state || engine@.phase is Idle,
                start.phase is Idle ==> engine@ == start,
                forall|model: Host|
                    model.wf() && #[trigger] answers_as(host, model) ==> engine@.run(
                        model,
                        left as nat,
                    ) == start.settle(model),
            decreases left,
        {
            if let Some(request) = engine.request() {
                let ghost before = engine@;
                let ghost earlier = given;
                let reply = host(request);
                engine = engine.supply(reply);
                left = left - 1;
                proof {
                    given = earlier.push(reply@);
                    assert(given.drop_last() =~= earlier);
                    assert forall|model: Host|
                        model.wf() && #[trigger] answers_as(host, model) implies engine@.run(
                        model,
                        left as nat,
                    ) == start.settle(model) by {
                        assert(reply@ == model.answer(request@));
                        assert(before.run(model, (left + 1) as nat) == engine@.run(
                            model,
                            left as nat,
                        ));
                    }
                }
            }
        }
        proof {
            assert forall|model: Host|
                model.wf() && #[trigger] answers_as(host, model) implies engine@ == start.settle(
                model,
            ) by {
                if engine@.phase is Idle {
                    lemma_run_at_rest(engine@, model, left as nat);
                }
            }
        }
        engine
    }
}

/// Tells whether the operator is the division.
fn is_divide(op: OperatorKind) -> (r: bool)
    ensures
        r == (op == OperatorKind::Divide),
{
    match op {
        OperatorKind::Divide => true,
        _ => false,
    }
}

} // verus!
