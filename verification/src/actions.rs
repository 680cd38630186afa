//! The four actions that need arithmetic, each as one step from state to
//! state, with the host handed in as a function from request to reply.
use crate::engine::{Engine, EngineView};
use crate::laws::{
    lemma_equals_ends, lemma_equals_settles, lemma_percent_settles, lemma_select_operator_ends,
    lemma_select_operator_settles, lemma_toggle_sign_settles, lemma_unary_action_ends,
};
use crate::protocol::{Reply, ReplyView, Request};
use crate::semantics::{answers_as, Host};
use crate::state::{CalculatorState, OperatorKind};
use vstd::prelude::*;

verus! {

impl CalculatorState {
    /// Flips the sign of the number on the display.
    ///
    /// Whatever the host answers, only the display can change.  Where the
    /// host's work is that of three functions, the state is that of the sign
    /// flip under them: a display that is a number shows the number under the
    /// opposite sign, and any other display stays.
    pub fn toggle_sign<H: Fn(Request) -> Reply>(self, host: H) -> (r: CalculatorState)
        requires
            forall|request: Request| call_requires(host, (request,)),
        ensures
            r@.wf(),
            r@ == self@.with_display(r@.display),
            forall|model: Host|
                model.wf() && #[trigger] answers_as(host, model) ==> r@ == self@.toggle_sign(
                    model,
                ),
    {
        let started = Engine::from_state(self).toggle_sign();
        let ended = started.settle(host);
        proof {
            let replies = choose|replies: Seq<ReplyView>|
                ended@ == #[trigger] started@.supply_all(replies);
            lemma_unary_action_ends(started@, replies);
            assert forall|model: Host|
                model.wf() && #[trigger] answers_as(host, model) implies ended@.state
                == self@.toggle_sign(model) by {
                lemma_toggle_sign_settles(EngineView::idle(self@), model);
            }
        }
        ended.into_state()
    }

    /// Replaces the number on the display by a hundredth of it.
    ///
    /// Whatever the host answers, only the display can change.  Where the
    /// host's work is that of three functions, the state is that of percent
    /// under them: a display that is a number shows the number divided by one
    /// hundred, and any other display stays.
    pub fn percent<H: Fn(Request) -> Reply>(self, host: H) -> (r: CalculatorState)
        requires
            forall|request: Request| call_requires(host, (request,)),
        ensures
            r@.wf(),
            r@ == self@.with_display(r@.display),
            forall|model: Host|
                model.wf() && #[trigger] answers_as(host, model) ==> r@ == self@.percent(model),
    {
        let started = Engine::from_state(self).percent();
        let ended = started.settle(host);
        proof {
            let replies = choose|replies: Seq<ReplyView>|
                ended@ == #[trigger] started@.supply_all(replies);
            lemma_unary_action_ends(started@, replies);
            assert forall|model: Host|
                model.wf() && #[trigger] answers_as(host, model) implies ended@.state
                == self@.percent(model) by {
                lemma_percent_settles(EngineView::idle(self@), model);
            }
        }
        ended.into_state()
    }

    /// Resolves the operator that waits, with the stored value on its left
    /// and the number on the display on its right.
    ///
    /// Without a stored value or without an operator nothing changes.
    /// Whatever the host answers, equals ends in one of three ways: nothing
    /// has changed; the display reads `Error`, the operator is gone and the
    /// stored value is as it was; or a result that is no NaN is stored, the
    /// operator is gone and a new number is due.  Where the host's work is
    /// that of three functions, the state is that of equals under them.
    pub fn equals<H: Fn(Request) -> Reply>(self, host: H) -> (r: CalculatorState)
        requires
            forall|request: Request| call_requires(host, (request,)),
        ensures
            r@.wf(),
            self@.stored_value is None || self@.pending_operator is None ==> r@ == self@,
            r@ == self@ || r@ == self@.failed() || (r@.stored_value matches Some(result)
                && !result.spec_is_nan() && r@ == self@.resolved(result, r@.display)),
            forall|model: Host|
                model.wf() && #[trigger] answers_as(host, model) ==> r@ == self@.equals(model),
    {
        let started = Engine::from_state(self).equals();
        let ended = started.settle(host);
        proof {
            if started@.phase is EqualsParse {
                let replies = choose|replies: Seq<ReplyView>|
                    ended@ == #[trigger] started@.supply_all(replies);
                lemma_equals_ends(started@, replies);
            }
            assert forall|model: Host|
                model.wf() && #[trigger] answers_as(host, model) implies ended@.state
                == self@.equals(model) by {
                lemma_equals_settles(EngineView::idle(self@), model);
            }
        }
        ended.into_state()
    }

    /// Chooses the operator `next`, after resolving the one that waits.
    ///
    /// Whatever the host answers, either nothing has changed, or `next` waits,
    /// a new number is due, and the stored value is the old one or a number
    /// that the host has read.  Where the host's work is that of three
    /// functions, the state is that of the choice under them.
    pub fn select_operator<H: Fn(Request) -> Reply>(self, next: OperatorKind, host: H) -> (r:
        CalculatorState)
        requires
            forall|request: Request| call_requires(host, (request,)),
        ensures
            r@.wf(),
            r@ == self@ || (r@.pending_operator == Some(next) && r@.reset_on_next_digit && (
            r@.stored_value == self@.stored_value || r@.stored_value is Some)),
            forall|model: Host|
                model.wf() && #[trigger] answers_as(host, model) ==> r@ == self@.select_operator(
                    model,
                    next,
                ),
    {
        let started = Engine::from_state(self).select_operator(next);
        let ended = started.settle(host);
        proof {
            let replies = choose|replies: Seq<ReplyView>|
                ended@ == #[trigger] started@.supply_all(replies);
            lemma_select_operator_ends(started@, replies);
            assert forall|model: Host|
                model.wf() && #[trigger] answers_as(host, model) implies ended@.state
                == self@.select_operator(model, next) by {
                lemma_select_operator_settles(EngineView::idle(self@), model, next);
            }
        }
        ended.into_state()
    }
}

} // verus!
