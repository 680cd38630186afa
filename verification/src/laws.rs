//! What holds of the engine and of the actions, proved.
use crate::engine::{EngineView, PhaseView};
use crate::number::Number;
use crate::protocol::{answers, ReplyView};
use crate::semantics::Host;
use crate::state::{digit_key, error_text, is_zero_text, zero_text, OperatorKind, StateView};
use vstd::prelude::*;

verus! {

/// The digit keys of `keys`, entered one after the other.
pub open spec fn enter_digits(state: StateView, keys: Seq<Seq<char>>) -> StateView
    decreases keys.len(),
{
    if keys.len() == 0 {
        state
    } else {
        enter_digits(state, keys.drop_last()).enter_digit(keys.last())
    }
}

/// The texts of `keys`, written one after the other.
pub open spec fn concat(keys: Seq<Seq<char>>) -> Seq<char>
    decreases keys.len(),
{
    if keys.len() == 0 {
        Seq::empty()
    } else {
        concat(keys.drop_last()) + keys.last()
    }
}

/// Every text of `keys` is a key of the digit pad.
pub open spec fn digit_keys(keys: Seq<Seq<char>>) -> bool {
    forall|i: int| 0 <= i < keys.len() ==> digit_key(#[trigger] keys[i])
}

/// Digit keys are one character each, so as many characters are written as
/// keys were pressed.
pub proof fn lemma_concat_digit_keys(keys: Seq<Seq<char>>)
    requires
        digit_keys(keys),
    ensures
        concat(keys).len() == keys.len(),
    decreases keys.len(),
{
    if keys.len() > 0 {
        lemma_concat_digit_keys(keys.drop_last());
    }
}

/// Entering keys is entering the first `at` of them and then the others.
pub proof fn lemma_enter_digits_split(state: StateView, keys: Seq<Seq<char>>, at: int)
    requires
        0 <= at <= keys.len(),
    ensures
        enter_digits(state, keys) == enter_digits(
            enter_digits(state, keys.subrange(0, at)),
            keys.subrange(at, keys.len() as int),
        ),
    decreases keys.len() - at,
{
    let head = keys.subrange(0, at);
    let tail = keys.subrange(at, keys.len() as int);
    if at == keys.len() {
        assert(head =~= keys);
    } else {
        lemma_enter_digits_split(state, keys.drop_last(), at);
        assert(keys.drop_last().subrange(0, at) =~= head);
        assert(keys.drop_last().subrange(at, keys.len() - 1) =~= tail.drop_last());
    }
}

/// The text of keys is the text of the first `at` of them and then that of
/// the others.
pub proof fn lemma_concat_split(keys: Seq<Seq<char>>, at: int)
    requires
        0 <= at <= keys.len(),
    ensures
        concat(keys) == concat(keys.subrange(0, at)) + concat(
            keys.subrange(at, keys.len() as int),
        ),
    decreases keys.len() - at,
{
    let head = keys.subrange(0, at);
    let tail = keys.subrange(at, keys.len() as int);
    if at == keys.len() {
        assert(head =~= keys);
        assert(concat(keys) =~= concat(head) + concat(tail));
    } else {
        lemma_concat_split(keys.drop_last(), at);
        assert(keys.drop_last().subrange(0, at) =~= head);
        assert(keys.drop_last().subrange(at, keys.len() - 1) =~= tail.drop_last());
        assert(concat(keys) =~= concat(head) + concat(tail));
    }
}

/// One key entered on no keys at all: the text of a single key is the key.
proof fn lemma_single_key(state: StateView, keys: Seq<Seq<char>>)
    requires
        keys.len() == 1,
    ensures
        enter_digits(state, keys) == state.enter_digit(keys[0]),
        concat(keys) == keys[0],
{
    assert(enter_digits(state, keys.drop_last()) == state);
    assert(concat(keys.drop_last()) + keys.last() =~= keys[0]);
}

/// On a display that is being extended, digit keys are appended as they
/// come, and nothing else changes.
pub proof fn lemma_digits_extend(state: StateView, keys: Seq<Seq<char>>)
    requires
        state.wf(),
        digit_keys(keys),
        !state.reset_on_next_digit,
        !is_zero_text(state.display),
    ensures
        enter_digits(state, keys) == state.with_display(state.display + concat(keys)),
    decreases keys.len(),
{
    if keys.len() == 0 {
        assert(state.display + concat(keys) =~= state.display);
    } else {
        let front = keys.drop_last();
        lemma_digits_extend(state, front);
        let shown = state.display + concat(front);
        assert(!is_zero_text(shown)) by {
            lemma_concat_digit_keys(front);
            assert(shown.len() == 1 ==> shown =~= state.display);
        }
        assert(shown + keys.last() =~= state.display + concat(keys));
    }
}

/// On a display that is due to be replaced, the first digit key replaces it
/// and the others are appended: the display is the text of the keys.
///
/// This holds of one key, and of several unless the first is `0`: a display
/// that reads `0` is replaced once more.
pub proof fn lemma_digits_replace(state: StateView, keys: Seq<Seq<char>>)
    requires
        digit_keys(keys),
        state.reset_on_next_digit || is_zero_text(state.display),
        keys.len() == 1 || (keys.len() > 1 && !is_zero_text(keys[0])),
    ensures
        enter_digits(state, keys).display == concat(keys),
        !enter_digits(state, keys).reset_on_next_digit,
        enter_digits(state, keys).stored_value == state.stored_value,
        enter_digits(state, keys).pending_operator == state.pending_operator,
{
    let first = keys.subrange(0, 1);
    let rest = keys.subrange(1, keys.len() as int);
    lemma_single_key(state, first);
    if keys.len() == 1 {
        assert(first =~= keys);
    } else {
        lemma_enter_digits_split(state, keys, 1);
        lemma_concat_split(keys, 1);
        lemma_digits_extend(state.enter_digit(keys[0]), rest);
    }
}

/// On a fresh calculator the display is the text of the digit keys entered:
/// the first key replaces the `0`, the others are appended.
///
/// This holds of one key, and of several unless the first is `0`.
pub proof fn lemma_digits_from_fresh(keys: Seq<Seq<char>>)
    requires
        digit_keys(keys),
        keys.len() == 1 || (keys.len() > 1 && !is_zero_text(keys[0])),
    ensures
        enter_digits(StateView::initial(), keys).display == concat(keys),
{
    lemma_digits_replace(StateView::initial(), keys);
}

/// A display that is due to be replaced never gets longer than the keys
/// entered.
pub proof fn lemma_replaced_display_length(state: StateView, keys: Seq<Seq<char>>)
    requires
        digit_keys(keys),
        keys.len() > 0,
        state.reset_on_next_digit || is_zero_text(state.display),
    ensures
        enter_digits(state, keys).display.len() <= keys.len(),
        !enter_digits(state, keys).reset_on_next_digit,
    decreases keys.len(),
{
    let front = keys.drop_last();
    assert(digit_key(keys.last()));
    if front.len() > 0 {
        lemma_replaced_display_length(state, front);
    }
}

/// On a fresh calculator, `0` first and another key after it leave a display
/// that is shorter than the text of the keys: the `0` is replaced.
pub proof fn lemma_digits_after_leading_zero(keys: Seq<Seq<char>>)
    requires
        digit_keys(keys),
        keys.len() > 1,
        is_zero_text(keys[0]),
    ensures
        enter_digits(StateView::initial(), keys).display.len() < concat(keys).len(),
        enter_digits(StateView::initial(), keys).display != concat(keys),
{
    let fresh = StateView::initial();
    let rest = keys.subrange(1, keys.len() as int);
    lemma_single_key(fresh, keys.subrange(0, 1));
    assert(fresh.enter_digit(keys[0]) == fresh) by {
        assert(keys[0] =~= zero_text());
    }
    lemma_enter_digits_split(fresh, keys, 1);
    lemma_replaced_display_length(fresh, rest);
    lemma_concat_digit_keys(keys);
}

/// Entering a digit key keeps the display from being empty.
pub proof fn lemma_enter_digit_wf(state: StateView, d: Seq<char>)
    requires
        digit_key(d),
    ensures
        state.enter_digit(d).wf(),
{
}

/// A reply that answers the request brings the action in progress nearer
/// to its end, and keeps every text that is to be shown from being empty.
pub proof fn lemma_supply_advances(engine: EngineView, reply: ReplyView)
    requires
        engine.wf(),
        engine.request() matches Some(request) && answers(request, reply),
    ensures
        engine.supply(reply).phase.replies_left() < engine.phase.replies_left(),
        engine.supply(reply).wf(),
{
}

/// A reply that answers no request of the engine changes nothing.
pub proof fn lemma_supply_passes_over(engine: EngineView, reply: ReplyView)
    requires
        engine.request() matches Some(request) ==> !answers(request, reply),
    ensures
        engine.supply(reply) == engine,
{
}

/// The state changes in one piece: a reply either leaves it as it was or
/// ends the action.
pub proof fn lemma_supply_changes_state_at_rest(engine: EngineView, reply: ReplyView)
    ensures
        engine.supply(reply).state == engine.state || engine.supply(reply).phase is Idle,
{
}

/// An engine at rest stays as it is, however many replies the host is ready
/// to give.
pub proof fn lemma_run_at_rest(engine: EngineView, host: Host, replies: nat)
    requires
        engine.phase is Idle,
    ensures
        engine.run(host, replies) == engine,
{
    reveal_with_fuel(EngineView::run, 2);
}

/// A host that answers every request brings any action to its end, within
/// the number of replies that the phase allows.
pub proof fn lemma_settle_rests(engine: EngineView, host: Host)
    requires
        engine.wf(),
        host.wf(),
    ensures
        engine.settle(host).phase is Idle,
        engine.settle(host).wf(),
{
    lemma_run_rests(engine, host, engine.phase.replies_left());
}

/// A host that is ready to give as many replies as the phase allows brings
/// the action to its end.
pub proof fn lemma_run_rests(engine: EngineView, host: Host, replies: nat)
    requires
        engine.wf(),
        host.wf(),
        replies >= engine.phase.replies_left(),
    ensures
        engine.run(host, replies).phase is Idle,
        engine.run(host, replies).wf(),
        engine.run(host, replies) == engine.settle(host),
    decreases replies,
{
    reveal_with_fuel(EngineView::run, 2);
    match engine.request() {
        Some(request) => {
            let reply = host.answer(request);
            lemma_supply_advances(engine, reply);
            let next = engine.supply(reply);
            lemma_run_rests(next, host, (replies - 1) as nat);
            lemma_run_rests(next, host, (engine.phase.replies_left() - 1) as nat);
        },
        None => {},
    }
}

/// The sign flip, once the host has answered, is the sign flip of the
/// state.
pub proof fn lemma_toggle_sign_settles(engine: EngineView, host: Host)
    requires
        host.wf(),
    ensures
        engine.toggle_sign().settle(host) == EngineView::idle(engine.state.toggle_sign(host)),
{
    reveal_with_fuel(EngineView::run, 3);
}

/// Percent, once the host has answered, is percent of the state.
pub proof fn lemma_percent_settles(engine: EngineView, host: Host)
    requires
        host.wf(),
    ensures
        engine.percent().settle(host) == EngineView::idle(engine.state.percent(host)),
{
    reveal_with_fuel(EngineView::run, 4);
}

/// Equals, once the host has answered, is equals of the state.
pub proof fn lemma_equals_settles(engine: EngineView, host: Host)
    requires
        host.wf(),
    ensures
        engine.equals().settle(host) == EngineView::idle(engine.state.equals(host)),
{
    reveal_with_fuel(EngineView::run, 4);
}

/// The choice of an operator, once the host has answered, is the choice of
/// the operator on the state.
pub proof fn lemma_select_operator_settles(engine: EngineView, host: Host, next: OperatorKind)
    requires
        host.wf(),
    ensures
        engine.select_operator(next).settle(host) == EngineView::idle(
            engine.state.select_operator(host, next),
        ),
{
    reveal_with_fuel(EngineView::run, 5);
}

/// The actions keep the display from being empty, for a host that writes
/// no empty text.
pub proof fn lemma_actions_wf(state: StateView, host: Host, next: OperatorKind)
    requires
        state.wf(),
        host.wf(),
    ensures
        state.toggle_sign(host).wf(),
        state.percent(host).wf(),
        state.equals(host).wf(),
        state.select_operator(host, next).wf(),
{
}

/// Equals without a pending operator changes nothing.
pub proof fn lemma_equals_without_operator(state: StateView, host: Host)
    requires
        state.pending_operator is None,
    ensures
        state.equals(host) == state,
{
}

/// Equals without a pending operator asks nothing of the host: the engine
/// is at rest at once, in the state as it was.
pub proof fn lemma_equals_without_operator_rests(engine: EngineView)
    requires
        engine.state.pending_operator is None,
    ensures
        engine.equals() == EngineView::idle(engine.state),
{
}

/// Equals on a division by a zero shows `Error`, drops the operator and
/// keeps the stored value; the digit key that follows starts a new number.
pub proof fn lemma_division_by_zero(state: StateView, host: Host, d: Seq<char>)
    requires
        state.stored_value is Some,
        state.pending_operator == Some(OperatorKind::Divide),
        (host.parse)(state.display) matches Some(right) && right.spec_is_zero(),
        digit_key(d),
    ensures
        state.equals(host) == state.failed(),
        state.equals(host).display == error_text(),
        state.equals(host).pending_operator is None,
        state.equals(host).stored_value == state.stored_value,
        state.equals(host).reset_on_next_digit,
        state.equals(host).enter_digit(d).display == d,
{
}

/// Equals on a division by a zero ends with the reply that reads the
/// display: the division is never asked of the host.
pub proof fn lemma_division_by_zero_is_not_computed(engine: EngineView, reply: ReplyView)
    requires
        engine.state.stored_value is Some,
        engine.state.pending_operator == Some(OperatorKind::Divide),
        reply matches ReplyView::Parsed(Some(right)) && right.spec_is_zero(),
    ensures
        engine.equals().supply(reply) == EngineView::idle(engine.state.failed()),
{
}

/// Equals ends in one of three ways: nothing changes; the operation fails;
/// or a result that is no NaN is shown and stored.
pub proof fn lemma_equals_outcomes(state: StateView, host: Host)
    ensures
        ({
            let after = state.equals(host);
            ||| after == state
            ||| after == state.failed()
            ||| (after.stored_value matches Some(result) && !result.spec_is_nan() && after
                == state.resolved(result, (host.format)(result)))
        }),
{
}

/// The sign flip and percent change the display and nothing else.
pub proof fn lemma_unary_actions_keep_the_rest(state: StateView, host: Host)
    ensures
        state.toggle_sign(host) == state.with_display(state.toggle_sign(host).display),
        state.percent(host) == state.with_display(state.percent(host).display),
{
}

/// The sign flip twice gives the state back, where the display is the text
/// that the host writes for the number on it, and the host reads the text of
/// the opposite number back as that number.
pub proof fn lemma_toggle_sign_twice(state: StateView, host: Host)
    requires
        (host.parse)(state.display) matches Some(value) && (host.format)(value) == state.display
            && host.reads_back(value.spec_negated()),
    ensures
        state.toggle_sign(host).toggle_sign(host) == state,
{
    let value = (host.parse)(state.display)->Some_0;
    value.lemma_negated_twice();
}

/// Percent twice divides by one hundred twice, where the host reads the text
/// of the first quotient back as that quotient.
pub proof fn lemma_percent_twice(state: StateView, host: Host)
    requires
        (host.parse)(state.display) matches Some(value) && host.reads_back(
            (host.compute)(OperatorKind::Divide, value, Number::spec_hundred()),
        ),
    ensures
        ({
            let value = (host.parse)(state.display)->Some_0;
            let first = (host.compute)(OperatorKind::Divide, value, Number::spec_hundred());
            let second = (host.compute)(OperatorKind::Divide, first, Number::spec_hundred());
            state.percent(host).percent(host) == state.with_display((host.format)(second))
        }),
{
}

/// Operators fold from the left: with a stored value and an operator
/// waiting, the choice of the next operator shows the result of the one that
/// waited, stores what the host reads from that text, and leaves the next
/// operator waiting.
pub proof fn lemma_operators_fold_left(state: StateView, host: Host, next: OperatorKind)
    requires
        state.stored_value is Some,
        state.pending_operator is Some,
        (host.parse)(state.display) is Some,
    ensures
        ({
            let left = state.stored_value->Some_0;
            let op = state.pending_operator->Some_0;
            let right = (host.parse)(state.display)->Some_0;
            let text = (host.format)((host.compute)(op, left, right));
            let after = state.select_operator(host, next);
            &&& after.display == text
            &&& after.pending_operator == Some(next)
            &&& after.reset_on_next_digit
            &&& host.reads_back((host.compute)(op, left, right)) ==> after.stored_value == Some(
                (host.compute)(op, left, right),
            )
        }),
{
}

/// Whatever the replies, the sign flip and percent leave the state as it
/// was until they end, and end with another display and nothing else changed.
pub proof fn lemma_unary_action_ends(start: EngineView, replies: Seq<ReplyView>)
    requires
        start.phase is ToggleParse || start.phase is PercentParse,
    ensures
        ({
            let end = start.supply_all(replies);
            if end.phase is Idle {
                end.state == start.state.with_display(end.state.display)
            } else {
                end.state == start.state && (end.phase is ToggleParse || end.phase is PercentParse
                    || end.phase is PercentDivide || end.phase is UnaryFormat)
            }
        }),
    decreases replies.len(),
{
    if replies.len() > 0 {
        lemma_unary_action_ends(start, replies.drop_last());
    }
}

/// Whatever the replies, equals leaves the state as it was until it ends,
/// and ends in one of three ways: nothing has changed; the operation has
/// failed; or a result that is no NaN is stored, and some text is shown.
pub proof fn lemma_equals_ends(start: EngineView, replies: Seq<ReplyView>)
    requires
        start.phase is EqualsParse,
    ensures
        ({
            let end = start.supply_all(replies);
            if end.phase is Idle {
                ||| end.state == start.state
                ||| end.state == start.state.failed()
                ||| (end.state.stored_value matches Some(result) && !result.spec_is_nan()
                    && end.state == start.state.resolved(result, end.state.display))
            } else {
                &&& end.state == start.state
                &&& end.phase is EqualsParse || end.phase is EqualsCompute || end.phase
                    is EqualsFormat
                &&& end.phase matches PhaseView::EqualsFormat(result) ==> !result.spec_is_nan()
            }
        }),
    decreases replies.len(),
{
    if replies.len() > 0 {
        lemma_equals_ends(start, replies.drop_last());
    }
}

/// The operator that an action in progress will leave waiting.
pub open spec fn operator_in_progress(phase: PhaseView) -> Option<OperatorKind> {
    match phase {
        PhaseView::FoldParse { next, .. } => Some(next),
        PhaseView::FoldCompute { next, .. } => Some(next),
        PhaseView::FoldFormat { next, .. } => Some(next),
        PhaseView::StoreParse { next, .. } => Some(next),
        _ => None,
    }
}

/// Whatever the replies, the choice of an operator leaves the state as it
/// was until it ends, and ends with that operator waiting, a new number due,
/// and a stored value that is the old one or a number read by the host.
pub proof fn lemma_select_operator_ends(start: EngineView, replies: Seq<ReplyView>)
    requires
        operator_in_progress(start.phase) is Some,
    ensures
        ({
            let end = start.supply_all(replies);
            let next = operator_in_progress(start.phase)->Some_0;
            if end.phase is Idle {
                &&& end.state.pending_operator == Some(next)
                &&& end.state.reset_on_next_digit
                &&& end.state.stored_value == start.state.stored_value
                    || end.state.stored_value is Some
            } else {
                end.state == start.state && operator_in_progress(end.phase) == Some(next)
            }
        }),
    decreases replies.len(),
{
    if replies.len() > 0 {
        lemma_select_operator_ends(start, replies.drop_last());
    }
}

} // verus!
