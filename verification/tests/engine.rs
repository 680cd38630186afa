use calculator_engine::engine::{Engine, MOST_REPLIES};
use calculator_engine::number::Number;
use calculator_engine::protocol::{Reply, Request};
use calculator_engine::state::{CalculatorState, OperatorKind};

fn number(x: f64) -> Number {
    Number { bits: x.to_bits() }
}

fn float(n: Number) -> f64 {
    f64::from_bits(n.bits)
}

fn host(request: Request) -> Reply {
    match request {
        Request::Parse(text) => Reply::Parsed(text.parse::<f64>().ok().map(number)),
        Request::Compute(op, left, right) => {
            let a = float(left);
            let b = float(right);
            Reply::Computed(number(match op {
                OperatorKind::Add => a + b,
                OperatorKind::Subtract => a - b,
                OperatorKind::Multiply => a * b,
                OperatorKind::Divide => a / b,
            }))
        }
        Request::Format(value) => Reply::Formatted(format!("{}", float(value))),
    }
}

fn step(engine: Engine) -> Engine {
    let request = engine.request().unwrap();
    engine.supply(host(request))
}

fn parse(text: &str) -> Option<Request> {
    Some(Request::Parse(text.to_string()))
}

fn typed(keys: &[&str]) -> Engine {
    let mut engine = Engine::new();
    for key in keys {
        engine = engine.enter_digit(key);
    }
    engine
}

#[test]
fn fresh_engine_is_at_rest() {
    let engine = Engine::new();
    assert!(engine.is_idle());
    assert_eq!(engine.request(), None);
    assert_eq!(engine.display(), "0");
    assert_eq!(*engine.state(), CalculatorState::new());
    assert_eq!(engine.into_state(), CalculatorState::new());
}

#[test]
fn engine_enters_digits_at_once() {
    let engine = typed(&["4", "2"]);
    assert!(engine.is_idle());
    assert_eq!(engine.display(), "42");
    assert_eq!(*engine.state(), CalculatorState::new().enter_digit("4").enter_digit("2"));
}

#[test]
fn engine_clears_at_once() {
    assert_eq!(typed(&["9", "."]).clear(), Engine::new());
    assert_eq!(Engine::new().clear(), Engine::new());
}

#[test]
fn clear_drops_the_action_in_progress() {
    let engine = typed(&["5"]).percent();
    assert!(!engine.is_idle());
    let engine = step(engine).clear();
    assert!(engine.is_idle());
    assert_eq!(engine, Engine::new());
}

#[test]
fn digit_drops_the_action_in_progress() {
    let engine = step(typed(&["5"]).percent());
    let engine = engine.enter_digit("1");
    assert!(engine.is_idle());
    assert_eq!(engine.display(), "51");
}

#[test]
fn action_drops_the_action_in_progress() {
    let engine = step(typed(&["5", "1"]).toggle_sign()).percent();
    assert_eq!(engine.request(), parse("51"));
    assert_eq!(engine.settle(host).display(), "0.51");
    let engine = step(typed(&["5"]).select_operator(OperatorKind::Add)).equals();
    assert!(!engine.is_idle());
    let engine = typed(&["5"]).select_operator(OperatorKind::Add).equals();
    assert!(engine.is_idle());
    assert_eq!(engine, typed(&["5"]));
}

#[test]
fn equals_without_operator_asks_nothing() {
    let engine = typed(&["1", "2"]).equals();
    assert!(engine.is_idle());
    assert_eq!(engine.request(), None);
    assert_eq!(engine, typed(&["1", "2"]));
}

#[test]
fn equals_without_stored_value_asks_nothing() {
    let engine = typed(&["."]).select_operator(OperatorKind::Add).settle(host);
    assert_eq!(engine.state().stored_value(), None);
    assert_eq!(engine.state().pending_operator(), Some(OperatorKind::Add));
    assert!(engine.equals().is_idle());
}

#[test]
fn percent_asks_for_a_division_by_one_hundred() {
    let engine = typed(&["5", "0"]).percent();
    assert_eq!(engine.request(), parse("50"));
    let engine = engine.supply(Reply::Parsed(Some(number(50.0))));
    assert_eq!(
        engine.request(),
        Some(Request::Compute(OperatorKind::Divide, number(50.0), number(100.0)))
    );
    let engine = engine.supply(Reply::Computed(number(0.5)));
    assert_eq!(engine.request(), Some(Request::Format(number(0.5))));
    assert_eq!(engine.display(), "50");
    let engine = engine.supply(Reply::Formatted("0.5".to_string()));
    assert!(engine.is_idle());
    assert_eq!(engine.display(), "0.5");
}

#[test]
fn percent_ends_on_a_display_that_is_no_number() {
    let engine = typed(&["."]).percent();
    assert_eq!(engine.request(), parse("."));
    let engine = engine.supply(Reply::Parsed(None));
    assert_eq!(engine, typed(&["."]));
}

#[test]
fn toggle_sign_asks_for_the_text_of_the_opposite_number() {
    let engine = typed(&["5"]).toggle_sign();
    assert_eq!(engine.request(), parse("5"));
    let engine = engine.supply(Reply::Parsed(Some(number(5.0))));
    assert_eq!(engine.request(), Some(Request::Format(number(-5.0))));
    let engine = engine.supply(Reply::Formatted("-5".to_string()));
    assert!(engine.is_idle());
    assert_eq!(engine.display(), "-5");
}

#[test]
fn toggle_sign_ends_on_a_display_that_is_no_number() {
    let engine = typed(&["."]).toggle_sign().supply(Reply::Parsed(None));
    assert_eq!(engine, typed(&["."]));
}

#[test]
fn equals_asks_for_parse_compute_and_format() {
    let engine = typed(&["7"]).select_operator(OperatorKind::Multiply).settle(host);
    let engine = engine.enter_digit("6").equals();
    assert_eq!(engine.request(), parse("6"));
    let engine = engine.supply(Reply::Parsed(Some(number(6.0))));
    assert_eq!(
        engine.request(),
        Some(Request::Compute(OperatorKind::Multiply, number(7.0), number(6.0)))
    );
    let engine = engine.supply(Reply::Computed(number(42.0)));
    assert_eq!(engine.request(), Some(Request::Format(number(42.0))));
    assert_eq!(engine.display(), "6");
    assert_eq!(engine.state().pending_operator(), Some(OperatorKind::Multiply));
    let engine = engine.supply(Reply::Formatted("42".to_string()));
    assert!(engine.is_idle());
    assert_eq!(engine.display(), "42");
    assert_eq!(engine.state().stored_value(), Some(number(42.0)));
    assert_eq!(engine.state().pending_operator(), None);
    assert!(engine.state().reset_on_next_digit());
}

#[test]
fn divide_by_zero_is_not_computed() {
    let engine = typed(&["8"]).select_operator(OperatorKind::Divide).settle(host);
    let engine = engine.enter_digit("0").equals();
    assert_eq!(engine.request(), parse("0"));
    let engine = engine.supply(Reply::Parsed(Some(number(0.0))));
    assert!(engine.is_idle());
    assert_eq!(engine.display(), "Error");
    assert_eq!(engine.state().stored_value(), Some(number(8.0)));
    assert_eq!(engine.state().pending_operator(), None);
    assert!(engine.state().reset_on_next_digit());
}

#[test]
fn other_operators_compute_on_zero() {
    let engine = typed(&["8"]).select_operator(OperatorKind::Multiply).settle(host);
    let engine = engine.enter_digit("0").equals();
    let engine = engine.supply(Reply::Parsed(Some(number(0.0))));
    assert_eq!(
        engine.request(),
        Some(Request::Compute(OperatorKind::Multiply, number(8.0), number(0.0)))
    );
}

#[test]
fn nan_result_is_not_written_out() {
    let engine = typed(&["8"]).select_operator(OperatorKind::Subtract).settle(host);
    let engine = engine.enter_digit("1").equals();
    let engine = engine.supply(Reply::Parsed(Some(number(1.0))));
    let engine = engine.supply(Reply::Computed(number(f64::NAN)));
    assert!(engine.is_idle());
    assert_eq!(engine.display(), "Error");
    assert_eq!(engine.state().stored_value(), Some(number(8.0)));
}

#[test]
fn operator_asks_for_fold_and_store() {
    let engine = typed(&["5"]).select_operator(OperatorKind::Add).settle(host);
    let engine = engine.enter_digit("3").select_operator(OperatorKind::Subtract);
    assert_eq!(engine.request(), parse("3"));
    let engine = engine.supply(Reply::Parsed(Some(number(3.0))));
    assert_eq!(
        engine.request(),
        Some(Request::Compute(OperatorKind::Add, number(5.0), number(3.0)))
    );
    let engine = engine.supply(Reply::Computed(number(8.0)));
    assert_eq!(engine.request(), Some(Request::Format(number(8.0))));
    let engine = engine.supply(Reply::Formatted("8".to_string()));
    assert_eq!(engine.request(), parse("8"));
    assert_eq!(engine.display(), "3");
    assert_eq!(engine.state().pending_operator(), Some(OperatorKind::Add));
    let engine = engine.supply(Reply::Parsed(Some(number(8.0))));
    assert!(engine.is_idle());
    assert_eq!(engine.display(), "8");
    assert_eq!(engine.state().stored_value(), Some(number(8.0)));
    assert_eq!(engine.state().pending_operator(), Some(OperatorKind::Subtract));
    assert!(engine.state().reset_on_next_digit());
}

#[test]
fn operator_fold_computes_a_division_by_zero() {
    let engine = typed(&["8"]).select_operator(OperatorKind::Divide).settle(host);
    let engine = engine.enter_digit("0").select_operator(OperatorKind::Add);
    let engine = engine.supply(Reply::Parsed(Some(number(0.0))));
    assert_eq!(
        engine.request(),
        Some(Request::Compute(OperatorKind::Divide, number(8.0), number(0.0)))
    );
}

#[test]
fn operator_skips_the_fold_on_a_display_that_is_no_number() {
    let engine = typed(&["5"]).select_operator(OperatorKind::Add).settle(host);
    let engine = engine.enter_digit(".").select_operator(OperatorKind::Multiply);
    assert_eq!(engine.request(), parse("."));
    let engine = engine.supply(Reply::Parsed(None));
    assert_eq!(engine.request(), parse("."));
    let engine = engine.supply(Reply::Parsed(None));
    assert!(engine.is_idle());
    assert_eq!(engine.display(), ".");
    assert_eq!(engine.state().stored_value(), Some(number(5.0)));
    assert_eq!(engine.state().pending_operator(), Some(OperatorKind::Multiply));
}

#[test]
fn first_operator_asks_for_the_display_only() {
    let engine = typed(&["5"]).select_operator(OperatorKind::Add);
    assert_eq!(engine.request(), parse("5"));
    let engine = engine.supply(Reply::Parsed(Some(number(5.0))));
    assert!(engine.is_idle());
    assert_eq!(engine.state().stored_value(), Some(number(5.0)));
}

#[test]
fn reply_of_another_kind_is_passed_over() {
    let engine = typed(&["5"]).percent();
    let engine = engine.supply(Reply::Computed(number(1.0)));
    assert_eq!(engine.request(), parse("5"));
    let engine = engine.supply(Reply::Formatted("9".to_string()));
    assert_eq!(engine.request(), parse("5"));
    let engine = engine.supply(Reply::Parsed(Some(number(5.0))));
    let engine = engine.supply(Reply::Parsed(Some(number(7.0))));
    let engine = engine.supply(Reply::Formatted("9".to_string()));
    assert_eq!(
        engine.request(),
        Some(Request::Compute(OperatorKind::Divide, number(5.0), number(100.0)))
    );
    assert_eq!(engine.display(), "5");
}

#[test]
fn reply_to_an_engine_at_rest_is_passed_over() {
    let engine = typed(&["5"]);
    let engine = engine.supply(Reply::Formatted("9".to_string()));
    let engine = engine.supply(Reply::Parsed(None));
    let engine = engine.supply(Reply::Parsed(Some(number(1.0))));
    let engine = engine.supply(Reply::Computed(number(1.0)));
    assert_eq!(engine, typed(&["5"]));
}

#[test]
fn empty_text_is_no_answer() {
    let engine = typed(&["5"]).toggle_sign();
    let engine = engine.supply(Reply::Parsed(Some(number(5.0))));
    let engine = engine.supply(Reply::Formatted(String::new()));
    assert_eq!(engine.request(), Some(Request::Format(number(-5.0))));
    assert_eq!(engine.display(), "5");
    let engine = engine.supply(Reply::Formatted("-5".to_string()));
    assert!(engine.is_idle());
    assert_eq!(engine.display(), "-5");
}

#[test]
fn state_changes_when_the_action_ends() {
    let before = typed(&["5"]).select_operator(OperatorKind::Add).settle(host).enter_digit("3");
    let state = before.state().clone();
    let mut engine = before.select_operator(OperatorKind::Multiply);
    let mut replies = 0;
    while !engine.is_idle() {
        assert_eq!(*engine.state(), state);
        engine = step(engine);
        replies += 1;
    }
    assert_eq!(replies, 4);
    assert_eq!(engine.display(), "8");
}

#[test]
fn actions_take_at_most_four_replies() {
    assert_eq!(MOST_REPLIES, 4);
    let count = |mut engine: Engine| {
        let mut replies = 0;
        while !engine.is_idle() {
            engine = step(engine);
            replies += 1;
        }
        replies
    };
    assert_eq!(count(typed(&["5"]).toggle_sign()), 2);
    assert_eq!(count(typed(&["5"]).percent()), 3);
    assert_eq!(count(typed(&["."]).percent()), 1);
    assert_eq!(count(typed(&["5"]).equals()), 0);
    assert_eq!(count(typed(&["5"]).select_operator(OperatorKind::Add)), 1);
    let waiting = || typed(&["5"]).select_operator(OperatorKind::Add).settle(host).enter_digit("2");
    assert_eq!(count(waiting().equals()), 3);
    assert_eq!(count(waiting().select_operator(OperatorKind::Add)), 4);
}

#[test]
fn settle_gives_the_state_of_the_steps() {
    let by_steps = step(step(step(typed(&["5", "0"]).percent())));
    let at_once = typed(&["5", "0"]).percent().settle(host);
    assert_eq!(at_once, by_steps);
    assert_eq!(at_once.display(), "0.5");
}

#[test]
fn settle_leaves_an_engine_at_rest() {
    assert_eq!(typed(&["5"]).settle(host), typed(&["5"]));
}

#[test]
fn settle_stops_asking_a_host_that_never_answers() {
    let asked = std::cell::Cell::new(0u32);
    let silent = |_: Request| {
        asked.set(asked.get() + 1);
        Reply::Computed(number(0.0))
    };
    let engine = typed(&["5"]).toggle_sign().settle(&silent);
    assert_eq!(asked.get(), 4);
    assert!(!engine.is_idle());
    assert_eq!(engine.request(), parse("5"));
    assert_eq!(engine.display(), "5");
}

#[test]
fn state_round_trips_through_the_engine() {
    let state = typed(&["5"]).select_operator(OperatorKind::Add).settle(host).into_state();
    let copy = state.clone();
    let engine = Engine::from_state(state);
    assert!(engine.is_idle());
    assert_eq!(*engine.state(), copy);
    assert_eq!(engine.enter_digit("1").equals().settle(host).display(), "6");
}

#[test]
fn into_state_drops_the_action_in_progress() {
    let state = step(typed(&["5"]).percent()).into_state();
    assert_eq!(state, CalculatorState::new().enter_digit("5"));
}
