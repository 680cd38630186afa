//! The calculator's state and the two actions that need no arithmetic:
//! entering a digit and clearing.
use crate::number::Number;
use vstd::prelude::*;
use vstd::string::*;

verus! {

/// The four binary operators of the calculator.
#[derive(Clone, Copy, Debug, PartialEq, Eq, Structural)]
pub enum OperatorKind {
    Add,
    Subtract,
    Multiply,
    Divide,
}

/// The display of a fresh calculator: the single character `0`.
pub open spec fn zero_text() -> Seq<char> {
    seq!['0']
}

/// The text is the single character `0`.
pub open spec fn is_zero_text(text: Seq<char>) -> bool {
    text.len() == 1 && text[0] == '0'
}

/// The display after a division by zero.
pub open spec fn error_text() -> Seq<char> {
    seq!['E', 'r', 'r', 'o', 'r']
}

/// A key of the digit pad: one of the ten digits, or the decimal point.
pub open spec fn digit_key(d: Seq<char>) -> bool {
    d.len() == 1 && (d[0] == '.' || ('0' <= d[0] && d[0] <= '9'))
}

/// What a calculator state holds, as mathematical values.
pub struct StateView {
    /// The text shown.
    pub display: Seq<char>,
    /// The left operand kept since an operator was chosen, or the last result.
    pub stored_value: Option<Number>,
    /// The operator that waits for its right operand.
    pub pending_operator: Option<OperatorKind>,
    /// The next digit starts a new number instead of extending the display.
    pub reset_on_next_digit: bool,
}

impl StateView {
    /// The state of a fresh calculator.
    pub open spec fn initial() -> StateView {
        StateView {
            display: zero_text(),
            stored_value: None,
            pending_operator: None,
            reset_on_next_digit: false,
        }
    }

    /// The display is never empty.
    pub open spec fn wf(self) -> bool {
        self.display.len() > 0
    }

    /// The state after the digit key `d`.
    ///
    /// The key replaces the display when a new number is due or the display is
    /// the lone `0`, and is appended otherwise.  Nothing else is looked at: a
    /// second decimal point is appended like any other key.
    pub open spec fn enter_digit(self, d: Seq<char>) -> StateView {
        if self.reset_on_next_digit {
            StateView { display: d, reset_on_next_digit: false, ..self }
        } else if is_zero_text(self.display) {
            StateView { display: d, ..self }
        } else {
            StateView { display: self.display + d, ..self }
        }
    }

    /// The state with another display and everything else as it was.
    pub open spec fn with_display(self, text: Seq<char>) -> StateView {
        StateView { display: text, ..self }
    }

    /// The state once the pending operation has given `result`, shown as
    /// `text`.
    pub open spec fn resolved(self, result: Number, text: Seq<char>) -> StateView {
        StateView {
            display: text,
            stored_value: Some(result),
            pending_operator: None,
            reset_on_next_digit: true,
        }
    }

    /// The state once the pending operation has failed: the display reads
    /// `Error`, the operator is gone and the stored value stays as it was.
    pub open spec fn failed(self) -> StateView {
        StateView {
            display: error_text(),
            stored_value: self.stored_value,
            pending_operator: None,
            reset_on_next_digit: true,
        }
    }

    /// The state once `op` has been chosen with `text` on the display, which
    /// the host read as `parsed`.  A display that is no number leaves the
    /// stored value as it was.
    pub open spec fn operator_chosen(
        self,
        op: OperatorKind,
        text: Seq<char>,
        parsed: Option<Number>,
    ) -> StateView {
        StateView {
            display: text,
            stored_value: if parsed is Some { parsed } else { self.stored_value },
            pending_operator: Some(op),
            reset_on_next_digit: true,
        }
    }
}

/// The state of the calculator.
#[derive(Debug, PartialEq, Eq)]
pub struct CalculatorState {
    display: String,
    stored_value: Option<Number>,
    pending_operator: Option<OperatorKind>,
    reset_on_next_digit: bool,
}

impl View for CalculatorState {
    type V = StateView;

    closed spec fn view(&self) -> StateView {
        StateView {
            display: self.display@,
            stored_value: self.stored_value,
            pending_operator: self.pending_operator,
            reset_on_next_digit: self.reset_on_next_digit,
        }
    }
}

impl Clone for CalculatorState {
    fn clone(&self) -> (r: CalculatorState)
        ensures
            r@ == self@,
    {
        proof {
            use_type_invariant(self);
        }
        CalculatorState {
            display: self.display.clone(),
            stored_value: self.stored_value,
            pending_operator: self.pending_operator,
            reset_on_next_digit: self.reset_on_next_digit,
        }
    }
}

/// Tells whether `d` is a key of the digit pad.
pub fn is_digit_key(d: &str) -> (r: bool)
    ensures
        r == digit_key(d@),
{
    if d.unicode_len() != 1 {
        return false;
    }
    let c = d.get_char(0);
    c == '.' || ('0' <= c && c <= '9')
}

/// Tells whether `s` is the single character `0`.
fn shows_zero(s: &str) -> (r: bool)
    ensures
        r == is_zero_text(s@),
{
    if s.unicode_len() != 1 {
        return false;
    }
    s.get_char(0) == '0'
}

impl CalculatorState {
    #[verifier::type_invariant]
    pub open spec fn inv(self) -> bool {
        self@.wf()
    }

    /// The state of a fresh calculator.
    pub fn new() -> (r: CalculatorState)
        ensures
            r@ == StateView::initial(),
            r@.wf(),
    {
        proof {
            reveal_strlit("0");
        }
        let display = String::from_str("0");
        assert(display@ =~= zero_text());
        CalculatorState {
            display,
            stored_value: None,
            pending_operator: None,
            reset_on_next_digit: false,
        }
    }

    /// The state after the digit key `d`.
    pub fn enter_digit(self, d: &str) -> (r: CalculatorState)
        requires
            digit_key(d@),
        ensures
            r@ == self@.enter_digit(d@),
            r@.wf(),
    {
        proof {
            use_type_invariant(&self);
        }
        if self.reset_on_next_digit {
            CalculatorState {
                display: String::from_str(d),
                stored_value: self.stored_value,
                pending_operator: self.pending_operator,
                reset_on_next_digit: false,
            }
        } else if shows_zero(self.display.as_str()) {
            CalculatorState {
                display: String::from_str(d),
                stored_value: self.stored_value,
                pending_operator: self.pending_operator,
                reset_on_next_digit: self.reset_on_next_digit,
            }
        } else {
            CalculatorState {
                display: self.display.concat(d),
                stored_value: self.stored_value,
                pending_operator: self.pending_operator,
                reset_on_next_digit: self.reset_on_next_digit,
            }
        }
    }

    /// The state of a fresh calculator, whatever the state was.
    pub fn clear(self) -> (r: CalculatorState)
        ensures
            r@ == StateView::initial(),
            r@.wf(),
    {
        CalculatorState::new()
    }

    /// The state with another display and everything else as it was.
    pub(crate) fn with_display(self, text: String) -> (r: CalculatorState)
        requires
            text@.len() > 0,
        ensures
            r@ == self@.with_display(text@),
    {
        CalculatorState {
            display: text,
            stored_value: self.stored_value,
            pending_operator: self.pending_operator,
            reset_on_next_digit: self.reset_on_next_digit,
        }
    }

    /// The state once the pending operation has given `result`, shown as
    /// `text`.
    pub(crate) fn resolved(self, result: Number, text: String) -> (r: CalculatorState)
        requires
            text@.len() > 0,
        ensures
            r@ == self@.resolved(result, text@),
    {
        CalculatorState {
            display: text,
            stored_value: Some(result),
            pending_operator: None,
            reset_on_next_digit: true,
        }
    }

    /// The state once the pending operation has failed.
    pub(crate) fn failed(self) -> (r: CalculatorState)
        ensures
            r@ == self@.failed(),
    {
        proof {
            reveal_strlit("Error");
        }
        let display = String::from_str("Error");
        assert(display@ =~= error_text());
        CalculatorState {
            display,
            stored_value: self.stored_value,
            pending_operator: None,
            reset_on_next_digit: true,
        }
    }

    /// The state once `op` has been chosen with `text` on the display, which
    /// the host read as `parsed`.
    pub(crate) fn operator_chosen(
        self,
        op: OperatorKind,
        text: String,
        parsed: Option<Number>,
    ) -> (r: CalculatorState)
        requires
            text@.len() > 0,
        ensures
            r@ == self@.operator_chosen(op, text@, parsed),
    {
        let stored_value = match parsed {
            Some(value) => Some(value),
            None => self.stored_value,
        };
        CalculatorState {
            display: text,
            stored_value,
            pending_operator: Some(op),
            reset_on_next_digit: true,
        }
    }

    /// The text shown.
    pub fn display(&self) -> (r: &str)
        ensures
            r@ == self@.display,
            r@.len() > 0,
    {
        proof {
            use_type_invariant(self);
        }
        self.display.as_str()
    }

    /// The left operand kept since an operator was chosen, or the last result.
    pub fn stored_value(&self) -> (r: Option<Number>)
        ensures
            r == self@.stored_value,
    {
        self.stored_value
    }

    /// The operator that waits for its right operand.
    pub fn pending_operator(&self) -> (r: Option<OperatorKind>)
        ensures
            r == self@.pending_operator,
    {
        self.pending_operator
    }

    /// Whether the next digit starts a new number.
    pub fn reset_on_next_digit(&self) -> (r: bool)
        ensures
            r == self@.reset_on_next_digit,
    {
        self.reset_on_next_digit
    }
}

} // verus!
