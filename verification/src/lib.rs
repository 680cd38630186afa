//! A four-function calculator engine.
//!
//! The calculator is a state ([`state::CalculatorState`]) and six actions on
//! it: entering a digit, clearing, choosing an operator, equals, percent and
//! the sign flip.  Operators are applied as they come, from the left, with no
//! precedence.
//!
//! Numbers are binary64 values, which the engine holds as bit patterns
//! ([`number::Number`]) and never computes with.  Reading a text as a number,
//! applying an operator and writing a number out are the work of a host,
//! which the engine asks through requests and replies ([`protocol`]).  An
//! action that needs the host can be taken in one step, with the host handed
//! in as a function ([`actions`]), or reply by reply ([`engine::Engine`]).
//!
//! What the actions do is stated over mathematical values in [`semantics`],
//! and [`laws`] holds what is proved of them.
pub mod actions;
pub mod engine;
pub mod laws;
pub mod number;
pub mod protocol;
pub mod semantics;
pub mod state;
