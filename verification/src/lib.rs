//! A pre-trade risk gate.
//!
//! Before an order is placed, the trading engine hands over its current
//! balance and statistics together with the configured limits. The answer is
//! either that trading may go on or the single limit that was breached,
//! rendered as a line for the operator.

pub mod decimal;
pub mod laws;
pub mod risk;
pub mod text;
pub mod types;
