//! The accounting core of a fixed-supply token presale: the sale and
//! participant records, the sale window, and the purchase and refund
//! transitions, each of which either applies in full or changes nothing.

pub mod buy_token;
pub mod clock;
pub mod errors;
pub mod laws;
pub mod require_refund;
pub mod state;
