//! Strongly typed units for pricing transactions by weight.
//!
//! [`FeeRate`] is a rate in satoshis per thousand weight units, [`Amount`] a
//! number of satoshis and [`Weight`] a number of weight units. Every
//! function carries a contract over the mathematical value of its operands,
//! and Verus proves the contract against the code.
//!
//! Two families of arithmetic stand side by side. The `checked_` methods
//! take any operands and return `None` where the result does not fit in 64
//! bits. The operators `+`, `-`, `*`, `/`, their assigning forms and
//! `Iterator::sum` test nothing at run time; their preconditions ask the
//! caller for the proof that the result fits.
//!
//! One contract is believed and not proved: that of the call into the
//! `arbitrary` crate in [`fee_rate::fuzz`].

pub mod amount;
pub mod fee_rate;
pub mod weight;

pub use amount::Amount;
pub use fee_rate::parse::ParseFeeRateError;
pub use fee_rate::FeeRate;
pub use weight::Weight;
