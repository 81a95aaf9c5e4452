//! Gamma lookup tables.
//!
//! A gamma table maps an index, read as an input between 0 and 1, to the
//! power-law value `input ^ gamma` (or `input ^ (1 / gamma)`), scaled to an
//! integer range. This library holds the rules of such tables, each stated
//! as a contract and proved:
//!
//! - `config`: the parameters of a table and the validator that admits a
//!   request as a configuration or says why not;
//! - `exponent`: when the bit pattern of an exponent is that of a number
//!   greater than zero;
//! - `width`: the integer types that entries can be stored in;
//! - `error`: the reasons for refusing a request, and their diagnostics;
//! - `table`: what is to be evaluated for each entry, and the table that the
//!   rounded samples give;
//! - `params`: the named parameters of a written request;
//! - `text`: names and numerals.
//!
//! The library works on integers alone. The power function is evaluated by
//! the caller, in floating point, on the points that a configuration hands
//! out.

pub mod config;
pub mod error;
pub mod exponent;
pub mod params;
pub mod table;
pub mod text;
pub mod width;
