//! US address standardization: the verified logic around the PAGC engine.
//!
//! The engine itself is a C library reached from `app/`; this crate holds
//! what decides around it: which inputs may be handed to the engine, how the
//! engine's raw record becomes a `StandardizedAddress`, and how an address is
//! rendered as one line of text.

pub mod address;
pub mod cstr;
pub mod parse;
pub mod standardize;
pub mod strings;
pub mod text;
