//! The rows of the relational store. Their numeric columns are
//! arbitrary-precision decimals, which the conversions here bring into the
//! fixed-point domain.

pub mod coin;
pub mod events;
