//! Fiat-Shamir challengers: transcript objects that turn observed field
//! elements into pseudorandom challenges.

pub mod duplex;
pub mod field;
pub mod linear;
pub mod poseidon;
pub mod transcript;
pub mod truncate;
