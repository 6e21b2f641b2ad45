//! Parameter objects for configuring boosters.

pub mod linear;
