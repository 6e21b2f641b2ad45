//! Configuration types for linear boosters: the update algorithm, the L1 and
//! L2 regularization terms, and their serialization into the flat list of
//! string pairs that the native training routine consumes.

pub mod parameters;
