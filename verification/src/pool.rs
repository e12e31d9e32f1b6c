//! Connection pools: a blocking one and a non-blocking one, with the same
//! contract and different mechanics.

pub mod asynchronous;
pub mod blocking;
