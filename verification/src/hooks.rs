//! Background reactors that run outside the request path: the scheduler's
//! clock and the decisions of the derivation, health and renewal passes.
pub mod acme;
pub mod derive;
pub mod live;
pub mod schedule;
