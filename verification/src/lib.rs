//! Control logic of a single elevator car.
//!
//! The car serves a fixed range of floors. It admits floor calls into a
//! first-come-first-served plan and travels one floor per tick; its doors and
//! its motion exclude each other.
//!
//! [`Car`] is the mathematical model of the car and of its transitions,
//! [`Elevator`] the executable controller whose contracts are stated over
//! that model.
//!
//! - [`model`]: floors, modes, the car and what each event does to it.
//! - [`controller`]: the executable car.
//! - [`invariants`]: what stays true of the car whatever happens to it.
//! - [`operations`]: how calls, ticks and doors bear on one another.
//! - [`journey`]: the order in which calls are served over many events.

pub mod controller;
pub mod invariants;
pub mod journey;
pub mod model;
pub mod operations;

pub use crate::controller::{floors, Elevator};
pub use crate::model::{
    distance, heading, toward, valid_floor, Car, ElevatorError, Event, State, MAX_FLOOR,
    MIN_FLOOR,
};
