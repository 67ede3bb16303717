//! How the operations bear on the car and on one another.

use crate::model::{distance, toward, valid_floor, Car, ElevatorError, State};
use vstd::prelude::*;

verus! {

/// A call for a floor that is not served changes nothing, nor does a call
/// for the floor the car stands at, and a call made twice leaves the car as
/// the same call made once does.
pub proof fn lemma_call_is_idempotent(car: Car, floor: int)
    ensures
        !valid_floor(floor) ==> car.call(floor) == car,
        car.call(car.position) == car,
        car.call(floor).call(floor) == car.call(floor),
{
    if car.admits(floor) {
        // The floor just admitted is pending, so the second call finds it.
        assert(car.call(floor).pending.last() == floor);
    }
}

/// An admitted call joins the plan behind all pending ones; a call never
/// moves the car, and it changes the mode only to set an idle car in
/// motion.
pub proof fn lemma_call_joins_the_end(car: Car, floor: int)
    ensures
        car.call(floor).position == car.position,
        car.admits(floor) ==> car.call(floor).pending == car.pending.push(floor),
        !car.admits(floor) ==> car.call(floor).pending == car.pending,
        car.mode != State::Idle ==> car.call(floor).mode == car.mode,
{
}

/// A tick that opens the doors has brought the car to the floor that it has
/// just taken off the front of the plan.
pub proof fn lemma_doors_open_on_arrival(car: Car)
    requires
        car.mode != State::DoorsOpen,
        car.step().mode == State::DoorsOpen,
    ensures
        car.step_result() is Ok,
        car.pending.len() > 0,
        car.step().position == car.pending[0],
        car.step().pending == car.pending.drop_first(),
        distance(car.position, car.step().position) <= 1,
{
}

/// A tick moves the car by one floor at most, and an accepted one brings it
/// closer to its next stop. A tick takes at most the front call off the
/// plan, and does so only as the doors open.
pub proof fn lemma_step_is_one_floor(car: Car)
    ensures
        distance(car.position, car.step().position) <= 1,
        car.step_result() is Ok ==> car.step().position == toward(car.position, car.pending[0]),
        car.step_result() is Ok && car.position != car.pending[0] ==> distance(
            car.step().position,
            car.pending[0],
        ) == distance(car.position, car.pending[0]) - 1,
        car.step().pending == car.pending || (car.step().mode == State::DoorsOpen
            && car.pending.len() > 0 && car.step().pending == car.pending.drop_first()),
        car.step_result() is Err ==> car.step().position == car.position && car.step().pending
            == car.pending,
{
}

/// The doors leave the car where it is and the plan as it is.
pub proof fn lemma_doors_keep_position_and_plan(car: Car)
    ensures
        car.open_doors().position == car.position,
        car.open_doors().pending == car.pending,
        car.close_doors().position == car.position,
        car.close_doors().pending == car.pending,
{
}

/// A refused operation changes nothing, but for the tick refused for want
/// of a pending call, which puts the car to rest.
pub proof fn lemma_refusals_change_nothing(car: Car)
    ensures
        car.open_doors_result() is Err ==> car.open_doors() == car,
        car.close_doors_result() is Err ==> car.close_doors() == car,
        car.step_result() matches Err(ElevatorError::CannotMoveDoorsOpen) ==> car.step() == car,
        car.step_result() matches Err(ElevatorError::EmptyQueue) ==> car.step() == (Car {
            position: car.position,
            mode: State::Idle,
            pending: car.pending,
        }),
{
}

/// Doors and motion exclude each other: a moving car refuses to open its
/// doors, and a car with open doors refuses to move. A car on course never
/// accepts both a tick and a request to open the doors.
pub proof fn lemma_doors_and_motion_exclude(car: Car)
    ensures
        car.moving() ==> (car.open_doors_result() matches Err(
            ElevatorError::CannotOpenWhileMoving,
        )),
        car.moving() ==> car.open_doors() == car,
        car.mode == State::DoorsOpen ==> (car.step_result() matches Err(
            ElevatorError::CannotMoveDoorsOpen,
        )),
        car.mode == State::DoorsOpen ==> car.step() == car,
        car.on_course() ==> !(car.step_result() is Ok && car.open_doors_result() is Ok),
{
}

} // verus!
