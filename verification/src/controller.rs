//! The executable car controller.

use crate::invariants::{
    lemma_close_doors_keeps_invariants, lemma_parked_is_well_formed,
    lemma_call_keeps_invariants, lemma_step_keeps_invariants,
};
use crate::model::{valid_floor, Car, ElevatorError, State, MAX_FLOOR, MIN_FLOOR};
use vstd::prelude::*;

verus! {

/// A single elevator car: its floor, its mode, and the calls it has yet to
/// serve, oldest first.
///
/// Every operation is defined for every car and keeps a well-formed car well
/// formed (see [`Elevator::wf`]). The fields are open to reading and
/// writing; a car put together by hand need not be well formed.
#[derive(Debug)]
pub struct Elevator {
    pub floor: i32,
    pub state: State,
    pub queue: Vec<i32>,
}

/// The floors of a queue as mathematical integers.
pub open spec fn floors(queue: Seq<i32>) -> Seq<int> {
    queue.map_values(|f: i32| f as int)
}

impl View for Elevator {
    type V = Car;

    open spec fn view(&self) -> Car {
        Car { position: self.floor as int, mode: self.state, pending: floors(self.queue@) }
    }
}

impl Clone for Elevator {
    /// An independent copy of the car.
    fn clone(&self) -> (copy: Elevator)
        ensures
            copy@ == self@,
    {
        Elevator { floor: self.floor, state: self.state, queue: self.queue.clone() }
    }
}

/// Tells whether `floor` lies within the served range.
fn serves(floor: i32) -> (ok: bool)
    ensures
        ok == valid_floor(floor as int),
{
    MIN_FLOOR <= floor && floor <= MAX_FLOOR
}

impl Elevator {
    /// The car stands at a served floor, every pending call is for a served
    /// floor and occurs once, and a moving car has a call pending.
    pub open spec fn wf(&self) -> bool {
        self@.wf()
    }

    /// A car at rest at `start_floor` with no calls.
    ///
    /// Refused with `InvalidFloor` exactly when `start_floor` is not served.
    pub fn new(start_floor: i32) -> (res: Result<Elevator, ElevatorError>)
        ensures
            res is Ok <==> valid_floor(start_floor as int),
            res matches Ok(car) ==> car@ == Car::parked(start_floor as int) && car.wf(),
            res matches Err(error) ==> error == ElevatorError::InvalidFloor(start_floor),
    {
        if !serves(start_floor) {
            return Err(ElevatorError::InvalidFloor(start_floor));
        }
        proof {
            lemma_parked_is_well_formed(start_floor as int);
        }
        Ok(Elevator { floor: start_floor, state: State::Idle, queue: Vec::new() })
    }

    /// The floor the car stands at.
    pub fn floor(&self) -> (floor: i32)
        ensures
            floor == self@.position,
    {
        self.floor
    }

    /// What the car is doing.
    pub fn state(&self) -> (state: State)
        ensures
            state == self@.mode,
    {
        self.state
    }

    /// The pending calls, oldest first.
    pub fn queue(&self) -> (queue: &[i32])
        ensures
            floors(queue@) == self@.pending,
    {
        self.queue.as_slice()
    }

    /// A snapshot of the whole car, independent of the car itself.
    pub fn status(&self) -> (snapshot: Elevator)
        ensures
            snapshot@ == self@,
    {
        self.clone()
    }

    /// Tells whether a call for `floor` is pending.
    fn queued(&self, floor: i32) -> (found: bool)
        ensures
            found == self@.pending.contains(floor as int),
    {
        let mut i: usize = 0;
        while i < self.queue.len()
            invariant
                i <= self.queue.len(),
                forall|k: int| 0 <= k < i ==> self.queue@[k] != floor,
            decreases self.queue.len() - i,
        {
            if self.queue[i] == floor {
                assert(self@.pending[i as int] == floor);
                return true;
            }
            i += 1;
        }
        false
    }

    /// Registers a call for `floor`.
    ///
    /// Refused with `InvalidFloor` exactly when `floor` is not served; the car
    /// is then left as it is. A call for the floor the car stands at, or for a
    /// floor already pending, succeeds and changes nothing. Any other call
    /// joins the end of the queue, and sets an idle car in motion towards
    /// `floor`.
    pub fn call(&mut self, floor: i32) -> (res: Result<(), ElevatorError>)
        ensures
            res is Ok <==> valid_floor(floor as int),
            res matches Err(error) ==> error == ElevatorError::InvalidFloor(floor) && final(self)@
                == old(self)@,
            final(self)@ == old(self)@.call(floor as int),
            old(self).wf() ==> final(self).wf(),
    {
        if !serves(floor) {
            return Err(ElevatorError::InvalidFloor(floor));
        }
        if floor == self.floor || self.queued(floor) {
            return Ok(());
        }
        self.queue.push(floor);
        if self.state == State::Idle {
            self.state = if floor > self.floor {
                State::MovingUp
            } else {
                State::MovingDown
            };
        }
        proof {
            if old(self).wf() {
                lemma_call_keeps_invariants(old(self)@, floor as int);
            }
        }
        Ok(())
    }

    /// Advances the car by one tick.
    ///
    /// Refused with `CannotMoveDoorsOpen` while the doors are open, leaving
    /// the car as it is, and with `EmptyQueue` when no call is pending, in
    /// which case the car falls idle. Otherwise the car moves one floor
    /// towards the oldest call; when it gets there the call is served and the
    /// doors open.
    pub fn step(&mut self) -> (res: Result<(), ElevatorError>)
        ensures
            res == old(self)@.step_result(),
            final(self)@ == old(self)@.step(),
            old(self).wf() ==> final(self).wf(),
            old(self)@.mode != State::DoorsOpen && final(self)@.mode == State::DoorsOpen
                ==> old(self)@.pending.len() > 0
                && final(self)@.position == old(self)@.pending[0]
                && final(self)@.pending == old(self)@.pending.drop_first(),
    {
        if self.state == State::DoorsOpen {
            return Err(ElevatorError::CannotMoveDoorsOpen);
        }
        let target: i32 = match self.queue.first() {
            Some(t) => *t,
            None => {
                self.state = State::Idle;
                return Err(ElevatorError::EmptyQueue);
            },
        };
        if target > self.floor {
            self.floor += 1;
            self.state = State::MovingUp;
        } else if target < self.floor {
            self.floor -= 1;
            self.state = State::MovingDown;
        }
        if self.floor == target {
            self.queue.remove(0);
            self.state = State::DoorsOpen;
        }
        proof {
            if old(self).wf() {
                lemma_step_keeps_invariants(old(self)@);
            }
        }
        Ok(())
    }

    /// Opens the doors of a car at rest.
    ///
    /// Refused with `DoorsAlreadyOpen` when they are open and with
    /// `CannotOpenWhileMoving` when the car is under way; the car is then left
    /// as it is.
    pub fn open_doors(&mut self) -> (res: Result<(), ElevatorError>)
        ensures
            res == old(self)@.open_doors_result(),
            final(self)@ == old(self)@.open_doors(),
            old(self).wf() ==> final(self).wf(),
    {
        match self.state {
            State::DoorsOpen => Err(ElevatorError::DoorsAlreadyOpen),
            State::MovingDown | State::MovingUp => Err(ElevatorError::CannotOpenWhileMoving),
            State::Idle => {
                self.state = State::DoorsOpen;
                Ok(())
            },
        }
    }

    /// Closes the doors.
    ///
    /// Refused with `DoorsAlreadyClosed` unless the doors are open; the car is
    /// then left as it is. Otherwise the car sets off towards the oldest
    /// pending call, or falls idle when none is pending.
    pub fn close_doors(&mut self) -> (res: Result<(), ElevatorError>)
        ensures
            res == old(self)@.close_doors_result(),
            final(self)@ == old(self)@.close_doors(),
            old(self).wf() ==> final(self).wf(),
    {
        match self.state {
            State::DoorsOpen => {
                if let Some(next) = self.queue.first() {
                    self.state = if *next > self.floor {
                        State::MovingUp
                    } else {
                        State::MovingDown
                    };
                } else {
                    self.state = State::Idle;
                }
                proof {
                    if old(self).wf() {
                        lemma_close_doors_keeps_invariants(old(self)@);
                    }
                }
                Ok(())
            },
            _ => Err(ElevatorError::DoorsAlreadyClosed),
        }
    }
}

} // verus!
