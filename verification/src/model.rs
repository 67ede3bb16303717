//! The mathematical model: floors, modes, and the car as a state machine
//! driven by events.

use vstd::prelude::*;

verus! {

/// Lowest floor the car serves.
pub const MIN_FLOOR: i32 = 0;

/// Highest floor the car serves.
pub const MAX_FLOOR: i32 = 5;

/// `floor` lies within the range the car serves.
pub open spec fn valid_floor(floor: int) -> bool {
    MIN_FLOOR <= floor <= MAX_FLOOR
}

/// What the car is doing. Exactly one mode holds at any time.
#[derive(Debug, Clone, Copy, PartialEq, Eq, Structural)]
pub enum State {
    Idle,
    MovingUp,
    MovingDown,
    DoorsOpen,
}

/// Why an operation was refused.
#[derive(Debug, PartialEq, Eq, Structural)]
pub enum ElevatorError {
    /// The floor lies outside the served range.
    InvalidFloor(i32),
    DoorsAlreadyOpen,
    DoorsAlreadyClosed,
    CannotOpenWhileMoving,
    CannotMoveDoorsOpen,
    EmptyQueue,
}

/// The number of floors between `a` and `b`.
pub open spec fn distance(a: int, b: int) -> nat {
    if a <= b {
        (b - a) as nat
    } else {
        (a - b) as nat
    }
}

/// The floor next to `position` on the way to `target`; `position` itself
/// once the two agree.
pub open spec fn toward(position: int, target: int) -> int {
    if target > position {
        position + 1
    } else if target < position {
        position - 1
    } else {
        position
    }
}

/// The direction in which a car at `position` sets off for `target`: up for
/// a floor above, down for any other.
pub open spec fn heading(position: int, target: int) -> State {
    if target > position {
        State::MovingUp
    } else {
        State::MovingDown
    }
}

/// The car: where it is, what it is doing, and the floors it has yet to
/// visit, the next one first.
#[verifier::ext_equal]
pub struct Car {
    pub position: int,
    pub mode: State,
    pub pending: Seq<int>,
}

impl Car {
    /// A car at rest at `floor` with nothing to do.
    pub open spec fn parked(floor: int) -> Car {
        Car { position: floor, mode: State::Idle, pending: Seq::empty() }
    }

    /// The car is under way.
    pub open spec fn moving(self) -> bool {
        self.mode == State::MovingUp || self.mode == State::MovingDown
    }

    /// What holds of the car between any two operations: it stands at a
    /// served floor, every pending floor is served and occurs once, and a
    /// moving car has a destination. That open doors and motion exclude each
    /// other needs no clause: the car has one mode.
    pub open spec fn wf(self) -> bool {
        &&& valid_floor(self.position)
        &&& forall|i: int| 0 <= i < self.pending.len() ==> valid_floor(#[trigger] self.pending[i])
        &&& self.pending.no_duplicates()
        &&& self.moving() ==> self.pending.len() > 0
    }

    /// The mode agrees with the plan: an idle car has nothing pending, a
    /// moving car heads for its next stop, and a car with open doors is not
    /// asked for the floor it stands at.
    pub open spec fn on_course(self) -> bool {
        match self.mode {
            State::Idle => self.pending.len() == 0,
            State::MovingUp => self.pending.len() > 0 && self.pending[0] > self.position,
            State::MovingDown => self.pending.len() > 0 && self.pending[0] < self.position,
            State::DoorsOpen => !self.pending.contains(self.position),
        }
    }

    /// A call for `floor` is admitted: the floor is served, the car is not
    /// already there, and the floor is not already pending.
    pub open spec fn admits(self, floor: int) -> bool {
        valid_floor(floor) && floor != self.position && !self.pending.contains(floor)
    }

    /// The car after a call for `floor`. An admitted call joins the end of
    /// the plan and sets an idle car in motion; any other call changes
    /// nothing.
    pub open spec fn call(self, floor: int) -> Car {
        if self.admits(floor) {
            Car {
                position: self.position,
                mode: if self.mode == State::Idle {
                    heading(self.position, floor)
                } else {
                    self.mode
                },
                pending: self.pending.push(floor),
            }
        } else {
            self
        }
    }

    /// Whether a tick is accepted: the doors must be closed and a floor
    /// must be pending.
    pub open spec fn step_result(self) -> Result<(), ElevatorError> {
        if self.mode == State::DoorsOpen {
            Err(ElevatorError::CannotMoveDoorsOpen)
        } else if self.pending.len() == 0 {
            Err(ElevatorError::EmptyQueue)
        } else {
            Ok(())
        }
    }

    /// The tick brings the car to its next stop.
    pub open spec fn arrives(self) -> bool {
        self.step_result() is Ok && toward(self.position, self.pending[0]) == self.pending[0]
    }

    /// The car after one tick. With open doors nothing changes. With nothing
    /// pending the car falls idle. Otherwise it moves one floor towards its
    /// next stop; on reaching it the stop leaves the plan and the doors
    /// open.
    pub open spec fn step(self) -> Car {
        if self.mode == State::DoorsOpen {
            self
        } else if self.pending.len() == 0 {
            Car { position: self.position, mode: State::Idle, pending: self.pending }
        } else if self.arrives() {
            Car {
                position: self.pending[0],
                mode: State::DoorsOpen,
                pending: self.pending.drop_first(),
            }
        } else {
            Car {
                position: toward(self.position, self.pending[0]),
                mode: heading(self.position, self.pending[0]),
                pending: self.pending,
            }
        }
    }

    /// Whether the doors may be opened on request: only at rest.
    pub open spec fn open_doors_result(self) -> Result<(), ElevatorError> {
        match self.mode {
            State::DoorsOpen => Err(ElevatorError::DoorsAlreadyOpen),
            State::MovingUp | State::MovingDown => Err(ElevatorError::CannotOpenWhileMoving),
            State::Idle => Ok(()),
        }
    }

    /// The car after a request to open the doors.
    pub open spec fn open_doors(self) -> Car {
        if self.mode == State::Idle {
            Car { position: self.position, mode: State::DoorsOpen, pending: self.pending }
        } else {
            self
        }
    }

    /// Whether the doors may be closed: only when open.
    pub open spec fn close_doors_result(self) -> Result<(), ElevatorError> {
        if self.mode == State::DoorsOpen {
            Ok(())
        } else {
            Err(ElevatorError::DoorsAlreadyClosed)
        }
    }

    /// The car after a request to close the doors. Open doors close; the
    /// car then sets off for its next stop, or rests if none is pending.
    pub open spec fn close_doors(self) -> Car {
        if self.mode != State::DoorsOpen {
            self
        } else if self.pending.len() > 0 {
            Car {
                position: self.position,
                mode: heading(self.position, self.pending[0]),
                pending: self.pending,
            }
        } else {
            Car { position: self.position, mode: State::Idle, pending: self.pending }
        }
    }
}

/// What can happen to a car.
pub enum Event {
    /// A call for a floor.
    Call(int),
    /// One tick.
    Step,
    /// A request to open the doors.
    OpenDoors,
    /// A request to close the doors.
    CloseDoors,
}

impl Car {
    /// The car after `event`.
    pub open spec fn apply(self, event: Event) -> Car {
        match event {
            Event::Call(floor) => self.call(floor),
            Event::Step => self.step(),
            Event::OpenDoors => self.open_doors(),
            Event::CloseDoors => self.close_doors(),
        }
    }

    /// The car after `events`, the first of them applied first.
    pub open spec fn after(self, events: Seq<Event>) -> Car
        decreases events.len(),
    {
        if events.len() == 0 {
            self
        } else {
            self.apply(events[0]).after(events.drop_first())
        }
    }
}

} // verus!
