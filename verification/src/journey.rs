//! The car over a whole sequence of events: calls are served in the order
//! in which they were made, and a car that is kept going serves them all.

use crate::model::{distance, Car, Event, State};
use vstd::prelude::*;

verus! {

impl Car {
    /// The floor that `event` adds to the plan, if it adds one.
    pub open spec fn admitted_by(self, event: Event) -> Seq<int> {
        match event {
            Event::Call(floor) if self.admits(floor) => seq![floor],
            _ => Seq::empty(),
        }
    }

    /// The floor at which `event` opens the doors on arrival, if it does.
    pub open spec fn served_by(self, event: Event) -> Seq<int> {
        match event {
            Event::Step if self.arrives() => seq![self.pending[0]],
            _ => Seq::empty(),
        }
    }

    /// The floors that `events` add to the plan, in the order of the calls.
    pub open spec fn admitted(self, events: Seq<Event>) -> Seq<int>
        decreases events.len(),
    {
        if events.len() == 0 {
            Seq::empty()
        } else {
            self.admitted_by(events[0]) + self.apply(events[0]).admitted(events.drop_first())
        }
    }

    /// The floors at which the doors open on arrival in the course of
    /// `events`, in the order in which the car gets there.
    pub open spec fn served(self, events: Seq<Event>) -> Seq<int>
        decreases events.len(),
    {
        if events.len() == 0 {
            Seq::empty()
        } else {
            self.served_by(events[0]) + self.apply(events[0]).served(events.drop_first())
        }
    }

    /// What a driver does next who closes open doors and otherwise moves
    /// on.
    pub open spec fn next_move(self) -> Event {
        if self.mode == State::DoorsOpen {
            Event::CloseDoors
        } else {
            Event::Step
        }
    }

    /// The first `n` moves of such a driver.
    pub open spec fn moves(self, n: nat) -> Seq<Event>
        decreases n,
    {
        if n == 0 {
            Seq::empty()
        } else {
            seq![self.next_move()] + self.apply(self.next_move()).moves((n - 1) as nat)
        }
    }

    /// The number of moves after which such a driver has nothing left to
    /// do.
    pub open spec fn duration(self) -> nat {
        if self.mode == State::DoorsOpen {
            1 + itinerary(self.position, self.pending)
        } else {
            itinerary(self.position, self.pending)
        }
    }
}

/// The ticks a car with closed doors at `position` takes until its doors
/// open at `target`: one for each floor, and one where it is there already.
pub open spec fn leg(position: int, target: int) -> nat {
    if position == target {
        1
    } else {
        distance(position, target)
    }
}

/// The moves in which a car with closed doors at `position` serves
/// `pending` and comes to rest: for each stop the ticks that take it there
/// and one move to close the doors.
pub open spec fn itinerary(position: int, pending: Seq<int>) -> nat
    decreases pending.len(),
{
    if pending.len() == 0 {
        0
    } else {
        leg(position, pending[0]) + 1 + itinerary(pending[0], pending.drop_first())
    }
}

/// One event takes a floor off the front of the plan as it serves it, or
/// adds one to the back as it admits it, or leaves the plan alone.
pub proof fn lemma_event_keeps_order(car: Car, event: Event)
    ensures
        car.served_by(event) + car.apply(event).pending == car.pending + car.admitted_by(event),
{
}

/// First come, first served. Whatever the car and whatever happens to it,
/// the floors it has served followed by those still pending are the floors
/// that were pending followed by those admitted since, all in their order:
/// no call overtakes another, none is lost, and none is served that was not
/// made.
pub proof fn lemma_first_come_first_served(car: Car, events: Seq<Event>)
    ensures
        car.served(events) + car.after(events).pending == car.pending + car.admitted(events),
    decreases events.len(),
{
    if events.len() > 0 {
        let now = events[0];
        let rest = events.drop_first();
        let next = car.apply(now);
        let last = car.after(events);
        lemma_event_keeps_order(car, now);
        lemma_first_come_first_served(next, rest);
        assert(car.served(events) + last.pending == car.served_by(now) + (next.served(rest)
            + last.pending));
        assert(car.served_by(now) + (next.pending + next.admitted(rest)) == (car.served_by(now)
            + next.pending) + next.admitted(rest));
        assert((car.pending + car.admitted_by(now)) + next.admitted(rest) == car.pending
            + car.admitted(events));
    }
}

/// Each move with work left brings the driver one move closer to the end
/// of the work.
pub proof fn lemma_move_shortens_duration(car: Car)
    ensures
        car.duration() > 0 ==> car.apply(car.next_move()).duration() == car.duration() - 1,
        car.duration() == 0 ==> car.apply(car.next_move()).duration() == 0,
{
}

/// Kept going for its duration or longer with no further calls, the car
/// stops at each pending floor, in the order of the calls, and ends with
/// nothing pending at the floor of the last call.
pub proof fn lemma_all_calls_are_served(car: Car, n: nat)
    requires
        n >= car.duration(),
    ensures
        car.served(car.moves(n)) == car.pending,
        car.after(car.moves(n)).pending.len() == 0,
        car.pending.len() > 0 ==> car.after(car.moves(n)).position == car.pending.last(),
        car.pending.len() == 0 ==> car.after(car.moves(n)).position == car.position,
    decreases n,
{
    if n > 0 {
        let next = car.apply(car.next_move());
        lemma_move_shortens_duration(car);
        lemma_all_calls_are_served(next, (n - 1) as nat);
        assert(car.moves(n).drop_first() == next.moves((n - 1) as nat));
    }
}

} // verus!
