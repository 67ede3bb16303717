//! What every operation keeps true of the car.

use crate::model::{valid_floor, Car, Event, MAX_FLOOR, MIN_FLOOR};
use vstd::prelude::*;
use vstd::set_lib::{lemma_int_range, lemma_len_subset, set_int_range};

verus! {

/// A car parked at a served floor is well formed and on course.
pub proof fn lemma_parked_is_well_formed(floor: int)
    requires
        valid_floor(floor),
    ensures
        Car::parked(floor).wf(),
        Car::parked(floor).on_course(),
{
}

/// A call keeps the car well formed, and keeps it on course.
pub proof fn lemma_call_keeps_invariants(car: Car, floor: int)
    requires
        car.wf(),
    ensures
        car.call(floor).wf(),
        car.on_course() ==> car.call(floor).on_course(),
{
}

/// A tick keeps the car well formed, and keeps it on course.
pub proof fn lemma_step_keeps_invariants(car: Car)
    requires
        car.wf(),
    ensures
        car.step().wf(),
        car.on_course() ==> car.step().on_course(),
{
}

/// Opening the doors keeps the car well formed, and keeps it on course.
pub proof fn lemma_open_doors_keeps_invariants(car: Car)
    requires
        car.wf(),
    ensures
        car.open_doors().wf(),
        car.on_course() ==> car.open_doors().on_course(),
{
}

/// Closing the doors keeps the car well formed, and keeps it on course.
pub proof fn lemma_close_doors_keeps_invariants(car: Car)
    requires
        car.wf(),
    ensures
        car.close_doors().wf(),
        car.on_course() ==> car.close_doors().on_course(),
{
}

/// Every event keeps the car well formed, and keeps it on course.
pub proof fn lemma_event_keeps_invariants(car: Car, event: Event)
    requires
        car.wf(),
    ensures
        car.apply(event).wf(),
        car.on_course() ==> car.apply(event).on_course(),
{
    match event {
        Event::Call(floor) => lemma_call_keeps_invariants(car, floor),
        Event::Step => lemma_step_keeps_invariants(car),
        Event::OpenDoors => lemma_open_doors_keeps_invariants(car),
        Event::CloseDoors => lemma_close_doors_keeps_invariants(car),
    }
}

/// A sequence of events keeps the car well formed, and keeps it on course.
pub proof fn lemma_events_keep_invariants(car: Car, events: Seq<Event>)
    requires
        car.wf(),
    ensures
        car.after(events).wf(),
        car.on_course() ==> car.after(events).on_course(),
    decreases events.len(),
{
    if events.len() > 0 {
        lemma_event_keeps_invariants(car, events[0]);
        lemma_events_keep_invariants(car.apply(events[0]), events.drop_first());
    }
}

/// Whatever happens to a car that starts parked at a served floor, it stays
/// well formed and on course.
pub proof fn lemma_invariants_hold_throughout(floor: int, events: Seq<Event>)
    requires
        valid_floor(floor),
    ensures
        Car::parked(floor).after(events).wf(),
        Car::parked(floor).after(events).on_course(),
{
    lemma_parked_is_well_formed(floor);
    lemma_events_keep_invariants(Car::parked(floor), events);
}

/// A well-formed car has no more calls pending than there are floors.
pub proof fn lemma_pending_is_bounded(car: Car)
    requires
        car.wf(),
    ensures
        car.pending.len() <= MAX_FLOOR - MIN_FLOOR + 1,
{
    let served = set_int_range(MIN_FLOOR as int, MAX_FLOOR + 1);
    lemma_int_range(MIN_FLOOR as int, MAX_FLOOR + 1);
    assert forall|floor: int| car.pending.to_set().contains(floor) implies served.contains(
        floor,
    ) by {
        let i: int = choose|i: int| 0 <= i < car.pending.len() && car.pending[i] == floor;
        assert(valid_floor(car.pending[i]));
    }
    lemma_len_subset(car.pending.to_set(), served);
    car.pending.unique_seq_to_set();
}

} // verus!
