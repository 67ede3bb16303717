use elevator::{Elevator, ElevatorError, State};

#[test]
fn open_doors_at_rest() {
    let mut car = Elevator::new(1).unwrap();
    assert_eq!(car.open_doors(), Ok(()));
    assert_eq!(car.state(), State::DoorsOpen);
    assert_eq!(car.floor(), 1);
    assert!(car.queue().is_empty());
}

#[test]
fn open_doors_twice_is_refused() {
    let mut car = Elevator::new(1).unwrap();
    car.open_doors().unwrap();
    assert_eq!(car.open_doors(), Err(ElevatorError::DoorsAlreadyOpen));
    assert_eq!(car.state(), State::DoorsOpen);
}

#[test]
fn open_doors_is_refused_while_moving() {
    let mut up = Elevator::new(1).unwrap();
    up.call(4).unwrap();
    assert_eq!(up.state(), State::MovingUp);
    assert_eq!(up.open_doors(), Err(ElevatorError::CannotOpenWhileMoving));
    assert_eq!(up.state(), State::MovingUp);
    assert_eq!(up.queue(), &[4]);
    up.step().unwrap();
    assert_eq!(up.open_doors(), Err(ElevatorError::CannotOpenWhileMoving));
    assert_eq!(up.floor(), 2);

    let mut down = Elevator::new(4).unwrap();
    down.call(1).unwrap();
    assert_eq!(down.state(), State::MovingDown);
    assert_eq!(down.open_doors(), Err(ElevatorError::CannotOpenWhileMoving));
    assert_eq!(down.state(), State::MovingDown);
    assert_eq!(down.queue(), &[1]);
}

#[test]
fn step_is_refused_while_doors_are_open() {
    let mut car = Elevator::new(1).unwrap();
    car.open_doors().unwrap();
    car.call(3).unwrap();
    assert_eq!(car.step(), Err(ElevatorError::CannotMoveDoorsOpen));
    assert_eq!(car.floor(), 1);
    assert_eq!(car.state(), State::DoorsOpen);
    assert_eq!(car.queue(), &[3]);

    let mut empty = Elevator::new(1).unwrap();
    empty.open_doors().unwrap();
    assert_eq!(empty.step(), Err(ElevatorError::CannotMoveDoorsOpen));
    assert_eq!(empty.state(), State::DoorsOpen);
}

#[test]
fn doors_open_on_arrival_at_the_floor_called() {
    let mut car = Elevator::new(5).unwrap();
    car.call(3).unwrap();
    car.call(4).unwrap();
    assert_eq!(car.step(), Ok(()));
    assert_eq!(car.state(), State::MovingDown);
    assert_eq!(car.floor(), 4);
    let before: Vec<i32> = car.queue().to_vec();
    assert_eq!(car.step(), Ok(()));
    assert_eq!(car.state(), State::DoorsOpen);
    assert_eq!(car.floor(), before[0]);
    assert_eq!(car.queue(), &before[1..]);
}

#[test]
fn step_towards_the_floor_the_car_stands_at_opens_the_doors() {
    let mut car = Elevator { floor: 3, state: State::Idle, queue: vec![3, 1] };
    assert_eq!(car.step(), Ok(()));
    assert_eq!(car.floor, 3);
    assert_eq!(car.state, State::DoorsOpen);
    assert_eq!(car.queue, vec![1]);
}

#[test]
fn step_turns_a_car_that_heads_the_wrong_way() {
    let mut car = Elevator { floor: 3, state: State::MovingUp, queue: vec![0] };
    assert_eq!(car.step(), Ok(()));
    assert_eq!(car.floor, 2);
    assert_eq!(car.state, State::MovingDown);
    assert_eq!(car.queue, vec![0]);
}

#[test]
fn status_is_a_copy() {
    let mut car = Elevator::new(0).unwrap();
    car.call(2).unwrap();
    car.call(4).unwrap();
    car.step().unwrap();
    let snapshot = car.status();
    assert_eq!(snapshot.floor, 1);
    assert_eq!(snapshot.state, State::MovingUp);
    assert_eq!(snapshot.queue, vec![2, 4]);
    assert_eq!(car.floor(), 1);
    assert_eq!(car.state(), State::MovingUp);
    assert_eq!(car.queue(), &[2, 4]);

    car.step().unwrap();
    assert_eq!(car.floor(), 2);
    assert_eq!(car.queue(), &[4]);
    assert_eq!(snapshot.floor, 1);
    assert_eq!(snapshot.state, State::MovingUp);
    assert_eq!(snapshot.queue, vec![2, 4]);

    let mut copy = car.clone();
    copy.call(0).unwrap();
    assert_eq!(copy.queue(), &[4, 0]);
    assert_eq!(car.queue(), &[4]);
}

#[test]
fn getters_read_the_fields() {
    let car = Elevator { floor: 4, state: State::MovingDown, queue: vec![1, 5] };
    assert_eq!(car.floor(), 4);
    assert_eq!(car.state(), State::MovingDown);
    assert_eq!(car.queue(), &[1, 5]);
}

#[test]
fn the_car_stays_usable_after_a_refusal() {
    let mut car = Elevator::new(0).unwrap();
    assert_eq!(car.step(), Err(ElevatorError::EmptyQueue));
    assert_eq!(car.close_doors(), Err(ElevatorError::DoorsAlreadyClosed));
    assert_eq!(car.call(9), Err(ElevatorError::InvalidFloor(9)));
    assert_eq!(car.call(1), Ok(()));
    assert_eq!(car.open_doors(), Err(ElevatorError::CannotOpenWhileMoving));
    assert_eq!(car.step(), Ok(()));
    assert_eq!(car.open_doors(), Err(ElevatorError::DoorsAlreadyOpen));
    assert_eq!(car.step(), Err(ElevatorError::CannotMoveDoorsOpen));
    assert_eq!(car.close_doors(), Ok(()));
    assert_eq!(car.floor(), 1);
    assert_eq!(car.state(), State::Idle);
}
