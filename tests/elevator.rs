use lift_with_me::model::elevator::{Elevator, START_FLOOR};
use lift_with_me::model::operation::{Command, LocationStatus, Movement};

#[test]
fn init() {
    let elevator = Elevator::new(1, 0);
    assert_eq!(Movement::Idle, elevator.movement);
    assert_eq!(0, elevator.current_floor);
    assert_eq!(1, elevator.id);
}

#[test]
fn check_tick_down() {
    let mut elevator = Elevator::new(1, 10);
    elevator.movement = Movement::Down(10, 8);
    elevator.tick();
    assert_eq!(9, elevator.current_floor);
    elevator.tick();
    assert_eq!(8, elevator.current_floor);
    let status = elevator.location_status();
    assert_eq!(status.id, 1);
    assert!(status.is_busy);
    assert_eq!(status.floor, 8);
    elevator.tick();
    assert_eq!(8, elevator.current_floor);
}

#[test]
fn check_tick_up() {
    let mut elevator = Elevator::new(1, 0);
    elevator.movement = Movement::Up(0, 3);
    elevator.tick();
    assert_eq!(1, elevator.current_floor);
    elevator.tick();
    assert_eq!(2, elevator.current_floor);
    elevator.tick();
    assert_eq!(3, elevator.current_floor);
    elevator.tick();
    assert_eq!(3, elevator.current_floor);
}

fn tick_until_idle(elevator: &mut Elevator, limit: u32) -> u32 {
    let mut n = 0;
    loop {
        elevator.tick();
        n += 1;
        if elevator.movement == Movement::Idle || n == limit {
            return n;
        }
    }
}

#[test]
fn return_home_from_floor_zero_takes_three_ticks() {
    let mut elevator = Elevator::new(4, 0);
    elevator.movement = Movement::ReturnHome;
    elevator.tick();
    assert_eq!(Movement::OpenDoor, elevator.movement);
    elevator.tick();
    assert_eq!(Movement::CloseDoor, elevator.movement);
    elevator.tick();
    assert_eq!(Movement::Idle, elevator.movement);
    assert_eq!(0, elevator.current_floor);
}

#[test]
fn return_home_from_above() {
    let mut elevator = Elevator::new(2, 5);
    elevator.movement = Movement::ReturnHome;
    elevator.tick();
    assert_eq!(Movement::Down(5, 0), elevator.movement);
    assert_eq!(5, elevator.current_floor);
    let n = tick_until_idle(&mut elevator, 100);
    assert_eq!(5 + 4, n + 1);
    assert_eq!(0, elevator.current_floor);
}

#[test]
fn return_home_from_below() {
    let mut elevator = Elevator::new(2, -3);
    elevator.movement = Movement::ReturnHome;
    let mut floors = vec![];
    for _ in 0..7 {
        elevator.tick();
        floors.push(elevator.current_floor);
    }
    assert_eq!(vec![-3, -2, -1, 0, 0, 0, 0], floors);
    assert_eq!(Movement::Idle, elevator.movement);
}

#[test]
fn travel_moves_one_floor_per_tick() {
    let mut elevator = Elevator::new(1, -2);
    elevator.movement = Movement::Up(-2, 2);
    let mut last = elevator.current_floor;
    for _ in 0..4 {
        elevator.tick();
        assert_eq!(last + 1, elevator.current_floor);
        last = elevator.current_floor;
    }
    elevator.tick();
    assert_eq!(2, elevator.current_floor);
    assert_eq!(Movement::OpenDoor, elevator.movement);
}

#[test]
fn travel_at_extreme_floors() {
    let mut elevator = Elevator::new(1, i16::MAX);
    elevator.movement = Movement::Up(0, i16::MAX);
    elevator.tick();
    assert_eq!(i16::MAX, elevator.current_floor);
    assert_eq!(Movement::OpenDoor, elevator.movement);
    let mut low = Elevator::new(1, i16::MIN + 1);
    low.movement = Movement::Down(0, i16::MIN);
    low.tick();
    assert_eq!(i16::MIN, low.current_floor);
}

#[test]
fn door_phases() {
    let mut elevator = Elevator::new(1, 3);
    elevator.movement = Movement::OpenDoor;
    elevator.tick();
    assert_eq!(Movement::CloseDoor, elevator.movement);
    elevator.tick();
    assert_eq!(Movement::Idle, elevator.movement);
    elevator.tick();
    assert_eq!(Movement::Idle, elevator.movement);
    assert_eq!(3, elevator.current_floor);
}

#[test]
fn idle_lift_first_goes_to_leg_origin() {
    let mut elevator = Elevator::new(1, 2);
    elevator.new_request(Movement::Up(5, 7));
    elevator.tick();
    assert_eq!(Movement::Up(2, 5), elevator.movement);
    assert_eq!(vec![Movement::Up(5, 7)], elevator.work.iter().copied().collect::<Vec<_>>());
    let mut high = Elevator::new(1, 9);
    high.new_request(Movement::Up(5, 7));
    high.tick();
    assert_eq!(Movement::Down(9, 5), high.movement);
    let mut there = Elevator::new(1, 5);
    there.new_request(Movement::Up(5, 7));
    there.tick();
    assert_eq!(Movement::Up(5, 7), there.movement);
    assert!(there.work.is_empty());
}

#[test]
fn work_is_taken_in_order() {
    let mut elevator = Elevator::new(1, 0);
    elevator.new_request(Movement::Up(0, 1));
    elevator.new_request(Movement::Down(1, 0));
    elevator.tick();
    assert_eq!(Movement::Up(0, 1), elevator.movement);
    assert_eq!(vec![Movement::Down(1, 0)], elevator.work.iter().copied().collect::<Vec<_>>());
}

#[test]
fn location_status_of_idle_lift() {
    let elevator = Elevator::new(7, -4);
    assert_eq!(LocationStatus::new(7, false, -4), elevator.location_status());
}

#[test]
fn actor_answers_commands() {
    let mut elevator = Elevator::new(3, 1);
    assert_eq!(
        Some(Command::SendLocation(LocationStatus::new(3, false, 1))),
        elevator.handle(Command::RequestLocation)
    );
    assert_eq!(None, elevator.handle(Command::Lift(4, Movement::Up(1, 2))));
    assert!(elevator.work.is_empty());
    assert_eq!(None, elevator.handle(Command::Lift(3, Movement::Up(1, 2))));
    assert_eq!(1, elevator.work.len());
    assert_eq!(None, elevator.handle(Command::Register(LocationStatus::new(9, true, 0))));
    assert_eq!(None, elevator.handle(Command::Tick));
    assert_eq!(Movement::Up(1, 2), elevator.movement);
}

#[test]
fn started_lift_returns_home() {
    let (mut elevator, announce) = Elevator::start(6);
    assert_eq!(Command::Register(LocationStatus::new(6, true, START_FLOOR)), announce);
    assert_eq!(START_FLOOR, elevator.current_floor);
    elevator.tick();
    assert_eq!(Movement::ReturnHome, elevator.movement);
    for _ in 0..(START_FLOOR + 4) {
        elevator.tick();
    }
    assert_eq!(LocationStatus::new(6, false, 0), elevator.location_status());
}

#[test]
fn get_direction_cases() {
    assert_eq!(Some(Movement::Down(5, 2)), Movement::get_direction(2, 5));
    assert_eq!(Some(Movement::Up(-1, 4)), Movement::get_direction(4, -1));
    assert_eq!(None, Movement::get_direction(3, 3));
    assert_eq!(
        Some(Movement::Up(i16::MIN, i16::MAX)),
        Movement::get_direction(i16::MAX, i16::MIN)
    );
}
