use std::collections::VecDeque;

use crate::model::operation::{Command, LocationStatus, Movement};
use vstd::prelude::*;

verus! {

/// One lift: where it is, what it is doing and the legs still waiting.
#[derive(Debug)]
pub struct Elevator {
    pub id: u8,
    pub movement: Movement,
    pub current_floor: i16,
    pub work: VecDeque<Movement>,
}

/// The mathematical picture of a lift.
pub struct ElevatorView {
    pub id: u8,
    pub movement: Movement,
    pub floor: i16,
    pub work: Seq<Movement>,
}

impl View for Elevator {
    type V = ElevatorView;

    open spec fn view(&self) -> ElevatorView {
        ElevatorView {
            id: self.id,
            movement: self.movement,
            floor: self.current_floor,
            work: self.work@,
        }
    }
}

/// The floor a leg starts from, for the two travelling legs.
pub open spec fn leg_origin(w: Movement) -> Option<i16> {
    match w {
        Movement::Down(o, _) => Some(o),
        Movement::Up(o, _) => Some(o),
        _ => None,
    }
}

/// An idle lift takes up the leg `w` (already removed from its queue). Away
/// from the leg's origin it first travels there, keeping `w` at the front of
/// the queue; otherwise `w` becomes its movement.
pub open spec fn adopt(v: ElevatorView, w: Movement) -> ElevatorView {
    match leg_origin(w) {
        Some(o) => if v.floor < o {
            ElevatorView { movement: Movement::Up(v.floor, o), work: seq![w] + v.work, ..v }
        } else if v.floor > o {
            ElevatorView { movement: Movement::Down(v.floor, o), work: seq![w] + v.work, ..v }
        } else {
            ElevatorView { movement: w, ..v }
        },
        None => ElevatorView { movement: w, ..v },
    }
}

/// One tick of the movement state machine: one floor of travel or one change
/// of phase, never both.
pub open spec fn step(v: ElevatorView) -> ElevatorView {
    match v.movement {
        Movement::ReturnHome => if v.floor > 0 {
            ElevatorView { movement: Movement::Down(v.floor, 0), ..v }
        } else if v.floor < 0 {
            ElevatorView { movement: Movement::Up(v.floor, 0), ..v }
        } else {
            ElevatorView { movement: Movement::OpenDoor, ..v }
        },
        Movement::Down(_, until) => if v.floor > until {
            ElevatorView { floor: (v.floor - 1) as i16, ..v }
        } else {
            ElevatorView { movement: Movement::OpenDoor, ..v }
        },
        Movement::Up(_, until) => if v.floor < until {
            ElevatorView { floor: (v.floor + 1) as i16, ..v }
        } else {
            ElevatorView { movement: Movement::OpenDoor, ..v }
        },
        Movement::OpenDoor => ElevatorView { movement: Movement::CloseDoor, ..v },
        Movement::CloseDoor => ElevatorView { movement: Movement::Idle, ..v },
        Movement::Idle => if v.work.len() > 0 {
            adopt(ElevatorView { work: v.work.drop_first(), ..v }, v.work[0])
        } else {
            v
        },
    }
}

/// What a lift in state `v` reports: it is busy unless idle.
pub open spec fn status_of(v: ElevatorView) -> LocationStatus {
    LocationStatus { id: v.id, is_busy: v.movement != Movement::Idle, floor: v.floor }
}

/// How a lift in state `v` answers `cmd` on the bus: its next state, and the
/// command it publishes in return, if any. Work addressed to another lift is
/// ignored.
pub open spec fn react(v: ElevatorView, cmd: Command) -> (ElevatorView, Option<Command>) {
    match cmd {
        Command::Tick => (step(v), None),
        Command::RequestLocation => (v, Some(Command::SendLocation(status_of(v)))),
        Command::Lift(target, w) => if target == v.id {
            (ElevatorView { work: v.work.push(w), ..v }, None)
        } else {
            (v, None)
        },
        Command::SendLocation(_) => (v, None),
        Command::Register(_) => (v, None),
    }
}

/// The floor on which a newly started lift stands.
pub const START_FLOOR: i16 = 10;

impl Elevator {
    #[must_use]
    pub fn new(id: u8, starting_floor: i16) -> (r: Self)
        ensures
            r@ == (ElevatorView {
                id,
                movement: Movement::Idle,
                floor: starting_floor,
                work: Seq::empty(),
            }),
    {
        Elevator {
            id,
            movement: Movement::Idle,
            current_floor: starting_floor,
            work: VecDeque::new(),
        }
    }

    #[must_use]
    pub fn location_status(&self) -> (r: LocationStatus)
        ensures
            r == status_of(self@),
    {
        let is_idle = self.movement == Movement::Idle;
        LocationStatus::new(self.id, !is_idle, self.current_floor)
    }

    /// Queues `request` behind the work already waiting.
    pub fn new_request(&mut self, request: Movement)
        ensures
            final(self)@ == (ElevatorView { work: old(self)@.work.push(request), ..old(self)@ }),
    {
        self.work.push_back(request);
    }

    fn take_request(&mut self, request: Movement)
        ensures
            final(self)@ == adopt(old(self)@, request),
    {
        let cf = self.current_floor;
        let origin = match request {
            Movement::Down(rf, _) | Movement::Up(rf, _) => Some(rf),
            _ => None,
        };
        match origin {
            Some(rf) if cf < rf => {
                self.work.push_front(request);
                self.movement = Movement::Up(cf, rf);
            },
            Some(rf) if cf > rf => {
                self.work.push_front(request);
                self.movement = Movement::Down(cf, rf);
            },
            _ => self.movement = request,
        }
    }

    /// Advances the lift by one step of time.
    pub fn tick(&mut self)
        ensures
            final(self)@ == step(old(self)@),
    {
        let cf = self.current_floor;
        match self.movement {
            Movement::ReturnHome if cf > 0 => {
                self.movement = Movement::Down(cf, 0);
            },
            Movement::ReturnHome if cf < 0 => {
                self.movement = Movement::Up(cf, 0);
            },
            Movement::ReturnHome => {
                self.movement = Movement::OpenDoor;
            },
            Movement::Down(_, until) if cf > until => {
                self.current_floor = cf - 1;
            },
            Movement::Up(_, until) if cf < until => {
                self.current_floor = cf + 1;
            },
            Movement::Up(..) | Movement::Down(..) => {
                self.movement = Movement::OpenDoor;
            },
            Movement::OpenDoor => {
                self.movement = Movement::CloseDoor;
            },
            Movement::CloseDoor => {
                self.movement = Movement::Idle;
            },
            Movement::Idle => {
                if let Some(request) = self.work.pop_front() {
                    self.take_request(request);
                }
            },
        }
    }

    /// Answers one command from the bus; what it returns is to be published.
    pub fn handle(&mut self, cmd: Command) -> (r: Option<Command>)
        ensures
            (final(self)@, r) == react(old(self)@, cmd),
    {
        match cmd {
            Command::Tick => {
                self.tick();
                None
            },
            Command::RequestLocation => Some(Command::SendLocation(self.location_status())),
            Command::Lift(lift_id, request) => {
                if lift_id == self.id {
                    self.new_request(request);
                }
                None
            },
            Command::SendLocation(_) | Command::Register(_) => None,
        }
    }

    /// A newly started lift and the command by which it announces itself: it
    /// stands on `START_FLOOR` with a return home waiting, and counts as busy.
    pub fn start(id: u8) -> (r: (Elevator, Command))
        ensures
            r.0@ == (ElevatorView {
                id,
                movement: Movement::Idle,
                floor: START_FLOOR,
                work: seq![Movement::ReturnHome],
            }),
            r.1 == Command::Register(LocationStatus { id, is_busy: true, floor: START_FLOOR }),
    {
        let mut lift = Elevator::new(id, START_FLOOR);
        lift.new_request(Movement::ReturnHome);
        proof {
            assert(lift.work@ =~= seq![Movement::ReturnHome]);
        }
        let announce = Command::Register(LocationStatus::new(id, true, START_FLOOR));
        (lift, announce)
    }
}

} // verus!
