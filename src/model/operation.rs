use vstd::prelude::*;

verus! {

/// The state of one lift's movement.
#[derive(Clone, Copy, Debug, PartialEq, Eq, Structural)]
pub enum Movement {
    /// Travelling downwards from the floor on the left to the floor on the right.
    Down(i16, i16),
    /// Travelling upwards from the floor on the left to the floor on the right.
    Up(i16, i16),
    /// Standing still, ready for work.
    Idle,
    /// Heading back to floor 0 before taking other work.
    ReturnHome,
    /// Letting passengers out.
    OpenDoor,
    CloseDoor,
}

/// The leg that goes from `from_floor` to `to_floor`, if the two differ.
pub open spec fn direction(to_floor: int, from_floor: int) -> Option<Movement> {
    if to_floor < from_floor {
        Some(Movement::Down(from_floor as i16, to_floor as i16))
    } else if to_floor > from_floor {
        Some(Movement::Up(from_floor as i16, to_floor as i16))
    } else {
        None
    }
}

impl Movement {
    /// The leg that carries a lift from `from_floor` to `to_floor`; `None` when
    /// there is nowhere to go.
    #[must_use]
    pub fn get_direction(to_floor: i16, from_floor: i16) -> (r: Option<Self>)
        ensures
            r == direction(to_floor as int, from_floor as int),
    {
        if to_floor < from_floor {
            Some(Movement::Down(from_floor, to_floor))
        } else if to_floor > from_floor {
            Some(Movement::Up(from_floor, to_floor))
        } else {
            None
        }
    }
}

/// What a lift reports of itself: whether it is busy, and on which floor it is.
#[derive(Clone, Copy, Debug, PartialEq, Eq, Structural)]
pub struct LocationStatus {
    pub id: u8,
    pub is_busy: bool,
    pub floor: i16,
}

impl LocationStatus {
    #[must_use]
    pub fn new(id: u8, is_busy: bool, current_floor: i16) -> (r: Self)
        ensures
            r.id == id,
            r.is_busy == is_busy,
            r.floor == current_floor,
    {
        LocationStatus { id, is_busy, floor: current_floor }
    }
}

/// A journey asked for by a passenger.
#[derive(Clone, Copy, Debug, PartialEq, Eq, Structural)]
pub struct Passenger {
    pub from_floor: i16,
    pub to_floor: i16,
}

/// What travels on the command bus.
#[derive(Clone, Copy, Debug, PartialEq, Eq, Structural)]
pub enum Command {
    /// One step of simulated time.
    Tick,
    /// Every lift is to report where it is.
    RequestLocation,
    /// A lift's answer to `RequestLocation`.
    SendLocation(LocationStatus),
    /// A leg of work for the lift with the given id.
    Lift(u8, Movement),
    /// A lift announces itself once, when it starts.
    Register(LocationStatus),
}

} // verus!
