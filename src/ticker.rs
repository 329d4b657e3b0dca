//! The simulation clock: it alternates a step of time with a request for
//! every lift's location, so that each lift has moved before it reports.
use crate::model::operation::Command;
use vstd::prelude::*;

verus! {

/// Which of the two commands the clock publishes next.
pub struct Clock {
    pub report_next: bool,
}

impl Clock {
    /// A clock whose first command is a step of time.
    pub fn new() -> (r: Self)
        ensures
            !r.report_next,
    {
        Clock { report_next: false }
    }

    /// The command to publish at the clock's next beat.
    pub fn next_command(&mut self) -> (r: Command)
        ensures
            r == (if old(self).report_next {
                Command::RequestLocation
            } else {
                Command::Tick
            }),
            final(self).report_next == !old(self).report_next,
    {
        let cmd = if self.report_next {
            Command::RequestLocation
        } else {
            Command::Tick
        };
        self.report_next = !self.report_next;
        cmd
    }
}

} // verus!
