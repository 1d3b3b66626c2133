//! The two-valued digital signal and the travel direction it encodes.

use vstd::prelude::*;

verus! {

/// A two-valued digital signal level, as seen on a GPIO line.
#[derive(Clone, Copy, Debug, PartialEq, Eq, Structural)]
pub enum LogicLevel {
    Low,
    High,
}

/// The signed travel sense of the motor, latched from the direction line.
#[derive(Clone, Copy, Debug, PartialEq, Eq, Structural)]
pub enum Direction {
    Forward,
    Backward,
}

impl Direction {
    /// The step delta this direction contributes on a rising step edge.
    pub open spec fn delta(self) -> int {
        match self {
            Direction::Forward => 1,
            Direction::Backward => -1,
        }
    }
}

/// The direction encoded by a level on the direction line: High drives the
/// motor Forward, Low drives it Backward.
pub open spec fn direction_of_level(level: LogicLevel) -> Direction {
    match level {
        LogicLevel::High => Direction::Forward,
        LogicLevel::Low => Direction::Backward,
    }
}

/// A rising edge: the line was Low and is now driven High. Only rising edges
/// advance the motor.
pub open spec fn is_rising_edge(prev: LogicLevel, next: LogicLevel) -> bool {
    prev is Low && next is High
}

} // verus!
