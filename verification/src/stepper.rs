//! The simulated stepper peripheral: the authoritative step counter and the
//! two digital-output adapters (step line and direction line) that drive it.
//!
//! In the real device the two output lines alias one physical motor. Here the
//! counter is a single owned object, and each adapter mutates it through an
//! explicit `&mut` handle passed to `write`, so both adapters act on one
//! logical peripheral without shared mutable aliasing.

use vstd::prelude::*;

use crate::signal::Direction;
use crate::signal::LogicLevel;
use crate::signal::direction_of_level;
use crate::signal::is_rising_edge;

verus! {

/// The mathematical state of the step counter: the cumulative net step count
/// and the currently latched direction.
pub struct StepperState {
    pub step: int,
    pub direction: Direction,
}

/// The state after one unconditional step: the latched direction's delta is
/// added to the count; the direction itself is unchanged.
pub open spec fn stepped(s: StepperState) -> StepperState {
    StepperState { step: s.step + s.direction.delta(), direction: s.direction }
}

/// The counter state after a level is written to the step line whose previous
/// level was `prev`: the counter advances exactly on a rising edge, by the
/// delta of the direction latched at that moment, and is untouched otherwise.
pub open spec fn step_write(s: StepperState, prev: LogicLevel, level: LogicLevel) -> StepperState {
    if is_rising_edge(prev, level) {
        stepped(s)
    } else {
        s
    }
}

/// The counter state after a level is written to the direction line: the
/// latched direction becomes the one the level encodes; the count never moves.
pub open spec fn direction_write(s: StepperState, level: LogicLevel) -> StepperState {
    StepperState { step: s.step, direction: direction_of_level(level) }
}

/// The shared counter of simulated motor position, in steps from the origin
/// fixed at construction, together with the currently latched direction.
pub struct SimulatedStepper {
    step: i32,
    direction: Direction,
}

impl View for SimulatedStepper {
    type V = StepperState;

    closed spec fn view(&self) -> StepperState {
        StepperState { step: self.step as int, direction: self.direction }
    }
}

impl SimulatedStepper {
    /// A fresh counter: zero steps, direction latched Forward.
    pub fn new() -> (s: SimulatedStepper)
        ensures
            s@.step == 0,
            s@.direction == Direction::Forward,
    {
        SimulatedStepper { step: 0, direction: Direction::Forward }
    }

    /// Advance by the latched direction's delta, unconditionally. Edge
    /// detection is the step adapter's job, not the counter's.
    pub fn step(&mut self)
        requires
            i32::MIN <= old(self)@.step + old(self)@.direction.delta() <= i32::MAX,
        ensures
            final(self)@ == stepped(old(self)@),
    {
        match self.direction {
            Direction::Forward => {
                self.step = self.step + 1;
            },
            Direction::Backward => {
                self.step = self.step - 1;
            },
        }
    }

    /// The current net step count. Side-effect free.
    pub fn get_step(&self) -> (r: i32)
        ensures
            r as int == self@.step,
    {
        self.step
    }

    /// Latch a new direction, effective from the next `step` call onward;
    /// already-counted steps are untouched.
    pub fn set_direction(&mut self, direction: Direction)
        ensures
            final(self)@.direction == direction,
            final(self)@.step == old(self)@.step,
    {
        self.direction = direction;
    }
}

/// Digital-output adapter for the step line: detects rising edges on the
/// written levels and advances the counter once per edge.
pub struct StepOutput {
    val: LogicLevel,
}

impl View for StepOutput {
    type V = LogicLevel;

    closed spec fn view(&self) -> LogicLevel {
        self.val
    }
}

impl StepOutput {
    /// A fresh step-line adapter; the pin is assumed de-asserted (Low) at
    /// construction.
    pub fn new() -> (o: StepOutput)
        ensures
            o@ == LogicLevel::Low,
    {
        StepOutput { val: LogicLevel::Low }
    }

    /// Write a level to the step line. On a Low-to-High transition the counter
    /// steps once, signed by the direction latched at this moment; any other
    /// transition leaves the counter untouched. The level is stored either way
    /// and is what `read` returns next.
    pub fn write(&mut self, stepper: &mut SimulatedStepper, val: LogicLevel)
        requires
            is_rising_edge(old(self)@, val) ==> i32::MIN <= old(stepper)@.step
                + old(stepper)@.direction.delta() <= i32::MAX,
        ensures
            final(self)@ == val,
            final(stepper)@ == step_write(old(stepper)@, old(self)@, val),
    {
        if self.val == LogicLevel::Low && val == LogicLevel::High {
            stepper.step();
        }
        self.val = val;
    }

    /// The last level written to the step line (the adapter mirrors its own
    /// writes; there is no hardware to sample).
    pub fn read(&self) -> (r: LogicLevel)
        ensures
            r == self@,
    {
        self.val
    }
}

/// Digital-output adapter for the direction line: each written level is
/// latched into the counter as a direction, High as Forward, Low as Backward.
pub struct DirectionOutput {
    val: LogicLevel,
}

impl View for DirectionOutput {
    type V = LogicLevel;

    closed spec fn view(&self) -> LogicLevel {
        self.val
    }
}

impl DirectionOutput {
    /// A fresh direction-line adapter; the pin is assumed de-asserted (Low) at
    /// construction.
    pub fn new() -> (o: DirectionOutput)
        ensures
            o@ == LogicLevel::Low,
    {
        DirectionOutput { val: LogicLevel::Low }
    }

    /// Write a level to the direction line: the counter immediately latches
    /// the direction the level encodes; the step count never moves. The level
    /// is stored and is what `read` returns next.
    pub fn write(&mut self, stepper: &mut SimulatedStepper, val: LogicLevel)
        ensures
            final(self)@ == val,
            final(stepper)@ == direction_write(old(stepper)@, val),
    {
        match val {
            LogicLevel::High => stepper.set_direction(Direction::Forward),
            LogicLevel::Low => stepper.set_direction(Direction::Backward),
        }
        self.val = val;
    }

    /// The last level written to the direction line.
    pub fn read(&self) -> (r: LogicLevel)
        ensures
            r == self@,
    {
        self.val
    }
}

} // verus!
