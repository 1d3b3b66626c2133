//! The peripheral as one whole: the state of both output lines together with
//! the counter, the effect of a sequence of writes on it, and the laws that
//! the write semantics obey.

use vstd::prelude::*;

use crate::signal::Direction;
use crate::signal::LogicLevel;
use crate::signal::direction_of_level;
use crate::signal::is_rising_edge;
use crate::stepper::StepperState;
use crate::stepper::direction_write;
use crate::stepper::step_write;

verus! {

/// The pin assignments of a three-axis machine: one step line and one
/// direction line per axis, each named by its pin number.
pub struct SimulatedPins {
    pub x_step: u8,
    pub y_step: u8,
    pub z_step: u8,
    pub x_dir: u8,
    pub y_dir: u8,
    pub z_dir: u8,
}

/// The full state of one simulated peripheral: the level last written to each
/// of its two lines, and the counter they share.
pub struct PeripheralState {
    pub step_level: LogicLevel,
    pub dir_level: LogicLevel,
    pub counter: StepperState,
}

/// One write event, addressed to one of the two output adapters.
pub enum PinWrite {
    Step(LogicLevel),
    Dir(LogicLevel),
}

/// The peripheral state after one write event: a step-line write runs the
/// rising-edge rule against the level previously on that line, a
/// direction-line write latches a new direction; each stores its level.
pub open spec fn apply_write(s: PeripheralState, w: PinWrite) -> PeripheralState {
    match w {
        PinWrite::Step(level) => PeripheralState {
            step_level: level,
            dir_level: s.dir_level,
            counter: step_write(s.counter, s.step_level, level),
        },
        PinWrite::Dir(level) => PeripheralState {
            step_level: s.step_level,
            dir_level: level,
            counter: direction_write(s.counter, level),
        },
    }
}

/// The peripheral state after a sequence of write events, applied in order.
pub open spec fn run_writes(s: PeripheralState, ws: Seq<PinWrite>) -> PeripheralState
    decreases ws.len(),
{
    if ws.len() == 0 {
        s
    } else {
        run_writes(apply_write(s, ws[0]), ws.subrange(1, ws.len() as int))
    }
}

/// The sum over a sequence of write events of the deltas of its rising step
/// edges: each Low-to-High transition on the step line counts the delta of the
/// direction latched at the moment of that transition; nothing else counts.
/// `step_level` is the level on the step line before the first event, `dir`
/// the direction latched then.
pub open spec fn weighted_edge_sum(
    step_level: LogicLevel,
    dir: Direction,
    ws: Seq<PinWrite>,
) -> int
    decreases ws.len(),
{
    if ws.len() == 0 {
        0
    } else {
        match ws[0] {
            PinWrite::Step(level) => (if is_rising_edge(step_level, level) {
                dir.delta()
            } else {
                0
            }) + weighted_edge_sum(level, dir, ws.subrange(1, ws.len() as int)),
            PinWrite::Dir(level) => weighted_edge_sum(
                step_level,
                direction_of_level(level),
                ws.subrange(1, ws.len() as int),
            ),
        }
    }
}

/// For every sequence of writes to the two adapters, the counter's net change
/// equals the number of rising edges seen on the step line, each weighted by
/// the direction latched at the moment of that specific edge.
pub proof fn lemma_net_change_is_weighted_edge_sum(s: PeripheralState, ws: Seq<PinWrite>)
    ensures
        run_writes(s, ws).counter.step == s.counter.step + weighted_edge_sum(
            s.step_level,
            s.counter.direction,
            ws,
        ),
    decreases ws.len(),
{
    if ws.len() > 0 {
        lemma_net_change_is_weighted_edge_sum(
            apply_write(s, ws[0]),
            ws.subrange(1, ws.len() as int),
        );
    }
}

/// Writing the same level twice in a row to either adapter is the same as
/// writing it once: the second write changes nothing, so in particular it
/// never moves the step count.
pub proof fn lemma_same_write_twice_idempotent(s: PeripheralState, w: PinWrite)
    ensures
        apply_write(apply_write(s, w), w) == apply_write(s, w),
        apply_write(apply_write(s, w), w).counter.step == apply_write(s, w).counter.step,
{
}

} // verus!
