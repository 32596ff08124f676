//! Motion commands returned by control callbacks.

use std::ops::ControlFlow;

use vstd::prelude::*;

use crate::types::MotionGeneratorMode;

verus! {

/// Motion command returned by a user's control callback.
///
/// Users return `ControlFlow::Continue(cmd)` to keep the motion going,
/// or `ControlFlow::Break(cmd)` to send the final command and stop.
pub type MotionResult<T> = ControlFlow<T, T>;

/// Trait for types that can be used as motion commands.
pub trait MotionType: Clone + Copy + std::fmt::Debug {
    /// The wire-format motion generator mode for this type.
    fn motion_generator_mode() -> MotionGeneratorMode;
}

/// The command that a motion result carries, whether it continues or stops.
pub open spec fn spec_motion_value<T>(result: MotionResult<T>) -> T {
    match result {
        ControlFlow::Continue(v) => v,
        ControlFlow::Break(v) => v,
    }
}

/// Extracts the inner value from a `MotionResult`, regardless of whether it's Continue or Break.
pub fn motion_value<T: Copy>(result: &MotionResult<T>) -> (v: T)
    ensures
        v == spec_motion_value(*result),
{
    match result {
        ControlFlow::Continue(v) => *v,
        ControlFlow::Break(v) => *v,
    }
}

/// Returns true if the motion result signals completion.
pub fn is_finished<T>(result: &MotionResult<T>) -> (b: bool)
    ensures
        b == (*result is Break),
{
    match result {
        ControlFlow::Break(_) => true,
        ControlFlow::Continue(_) => false,
    }
}

} // verus!
