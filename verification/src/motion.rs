//! Per-tick control decisions of the racing game, separated from the
//! floating-point integration that acts on them: which movement the pressed
//! keys ask for, and how the lap counter and completion flag advance.
use vstd::prelude::*;

verus! {

use vstd::string::StringExecFns;

/// The keyboard-driven physics stepper. The numeric integration acts on the
/// movement intent this type decides from the pressed keys.
pub struct PhysicsEngine;

/// The drive decision of one tick: which of the four movements the pressed
/// keys ask for.
#[derive(Clone, Copy, Debug, PartialEq, Eq, Structural)]
pub struct MovementIntent {
    /// Some pressed key asks to drive forward.
    pub move_forward: bool,
    /// Some pressed key asks to drive backward (or brake).
    pub move_backward: bool,
    /// Some pressed key asks to turn left.
    pub turn_left: bool,
    /// Some pressed key asks to turn right.
    pub turn_right: bool,
}

/// The key asks to drive forward.
pub open spec fn forward_key(s: Seq<char>) -> bool {
    s == "ArrowUp"@ || s == "KeyW"@
}

/// The key asks to drive backward or brake.
pub open spec fn backward_key(s: Seq<char>) -> bool {
    s == "ArrowDown"@ || s == "KeyS"@ || s == "Space"@
}

/// The key asks to turn left.
pub open spec fn left_key(s: Seq<char>) -> bool {
    s == "ArrowLeft"@ || s == "KeyA"@
}

/// The key asks to turn right.
pub open spec fn right_key(s: Seq<char>) -> bool {
    s == "ArrowRight"@ || s == "KeyD"@
}

impl PhysicsEngine {
    /// Reads the pressed keys into a movement intent: each flag is set
    /// exactly when some pressed key asks for that movement; any other key
    /// is ignored.
    pub fn movement_intent(keys: &Vec<String>) -> (r: MovementIntent)
        ensures
            r.move_forward == (exists|t: int|
                0 <= t < keys@.len() && forward_key(#[trigger] keys@[t]@)),
            r.move_backward == (exists|t: int|
                0 <= t < keys@.len() && backward_key(#[trigger] keys@[t]@)),
            r.turn_left == (exists|t: int| 0 <= t < keys@.len() && left_key(#[trigger] keys@[t]@)),
            r.turn_right == (exists|t: int|
                0 <= t < keys@.len() && right_key(#[trigger] keys@[t]@)),
    {
        let arrow_up = <String as StringExecFns>::from_str("ArrowUp");
        let key_w = <String as StringExecFns>::from_str("KeyW");
        let arrow_down = <String as StringExecFns>::from_str("ArrowDown");
        let key_s = <String as StringExecFns>::from_str("KeyS");
        let space = <String as StringExecFns>::from_str("Space");
        let arrow_left = <String as StringExecFns>::from_str("ArrowLeft");
        let key_a = <String as StringExecFns>::from_str("KeyA");
        let arrow_right = <String as StringExecFns>::from_str("ArrowRight");
        let key_d = <String as StringExecFns>::from_str("KeyD");

        let mut move_forward = false;
        let mut move_backward = false;
        let mut turn_left = false;
        let mut turn_right = false;
        let mut i: usize = 0;
        while i < keys.len()
            invariant
                i <= keys@.len(),
                arrow_up@ == "ArrowUp"@,
                key_w@ == "KeyW"@,
                arrow_down@ == "ArrowDown"@,
                key_s@ == "KeyS"@,
                space@ == "Space"@,
                arrow_left@ == "ArrowLeft"@,
                key_a@ == "KeyA"@,
                arrow_right@ == "ArrowRight"@,
                key_d@ == "KeyD"@,
                move_forward == (exists|t: int| 0 <= t < i && forward_key(#[trigger] keys@[t]@)),
                move_backward == (exists|t: int| 0 <= t < i && backward_key(#[trigger] keys@[t]@)),
                turn_left == (exists|t: int| 0 <= t < i && left_key(#[trigger] keys@[t]@)),
                turn_right == (exists|t: int| 0 <= t < i && right_key(#[trigger] keys@[t]@)),
            decreases keys@.len() - i,
        {
            let key = &keys[i];
            if *key == arrow_up || *key == key_w {
                move_forward = true;
            }
            if *key == arrow_down || *key == key_s || *key == space {
                move_backward = true;
            }
            if *key == arrow_left || *key == key_a {
                turn_left = true;
            }
            if *key == arrow_right || *key == key_d {
                turn_right = true;
            }
            i += 1;
        }
        MovementIntent { move_forward, move_backward, turn_left, turn_right }
    }
}

/// The race bookkeeping. The angle integration is numeric work outside this
/// type; the lap counter and the completion flag advance by the decision
/// below.
pub struct RaceRules;

impl RaceRules {
    /// Advances the lap counter from a freshly computed whole-lap count: the
    /// counter never decreases, it jumps to the computed count exactly when
    /// that is larger, and the race is complete exactly when the new counter
    /// has reached the total.
    pub fn lap_progress(current_lap: i32, laps_completed: i32, total_laps: i32) -> (r: (i32, bool))
        ensures
            r.0 == if laps_completed > current_lap {
                laps_completed
            } else {
                current_lap
            },
            r.0 >= current_lap,
            r.1 == (r.0 >= total_laps),
    {
        let lap = if laps_completed > current_lap {
            laps_completed
        } else {
            current_lap
        };
        (lap, lap >= total_laps)
    }
}

} // verus!
