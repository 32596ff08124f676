//! Requests of the robot interface that are assembled from plain values.

use vstd::prelude::*;

use crate::wire::robot::SetGuidingModeRequest;

verus! {

/// The guiding-mode request: byte `i` is 1 when axis `i` is free for hand-guiding and 0
/// otherwise, and the null-space byte is 1 when the elbow is free.
pub fn guiding_mode_request(guiding_mode: [bool; 6], elbow_free: bool) -> (r: SetGuidingModeRequest)
    ensures
        forall|i: int| 0 <= i < 6 ==> #[trigger] r.guiding_mode@[i] == if guiding_mode@[i] {
            1u8
        } else {
            0u8
        },
        r.nullspace == if elbow_free {
            1u8
        } else {
            0u8
        },
{
    let mut mode_bytes = [0u8; 6];
    let mut i: usize = 0;
    while i < 6
        invariant
            i <= 6,
            mode_bytes@.len() == 6,
            forall|j: int| 0 <= j < i ==> #[trigger] mode_bytes@[j] == if guiding_mode@[j] {
                1u8
            } else {
                0u8
            },
        decreases 6 - i,
    {
        mode_bytes[i] = if guiding_mode[i] {
            1
        } else {
            0
        };
        i = i + 1;
    }
    SetGuidingModeRequest { guiding_mode: mode_bytes, nullspace: if elbow_free {
        1
    } else {
        0
    } }
}

} // verus!
