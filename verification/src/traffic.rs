//! Traffic light states.
use vstd::prelude::*;
use crate::fields::same_text;

verus! {

/// Whether the light state tells the car to stop: red, yellow, or red and
/// yellow together.
pub open spec fn calls_for_stop(state: Seq<char>) -> bool {
    state == "Red"@ || state == "Yellow"@ || state == "RedYellow"@
}

/// Whether the traffic light state `state` is one the car must stop for.
pub fn is_stop_light(state: &str) -> (r: bool)
    ensures
        r == calls_for_stop(state@),
{
    same_text(state, "Red") || same_text(state, "Yellow") || same_text(state, "RedYellow")
}

} // verus!
