//! Out-of-bounds recovery: return along the depth axis to the nearest legal
//! field margin.

use vstd::prelude::*;
use super::Data;
use crate::config::{FIELD_LENGTH, FIELD_MARGIN_Y};
use crate::data::TargetCommand;

verus! {

/// This behavior keeps no state.
#[derive(Clone, Copy, PartialEq, Eq, Structural, Debug, Default)]
pub struct GetOutState {}

/// The emitted target: the robot's own x, and whichever margin line of the
/// field is nearer along y.
pub open spec fn get_out_target(x: int, y: int) -> (int, int) {
    if y < FIELD_LENGTH / 2 {
        (x, FIELD_MARGIN_Y as int)
    } else {
        (x, FIELD_LENGTH - FIELD_MARGIN_Y)
    }
}

/// One recovery tick.
pub fn run(data: &Data, _state: &mut GetOutState) -> (r: TargetCommand)
    requires
        super::data_wf(*data),
    ensures
        r.heading == 0,
        (r.x as int, r.y as int) == get_out_target(
            data.coordinates.x as int,
            data.coordinates.y as int,
        ),
        super::target_in_range(r),
{
    let x = data.coordinates.x;
    let y = data.coordinates.y;
    if y < FIELD_LENGTH / 2 {
        TargetCommand { heading: 0, x, y: FIELD_MARGIN_Y }
    } else {
        TargetCommand { heading: 0, x, y: FIELD_LENGTH - FIELD_MARGIN_Y }
    }
}

} // verus!
