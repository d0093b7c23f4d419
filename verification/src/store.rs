//! The shared state store: the latest fused heading, robot coordinate,
//! ball and goal positions, each carrying its own validity flag.
//!
//! Readers always see the most recently published value of each field.
//! Fields are independent: in the running system each sits behind its own
//! lock so that producers never block each other, and that locking wraps
//! this store from outside.

use vstd::prelude::*;
use crate::data::Coordinate;

verus! {

/// The four shared fields.
#[derive(Clone, Copy, PartialEq, Eq, Structural, Debug)]
pub struct Store {
    /// Fused orientation in whole degrees, normalized to `(-180, 180]`.
    pub heading: i32,
    /// Estimated robot position.
    pub coordinate: Coordinate,
    /// Estimated ball position.
    pub ball: Coordinate,
    /// Estimated goal position.
    pub goal: Coordinate,
}

/// The store's invariant: heading normalized, every position within the
/// estimators' ranges.
pub open spec fn store_wf(s: Store) -> bool {
    &&& -180 < s.heading <= 180
    &&& -1100000 <= s.coordinate.x <= 1100000
    &&& -1100000 <= s.coordinate.y <= 1100000
    &&& -1100000 <= s.ball.x <= 1100000
    &&& -1100000 <= s.ball.y <= 1100000
    &&& -1100000 <= s.goal.x <= 1100000
    &&& -1100000 <= s.goal.y <= 1100000
}

impl Store {
    /// The store before the first publication: everything at the origin
    /// and invalid, heading zero.
    pub fn new() -> (s: Store)
        ensures
            s.heading == 0,
            s.coordinate == (Coordinate { x: 0, y: 0, valid: false }),
            s.ball == (Coordinate { x: 0, y: 0, valid: false }),
            s.goal == (Coordinate { x: 0, y: 0, valid: false }),
            store_wf(s),
    {
        let none = Coordinate { x: 0, y: 0, valid: false };
        Store { heading: 0, coordinate: none, ball: none, goal: none }
    }

    /// Publish a fused heading sample.
    pub fn set_heading(&mut self, heading: i32)
        requires
            store_wf(*old(self)),
            -180 < heading <= 180,
        ensures
            store_wf(*final(self)),
            final(self).heading == heading,
            final(self).coordinate == old(self).coordinate,
            final(self).ball == old(self).ball,
            final(self).goal == old(self).goal,
    {
        self.heading = heading;
    }

    /// Publish a robot coordinate.
    pub fn set_coordinate(&mut self, c: Coordinate)
        requires
            store_wf(*old(self)),
            -1100000 <= c.x <= 1100000,
            -1100000 <= c.y <= 1100000,
        ensures
            store_wf(*final(self)),
            final(self).coordinate == c,
            final(self).heading == old(self).heading,
            final(self).ball == old(self).ball,
            final(self).goal == old(self).goal,
    {
        self.coordinate = c;
    }

    /// Publish a ball position.
    pub fn set_ball(&mut self, c: Coordinate)
        requires
            store_wf(*old(self)),
            -1100000 <= c.x <= 1100000,
            -1100000 <= c.y <= 1100000,
        ensures
            store_wf(*final(self)),
            final(self).ball == c,
            final(self).heading == old(self).heading,
            final(self).coordinate == old(self).coordinate,
            final(self).goal == old(self).goal,
    {
        self.ball = c;
    }

    /// Publish a goal position.
    pub fn set_goal(&mut self, c: Coordinate)
        requires
            store_wf(*old(self)),
            -1100000 <= c.x <= 1100000,
            -1100000 <= c.y <= 1100000,
        ensures
            store_wf(*final(self)),
            final(self).goal == c,
            final(self).heading == old(self).heading,
            final(self).coordinate == old(self).coordinate,
            final(self).ball == old(self).ball,
    {
        self.goal = c;
    }
}

} // verus!
