//! The sampled trajectory of one cycle integration and its boundary
//! accessors.

use vstd::prelude::*;

use super::types::Conditions;

verus! {

/// The conditions within the cycle at a point in time.
#[derive(Debug, Clone, Copy)]
pub struct Point<T> {
    pub time: T,
    pub conditions: Conditions<T>,
}

/// An integration of the state equations over one cycle: the ordered
/// samples that the ODE stepper reported, spanning time zero to the cycle
/// period.
///
/// An `Integration` is only ever built from a non-empty list of samples —
/// a failed integration produces none at all — so the boundary accessors
/// below need no precondition.
#[derive(Debug)]
pub struct Integration<T> {
    points: Vec<Point<T>>,
}

impl<T> Integration<T> {
    /// A trajectory always holds at least one sample.
    #[verifier::type_invariant]
    pub closed spec fn inv(self) -> bool {
        self.points@.len() > 0
    }

    /// The samples, in the order the stepper produced them.
    pub closed spec fn points_seq(self) -> Seq<Point<T>> {
        self.points@
    }

    /// Adopt the samples of a completed integration.  Returns `None` when
    /// the list is empty, which no completed integration produces.
    pub fn new(points: Vec<Point<T>>) -> (r: Option<Self>)
        ensures
            r is None <==> points@.len() == 0,
            r matches Some(integration) ==> integration.points_seq() == points@,
    {
        if points.len() == 0 {
            None
        } else {
            Some(Integration { points })
        }
    }

    /// The number of samples.
    pub fn len(&self) -> (r: usize)
        ensures
            r == self.points_seq().len(),
            r > 0,
    {
        proof {
            use_type_invariant(self);
        }
        self.points.len()
    }

    /// Give the samples back, consuming the integration.
    pub fn into_points(self) -> (r: Vec<Point<T>>)
        ensures
            r@ == self.points_seq(),
            r@.len() > 0,
    {
        proof {
            use_type_invariant(&self);
        }
        self.points
    }
}

impl<T: Copy> Integration<T> {
    /// Return the final time of the integration.
    pub fn final_time(&self) -> (r: T)
        ensures
            r == self.points_seq().last().time,
    {
        proof {
            use_type_invariant(self);
        }
        let last: usize = self.points.len() - 1;
        self.points[last].time
    }

    /// Return the conditions at the end of the integration.
    pub fn final_conditions(&self) -> (r: Conditions<T>)
        ensures
            r == self.points_seq().last().conditions,
    {
        proof {
            use_type_invariant(self);
        }
        let last: usize = self.points.len() - 1;
        self.points[last].conditions
    }

    /// Return the conditions at the start of the integration.
    pub fn initial_conditions(&self) -> (r: Conditions<T>)
        ensures
            r == self.points_seq().first().conditions,
    {
        proof {
            use_type_invariant(self);
        }
        self.points[0].conditions
    }

    /// Return the sample at `index`.
    pub fn point_at(&self, index: usize) -> (r: Point<T>)
        requires
            index < self.points_seq().len(),
        ensures
            r == self.points_seq()[index as int],
    {
        self.points[index]
    }
}

} // verus!
