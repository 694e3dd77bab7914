//! Mass-flow directions at the four control-volume interfaces, and how
//! they are derived from the signs of a solution.

use vstd::prelude::*;

verus! {

/// A direction of mass flow at one control-volume interface.
///
/// `Unknown` is the only valid starting hypothesis; `Positive` and
/// `Negative` are always derived from the sign of a solved mass-flow rate.
#[derive(Debug, Clone, Copy, PartialEq, Eq, Structural)]
pub enum Direction {
    Positive,
    Negative,
    Unknown,
}

/// Whether each of the four solved mass-flow rates is strictly negative.
///
/// This is the only fact about a solution that direction resolution reads.
/// A rate of exactly zero is not negative, so by the convention below it
/// yields a positive direction.
#[derive(Debug, Clone, Copy, PartialEq, Eq, Structural)]
pub struct FlowSigns {
    pub ck_negative: bool,
    pub kr_negative: bool,
    pub rl_negative: bool,
    pub le_negative: bool,
}

impl Direction {
    /// The direction carried by the sign of a mass-flow rate: negative
    /// rates flow backwards, all other rates — zero included — forwards.
    pub open spec fn spec_from_sign(negative: bool) -> Direction {
        if negative {
            Direction::Negative
        } else {
            Direction::Positive
        }
    }

    /// Return a `Direction` based on the sign of a solved rate.
    ///
    /// A rate of exactly `0` counts as nonnegative, so a positive direction
    /// is assumed.
    pub fn from_sign(negative: bool) -> (r: Direction)
        ensures
            r == Direction::spec_from_sign(negative),
    {
        if negative {
            Direction::Negative
        } else {
            Direction::Positive
        }
    }

    /// The value a direction picks: the upstream candidate of known flow,
    /// and the blended value while the direction is unknown.
    pub open spec fn spec_select<T>(self, positive: T, negative: T, blended: T) -> T {
        match self {
            Direction::Positive => positive,
            Direction::Negative => negative,
            Direction::Unknown => blended,
        }
    }

    /// Return a value based on the direction of `self`.
    ///
    /// `positive` is the upstream candidate for positive flow, `negative`
    /// the one for negative flow.  While the direction is still `Unknown`
    /// the caller supplies `blended`, the arithmetic average of the two
    /// candidates, and that is what is returned.
    pub fn select<T>(self, positive: T, negative: T, blended: T) -> (r: T)
        ensures
            r == self.spec_select(positive, negative, blended),
            self is Positive ==> r == positive,
            self is Negative ==> r == negative,
            self is Unknown ==> r == blended,
    {
        match self {
            Direction::Positive => positive,
            Direction::Negative => negative,
            Direction::Unknown => blended,
        }
    }
}

/// The direction of mass flow between each control volume.
///
/// The abbreviations are:
///   - `ck` compression space to cold heat exchanger
///   - `kr` cold heat exchanger to regenerator
///   - `rl` regenerator to hot heat exchanger
///   - `le` hot heat exchanger to expansion space
///
/// Positive flow is from the first volume in the abbreviation to the second.
/// For example, a `Direction::Positive` for `kr` means mass is flowing from
/// the cold heat exchanger into the regenerator.  A `Direction::Negative`
/// for `le` means flow is from the expansion space to the hot heat
/// exchanger.
#[derive(Debug, Clone, Copy, PartialEq, Eq, Structural)]
pub struct FlowDirection {
    pub ck: Direction,
    pub kr: Direction,
    pub rl: Direction,
    pub le: Direction,
}

impl FlowDirection {
    /// The cold-start hypothesis: every interface direction is unknown.
    pub open spec fn unknown() -> FlowDirection {
        FlowDirection {
            ck: Direction::Unknown,
            kr: Direction::Unknown,
            rl: Direction::Unknown,
            le: Direction::Unknown,
        }
    }

    /// The directions determined by the signs of a solution's four
    /// mass-flow rates.
    pub open spec fn spec_from_signs(signs: FlowSigns) -> FlowDirection {
        FlowDirection {
            ck: Direction::spec_from_sign(signs.ck_negative),
            kr: Direction::spec_from_sign(signs.kr_negative),
            rl: Direction::spec_from_sign(signs.rl_negative),
            le: Direction::spec_from_sign(signs.le_negative),
        }
    }

    /// Determine the flow directions from the signs of a solution.
    pub fn from_signs(signs: FlowSigns) -> (r: FlowDirection)
        ensures
            r == FlowDirection::spec_from_signs(signs),
    {
        FlowDirection {
            ck: Direction::from_sign(signs.ck_negative),
            kr: Direction::from_sign(signs.kr_negative),
            rl: Direction::from_sign(signs.rl_negative),
            le: Direction::from_sign(signs.le_negative),
        }
    }
}

/// Law: a solved direction is never unknown.  `Unknown` is only a valid
/// starting hypothesis; whatever a solution's signs are, the directions
/// derived from them are all positive or negative, so after its first
/// observation a resolver never averages enthalpies again.
pub proof fn lemma_solved_directions_are_known(signs: FlowSigns)
    ensures
        FlowDirection::spec_from_signs(signs).ck != Direction::Unknown,
        FlowDirection::spec_from_signs(signs).kr != Direction::Unknown,
        FlowDirection::spec_from_signs(signs).rl != Direction::Unknown,
        FlowDirection::spec_from_signs(signs).le != Direction::Unknown,
{
}

impl Default for FlowDirection {
    /// The default hypothesis for a cold start: all directions unknown.
    fn default() -> (r: Self)
        ensures
            r == FlowDirection::unknown(),
    {
        FlowDirection {
            ck: Direction::Unknown,
            kr: Direction::Unknown,
            rl: Direction::Unknown,
            le: Direction::Unknown,
        }
    }
}

} // verus!
