use vstd::prelude::*;

verus! {

/// The friction-factor correlations available to the detailed
/// regenerator models.
#[derive(Debug, Clone, Copy, PartialEq, Eq, Structural)]
pub enum FrictionFactorCorrelation {
    GedeonWood,
}

/// The Colburn j-factor correlations available to the detailed
/// regenerator models.
#[derive(Debug, Clone, Copy, PartialEq, Eq, Structural)]
pub enum JFactorCorrelation {
    GedeonWood,
}

} // verus!
