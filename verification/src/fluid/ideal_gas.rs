use vstd::prelude::*;

verus! {

/// The fluids for which an ideal-gas property model is available.
///
/// The model itself — a gas constant and polynomial heat-capacity fits —
/// is numeric and runs in the host application; the name selects which
/// fit it loads.
#[derive(Debug, Clone, Copy, PartialEq, Eq, Structural)]
pub enum Name {
    Helium,
    Hydrogen,
}

} // verus!
