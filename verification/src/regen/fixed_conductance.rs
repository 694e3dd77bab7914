use vstd::prelude::*;

use crate::types::ParasiticPower;

verus! {

/// A fixed conductance regenerator: its thermal performance is
/// characterized by a constant UA value, from which the host application
/// derives the approach temperature at the current operating point.
#[allow(non_snake_case)]
#[derive(Debug, Clone, Copy)]
pub struct FixedConductance<T> {
    R_hyd: T,
    volume: T,
    UA: T,
    parasitics: ParasiticPower<T>,
}

/// Configuration for a fixed conductance regenerator.
#[allow(non_snake_case)]
#[derive(Debug, Clone, Copy)]
pub struct Config<T> {
    pub vol: T,
    pub UA: T,
    pub R_hyd: T,
    pub Q_parasitic: T,
}

impl<T: Copy> FixedConductance<T> {
    /// The volume the component was created with.
    pub closed spec fn spec_volume(self) -> T {
        self.volume
    }

    /// The UA value the component was created with.
    pub closed spec fn spec_conductance(self) -> T {
        self.UA
    }

    /// The hydraulic resistance the component was created with.
    pub closed spec fn spec_hydraulic_resistance(self) -> T {
        self.R_hyd
    }

    /// The parasitic losses the component was created with.
    pub closed spec fn spec_parasitics(self) -> ParasiticPower<T> {
        self.parasitics
    }

    /// Create a fixed conductance regenerator.
    ///
    /// # Arguments
    ///
    /// * `volume` - the void volume of the regenerator (in m^3).
    /// * `R_hyd` - the hydraulic resistance of the regenerator (in Pa-s/m^3).
    /// * `UA` - the UA of the regenerator (in W/K).
    /// * `parasitics` - the parasitic losses associated with the regenerator (all in W).
    #[allow(non_snake_case)]
    pub fn new(volume: T, R_hyd: T, UA: T, parasitics: ParasiticPower<T>) -> (r: Self)
        ensures
            r.spec_volume() == volume,
            r.spec_hydraulic_resistance() == R_hyd,
            r.spec_conductance() == UA,
            r.spec_parasitics() == parasitics,
    {
        Self { R_hyd, volume, UA, parasitics }
    }

    /// Returns the void volume of the regenerator.
    pub fn volume(&self) -> (r: T)
        ensures
            r == self.spec_volume(),
    {
        self.volume
    }

    /// Returns the UA of the regenerator in W/K.
    pub fn conductance(&self) -> (r: T)
        ensures
            r == self.spec_conductance(),
    {
        self.UA
    }

    /// Returns the hydraulic resistance in Pa-s/m^3 of the regenerator.
    pub fn hydraulic_resistance(&self) -> (r: T)
        ensures
            r == self.spec_hydraulic_resistance(),
    {
        self.R_hyd
    }

    /// Returns the parasitic power associated with the regenerator.
    pub fn parasitics(&self) -> (r: ParasiticPower<T>)
        ensures
            r == self.spec_parasitics(),
    {
        self.parasitics
    }
}

} // verus!
