use vstd::prelude::*;

use crate::types::ParasiticPower;

verus! {

/// A fixed approach cold heat exchanger: its approach temperature is a
/// constant of the component, whatever the engine state.
#[allow(non_snake_case)]
#[derive(Debug, Clone, Copy)]
pub struct FixedApproach<T> {
    R_hyd: T,
    volume: T,
    approach: T,
    parasitics: ParasiticPower<T>,
}

/// Configuration for a fixed approach cold heat exchanger.
#[allow(non_snake_case)]
#[derive(Debug, Clone, Copy)]
pub struct Config<T> {
    pub vol: T,
    pub DT: T,
    pub R_hyd: T,
    pub W_parasitic: T,
}

impl<T: Copy> FixedApproach<T> {
    /// The volume the component was created with.
    pub closed spec fn spec_volume(self) -> T {
        self.volume
    }

    /// The approach temperature the component was created with.
    pub closed spec fn spec_approach(self) -> T {
        self.approach
    }

    /// The hydraulic resistance the component was created with.
    pub closed spec fn spec_hydraulic_resistance(self) -> T {
        self.R_hyd
    }

    /// The parasitic losses the component was created with.
    pub closed spec fn spec_parasitics(self) -> ParasiticPower<T> {
        self.parasitics
    }

    /// Create a fixed approach cold heat exchanger.
    ///
    /// # Arguments
    ///
    /// * `volume` - the volume of the heat exchanger (in m^3).
    /// * `R_hyd` - the hydraulic resistance of the heat exchanger (in Pa-s/m^3).
    /// * `approach` - the approach temperature of the heat exchanger (in K).
    /// * `parasitics` - the parasitic losses associated with the heat exchanger (all in W).
    #[allow(non_snake_case)]
    pub fn new(volume: T, R_hyd: T, approach: T, parasitics: ParasiticPower<T>) -> (r: Self)
        ensures
            r.spec_volume() == volume,
            r.spec_hydraulic_resistance() == R_hyd,
            r.spec_approach() == approach,
            r.spec_parasitics() == parasitics,
    {
        Self { R_hyd, volume, approach, parasitics }
    }

    /// Returns the internal volume of the heat exchanger.
    pub fn volume(&self) -> (r: T)
        ensures
            r == self.spec_volume(),
    {
        self.volume
    }

    /// Returns the approach temperature of the heat exchanger: the
    /// difference in Kelvin between the working fluid in the cold heat
    /// exchanger and the cold sink, constant for this model.
    pub fn approach(&self) -> (r: T)
        ensures
            r == self.spec_approach(),
    {
        self.approach
    }

    /// Returns the hydraulic resistance in Pa-s/m^3 of the heat exchanger.
    pub fn hydraulic_resistance(&self) -> (r: T)
        ensures
            r == self.spec_hydraulic_resistance(),
    {
        self.R_hyd
    }

    /// Returns the parasitic power associated with the heat exchanger.
    pub fn parasitics(&self) -> (r: ParasiticPower<T>)
        ensures
            r == self.spec_parasitics(),
    {
        self.parasitics
    }

    /// Returns a reasonable initial approach temperature: for this model,
    /// the approach itself.
    pub fn initial_approach(&self) -> (r: T)
        ensures
            r == self.spec_approach(),
    {
        self.approach
    }
}

} // verus!
