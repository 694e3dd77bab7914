use vstd::prelude::*;

use super::Parasitics;

verus! {

/// A rhombic drive: two crankshafts geared together move the power piston
/// and the displacer through connecting rods.
///
/// The volume variations themselves are trigonometric and run in the host
/// application; this type carries the drive's parameters.
#[allow(non_snake_case)]
#[derive(Debug, Clone, Copy)]
pub struct RhombicDrive<T> {
    frequency: T,
    geometry: Geometry<T>,
    parasitics: Parasitics<T>,
    R_comp: T,
    R_exp: T,
    V_clearance_c: T,
    V_clearance_e: T,
}

/// The linkage geometry of a rhombic drive, lengths in m.
#[allow(non_snake_case)]
#[derive(Debug, Clone, Copy)]
pub struct Geometry<T> {
    pub eccentricity: T,
    pub r_crank: T,
    pub D_p: T,
    pub D_d: T,
    pub L_conn: T,
}

/// Configuration for a rhombic drive.
#[allow(non_snake_case)]
#[derive(Debug, Clone, Copy)]
pub struct Config<T> {
    pub frequency: T,
    pub V_clearance_c: T,
    pub R_c: T,
    pub W_parasitic_c: T,
    pub V_clearance_e: T,
    pub R_e: T,
    pub W_parasitic_e: T,
    pub Q_parasitic_e: T,
    pub r_crank: T,
    pub L_conn: T,
    pub eccentricity: T,
    pub D_p: T,
    pub D_d: T,
}

impl<T: Copy> RhombicDrive<T> {
    /// The frequency the drive was created with.
    pub closed spec fn spec_frequency(self) -> T {
        self.frequency
    }

    /// The linkage geometry the drive was created with.
    pub closed spec fn spec_geometry(self) -> Geometry<T> {
        self.geometry
    }

    /// The parasitic losses the drive was created with.
    pub closed spec fn spec_parasitics(self) -> Parasitics<T> {
        self.parasitics
    }

    /// The thermal resistances the drive was created with.
    pub closed spec fn spec_thermal_resistances(self) -> (T, T) {
        (self.R_comp, self.R_exp)
    }

    /// The clearance volumes the drive was created with.
    pub closed spec fn spec_clearance_volumes(self) -> (T, T) {
        (self.V_clearance_c, self.V_clearance_e)
    }

    /// Create a rhombic drive.
    #[allow(non_snake_case)]
    pub fn new(
        frequency: T,
        geometry: Geometry<T>,
        parasitics: Parasitics<T>,
        R_comp: T,
        R_exp: T,
        V_clearance_c: T,
        V_clearance_e: T,
    ) -> (r: Self)
        ensures
            r.spec_frequency() == frequency,
            r.spec_geometry() == geometry,
            r.spec_parasitics() == parasitics,
            r.spec_thermal_resistances() == (R_comp, R_exp),
            r.spec_clearance_volumes() == (V_clearance_c, V_clearance_e),
    {
        Self { frequency, geometry, parasitics, R_comp, R_exp, V_clearance_c, V_clearance_e }
    }

    /// Returns the frequency (Hz) of the engine.
    pub fn frequency(&self) -> (r: T)
        ensures
            r == self.spec_frequency(),
    {
        self.frequency
    }

    /// Returns the linkage geometry of the drive.
    pub fn geometry(&self) -> (r: Geometry<T>)
        ensures
            r == self.spec_geometry(),
    {
        self.geometry
    }

    /// Returns the parasitic power associated with the working spaces.
    pub fn parasitics(&self) -> (r: Parasitics<T>)
        ensures
            r == self.spec_parasitics(),
    {
        self.parasitics
    }

    /// Returns the thermal resistances of the compression and expansion
    /// spaces, in that order.
    pub fn thermal_resistances(&self) -> (r: (T, T))
        ensures
            r == self.spec_thermal_resistances(),
    {
        (self.R_comp, self.R_exp)
    }

    /// Returns the clearance volumes of the compression and expansion
    /// spaces, in that order.
    pub fn clearance_volumes(&self) -> (r: (T, T))
        ensures
            r == self.spec_clearance_volumes(),
    {
        (self.V_clearance_c, self.V_clearance_e)
    }
}

} // verus!
