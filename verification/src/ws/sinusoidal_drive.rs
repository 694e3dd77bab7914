use vstd::prelude::*;

use super::{Parasitics, ThermalResistance};

verus! {

/// A drive whose two pistons move sinusoidally, the expansion piston
/// leading the compression piston by a fixed phase angle.
///
/// The volume variations themselves are trigonometric and run in the host
/// application; this type carries the drive's parameters.
#[derive(Debug, Clone, Copy)]
pub struct SinusoidalDrive<T> {
    /// Engine frequency in Hz.
    pub frequency: T,
    /// Phase angle in degrees by which the expansion volume leads.
    pub phase_angle: T,
    pub comp_geometry: Geometry<T>,
    pub exp_geometry: Geometry<T>,
    pub thermal_resistance: ThermalResistance<T>,
    pub parasitics: Parasitics<T>,
}

/// The clearance and swept volume of one working space, in m^3.
#[derive(Debug, Clone, Copy)]
pub struct Geometry<T> {
    pub clearance_volume: T,
    pub swept_volume: T,
}

/// Configuration for a sinusoidal drive.
#[allow(non_snake_case)]
#[derive(Debug, Clone, Copy)]
pub struct SinusoidalDriveConfig<T> {
    pub frequency: T,
    pub phase_angle: T,
    pub V_swept_c: T,
    pub V_clearance_c: T,
    pub R_c: T,
    pub W_parasitic_c: T,
    pub V_swept_e: T,
    pub V_clearance_e: T,
    pub R_e: T,
    pub W_parasitic_e: T,
    pub Q_parasitic_e: T,
}

} // verus!
