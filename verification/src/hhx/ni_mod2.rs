use vstd::prelude::*;

verus! {

/// A Mod II/I hot heat exchanger heated by a nuclear isomer instead of a
/// combustor.
///
/// The detailed correlations for this model run in the host application;
/// the type stands here so a configuration can select it.
#[derive(Debug, Clone, Copy, PartialEq, Eq, Structural)]
pub struct NuclearIsomerMod2 {}

/// Configuration for a nuclear-isomer Mod II/I hot heat exchanger.
#[derive(Debug, Clone, Copy, PartialEq, Eq, Structural)]
pub struct Config {}

} // verus!
