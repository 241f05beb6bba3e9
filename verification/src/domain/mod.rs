//! Domain hierarchy: Manufacturer -> VehiclePlatform -> Vehicle -> Protocol.
//! The core only depends on these abstractions; `bmw::Bmw` is one concrete
//! manufacturer, registered like any other and never special-cased.

pub mod bmw;

use vstd::prelude::*;

verus! {

/// A vehicle manufacturer supported by the app.
pub trait Manufacturer: Send + Sync {
    fn name(&self) -> &'static str;

    fn platforms(&self) -> &'static [&'static str];
}

/// A platform/generation within a manufacturer (e.g. "F-Series").
/// Determines which protocol applies to a given `Vehicle`.
#[derive(Debug, Clone)]
pub struct VehiclePlatform {
    pub manufacturer: &'static str,
    pub name: &'static str,
    pub protocol: &'static str,
}

/// A concrete vehicle instance (identification only for now).
#[derive(Debug, Clone)]
pub struct Vehicle {
    pub vin: String,
    pub platform: VehiclePlatform,
}

} // verus!
