//! A shared economy of electricity, heat and deuterium.
//!
//! Components such as a reactor, a battery or a laser give to and take from
//! one ledger. Time advances in ticks, and in each tick a manager settles
//! who gives and who takes how much, in an order that is fixed beforehand.
//! All quantities are fixed-point numbers.

pub mod battery;
pub mod capacitor;
pub mod component;
pub mod device;
pub mod laser;
pub mod laws;
pub mod manager;
pub mod passes;
pub mod radiator;
pub mod reactor;
pub mod resources;
pub mod scalar;
pub mod tank;
pub mod text;

pub use battery::{Battery, BatteryData};
pub use capacitor::Capacitor;
pub use component::{Component, Idle};
pub use device::Device;
pub use laser::Laser;
pub use manager::ComponentManager;
pub use radiator::Radiator;
pub use reactor::{FusionReactor, ReactorPhase};
pub use resources::{GameTime, Quantity, Resources};
pub use tank::DeuteriumTank;
