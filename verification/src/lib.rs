//! Drive-train and terrain-coupling logic for crawler and wheeled heavy
//! equipment, over fixed-point quantities.

pub mod controller;
pub mod controls;
pub mod coupling;
pub mod input;
pub mod laws;
pub mod params;
pub mod units;
