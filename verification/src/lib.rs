//! Game rules of the Eldritch Hero survivor game: progression, combat
//! resolution, skills, relics, upgrades and horror behaviour, stated and
//! proved over plain integer models. Rendering, timing and floating-point
//! tuning live with the engine glue outside this crate.

pub mod channeling;
pub mod combat;
pub mod game;
pub mod horror;
pub mod items;
pub mod projectiles;
pub mod random;
pub mod relics;
pub mod skills;
pub mod survivor;
pub mod upgrades;
pub mod weapons;
