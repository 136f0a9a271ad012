//! Procedural generation of a science-fiction setting: galaxy, sectors,
//! star systems, stars and mainworlds, all derived reproducibly from a seed.
//!
//! Every coordinate of the galaxy has its own seed, derived by hashing its
//! parent seed with the coordinate; a seed gives a dice stream, and the
//! rules of the setting turn the dice of that stream, in a fixed order,
//! into stars, a mainworld and its extensions.
pub mod codes;
pub mod coordinate;
pub mod ehex;
pub mod extensions;
pub mod galaxy;
pub mod generators;
pub mod rng;
pub mod sector;
pub mod star;
pub mod stargen;
pub mod system;
pub mod uwp;
pub mod world;

pub use coordinate::Coordinate;
pub use ehex::{ehex, to_ehex};
pub use extensions::Extensions;
pub use galaxy::Galaxy;
pub use generators::{generate_sector, generate_system};
pub use rng::{Dice, Rollable, Seed};
pub use sector::Sector;
pub use star::{Class, Decimal, Size, Star, Stars};
pub use stargen::generate_stars;
pub use system::System;
pub use uwp::{generate_mainworld, Uwp};
pub use world::{Base, MainWorldType, Orbit, Starport, TravelZone, World};
