//! The integer-valued rules of a lunar lander game: the landing score, the
//! flight outcome and per-frame control decisions, the star-field random
//! stream, HUD status text, mesh triangulation, dust streak choice and the
//! screenshot schedule.

pub mod score;
pub mod flight;
pub mod stars;
pub mod hud;
pub mod mesh;
pub mod dust;
pub mod screenshot;
