//! A side-scrolling flying game: a player flaps through gaps in obstacles over
//! scrolling ground and collects power-ups that restore stamina.

/// The scrolling viewport.
pub mod camera;
/// The flying sprite and its physics.
pub mod player;
/// Obstacles, the ground and power-ups, with their collision rules.
pub mod element;
/// The session: the menu, play and end screens and one tick of play.
pub mod session;
