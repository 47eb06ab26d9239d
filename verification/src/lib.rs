//! Presentation rules of a turn-based tactics game: board geometry, the
//! battle HUD and its copy, pointer and command routing, event playback,
//! marker reconciliation and the campaign screens. Every decision is a
//! function of plain battle and campaign facts.

pub mod assets;
pub mod campaign;
pub mod hud;
pub mod interaction;
pub mod layout;
pub mod menu;
pub mod model;
pub mod playback;
pub mod text;
pub mod theme;
pub mod sync;
