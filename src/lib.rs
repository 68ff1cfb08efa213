//! Gameplay rules of a small drone simulator: the visual-mode toggle of the
//! main camera, the player's lift impulse, the camera synchronisation and the
//! heads-up interface. The engine that renders, simulates and lays out the
//! scene hands these rules plain values and applies what they return.

pub mod input;
pub mod materials;
pub mod camera;
pub mod player;
pub mod ui;
