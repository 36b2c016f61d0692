//! Decision logic of the space game client: backdrop streaming, prediction focus handling,
//! guest connection and session recovery, and the text and layout rules of the overlays.
pub mod text;
pub mod components;
pub mod backdrop;
pub mod focus;
pub mod network;
pub mod guest;
pub mod palette;
pub mod hud;
pub mod flame;
pub mod input;
pub mod menu;
pub mod frame;
pub mod remote_health;
