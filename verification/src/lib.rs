//! Realms is a lightweight library which provides graphics and game
//! functionality.
//!
//! This crate holds the platform-independent core: colors, pixel textures,
//! keyboard and mouse codes, vertex attribute layouts and shader bookkeeping.
//! Everything here carries a contract and is checked by Verus; the thin
//! layer that talks to the window system and the GPU driver lives outside
//! of it and hands plain values in and out.

pub mod data;
pub mod input;
pub mod shader;
pub mod texture;
pub mod vertex;
