//! Rendering core of a grid-based first-person dungeon crawler.
//!
//! The library decides everything a frame needs: which objects are bound, in
//! which order, which uniforms are uploaded and which draws are issued. It
//! records those decisions as a plan of [`commands::GlCommand`] values that a
//! thin executor replays against the graphics API.
pub mod commands;
pub mod frame;
pub mod geometry;
pub mod grid;
pub mod registry;
pub mod scene;
pub mod shader;
pub mod world;
