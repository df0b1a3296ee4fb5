//! Scene core of a real-time 3D renderer.
//!
//! The crate holds the logic of the scene: how a heightmap becomes terrain
//! geometry, how a binary model container becomes drawable meshes, which
//! texture layers a landscape carries, and what a frame draws and in which
//! order. GPU objects are described as plain data; a thin backend mirrors
//! the descriptions onto a device and performs the draw list.
//!
//! Floating-point values are carried through as their IEEE-754 bit patterns
//! (`u32` words): the scene logic moves them but never computes with them.

pub mod asset;
pub mod binding;
pub mod draw;
pub mod error;
pub mod gql;
pub mod grid;
pub mod heightmap;
pub mod input;
pub mod landscape;
pub mod layout;
pub mod loader;
pub mod model;
pub mod render_loop;
pub mod requests;
pub mod scene;
pub mod terrain;
pub mod texture;
pub mod transform;
pub mod vertex;
