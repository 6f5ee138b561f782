//! Scene simulation core for a heightmap-terrain walker: an orbiting
//! third-person camera, input accumulation, procedural terrain topology,
//! nearest-cell height sampling, seek-based actor movement and ground-plane
//! picking. All continuous quantities are held in exact fixed-point
//! (milliunit / millidegree) arithmetic so that every rule can be verified;
//! the graphics host converts to floating point at the boundary.

pub mod fixed;

pub mod camera;
pub mod controller;
pub mod world;
pub mod terrain;
pub mod player;
pub mod picking;
pub mod model;
pub mod texture;
pub mod scene;
