//! A verified core for a collaborative 3D world editor.
//!
//! The editor persists placed objects (transform, asset reference, collision
//! shape) in a replicated table owned by a reactive database runtime and
//! mutates them through a small set of validated reducers.  This crate holds
//! the part of that system that is worth proving: the asset-path validator,
//! the object schema, and the reducer logic as a state machine over an
//! in-memory model of the replicated table.  Rendering, input handling and
//! the network runtime itself stay outside; they exchange plain values with
//! the functions here.
//!
//! Transforms are carried as IEEE-754 bit patterns (`u32` per component):
//! the reducers never compute with the coordinates, they only store and
//! replace them, so an exact bit-level carrier keeps every contract precise
//! without floating-point reasoning.

pub mod asset_browser;
pub mod asset_path;
pub mod config;
pub mod decimal;
pub mod flycam;
pub mod players;
pub mod shape;
pub mod transform_tools;
pub mod types;
pub mod world;
