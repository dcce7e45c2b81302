//! What the renderer decides before it draws anything.

pub mod devices;
pub mod validation_layers;
