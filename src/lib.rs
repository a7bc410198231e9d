//! Named household lights, exposed as network devices that forward a pulse
//! to a lighting controller.

pub mod command;
pub mod config;
pub mod startup;
pub mod thing;
