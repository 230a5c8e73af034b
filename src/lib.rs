//! The tile fetch bridge: the decisions between a map-tile request from the
//! GUI and the data URL (or error text) handed back to it.
//!
//! The host performs the outside work (checking that files exist, running the
//! renderer script, reading the image) and feeds the results to the verified
//! functions here, which decide what happens next.

use vstd::prelude::*;

pub mod bridge;
pub mod encoding;
pub mod output;
pub mod paths;
