//! Interval sampling of a decoded video stream: which frames are taken, how
//! their still images are named and laid out, which row describes each of
//! them, and the session loop that bounds the total running time.

pub mod error;
pub mod sampler;
pub mod text;
pub mod timing;
pub mod identity;
pub mod naming;
pub mod raster;
pub mod session;
pub mod trace;
pub mod config;
pub mod frame;
