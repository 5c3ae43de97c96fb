//! Decision logic of a webcam background-effects daemon and its control panel:
//! the pipeline blueprint, the effect switching plan, camera selection, the
//! daemon's lifecycle supervisor, segmentation pre- and post-processing, the
//! settings and their defaults, and the text handling they need.

pub mod text;
pub mod camera;
pub mod daemon;
pub mod effects;
pub mod blueprint;
pub mod segmentation;
pub mod settings;
