#![allow(non_snake_case)]

pub mod beatmap;
pub mod model;

pub use crate::beatmap::Beatmap;
pub use crate::beatmap::BeatmapError;
pub use crate::beatmap::BeatmapView;
