//! Verified core of a headless STL gallery renderer.
pub mod camera;
pub mod renderer;
pub mod mesh;
pub mod gallery;
pub mod encode;
