//! Verified core of a small citro3d/citro2d rendering helper for the Nintendo 3DS:
//! colour packing, display-transfer flags, texture-combiner (TexEnv) stage setup,
//! matrix layout conversion and the float-uniform bank of the vertex/geometry shaders.
#![allow(non_snake_case)]

pub mod color;
pub mod texenv;
pub mod matrix;
pub mod uniforms;
pub mod transfer;
