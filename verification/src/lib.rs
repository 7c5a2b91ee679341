//! The decisions of a path tracer, with their proofs.
//!
//! A renderer estimates the light that reaches each pixel by following rays
//! through a scene. What it computes is arithmetic on hardware numbers; what
//! it decides is not: when a path ends, which lights count, whether a ray
//! reflects, refracts or scatters, in which medium it goes on, which texture
//! a surface is read from. This library holds the scene's data and every such
//! decision, each proved against the rule it follows. Numbers are carried by
//! their encodings (`scalar`), so that the comparisons that the decisions
//! rest on are exact.
pub mod color;
pub mod common;
pub mod configs;
pub mod consts;
pub mod geometry;
pub mod raytracer;
pub mod renderer;
pub mod scalar;
pub mod vector;
