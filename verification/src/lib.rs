//! A Monte-Carlo path tracer: a bounding-volume hierarchy over sphere
//! primitives, a recursive path-tracing shader, a thin-lens camera, and a
//! per-pixel sample accumulator, rendering to a portable-pixmap byte stream.
pub mod accelerator;
pub mod boundingbox;
pub mod camera;
pub mod fbits;
pub mod hitable;
pub mod image;
pub mod material;
pub mod mathutils;
pub mod ray;
pub mod raytracer;
pub mod render;
pub mod rng;
pub mod samples;
pub mod scene;
pub mod texture;
pub mod vectors;

pub use accelerator::{sort_hitables, BoundingBoxNode, BvhChild};
pub use boundingbox::BoundingBox;
pub use camera::Camera;
pub use fbits::Float;
pub use hitable::{HitRecord, Object, Primitive, Sphere};
pub use image::{Image, ImageBuilder};
pub use material::{BaseMaterial, DiffuseLight, Material, Metal};
pub use mathutils::{clamp, max, min, sigmoid, to_color};
pub use ray::Ray;
pub use raytracer::{get_color, get_color_simple};
pub use render::{render, render_sample, PixelData};
pub use rng::WorkerRng;
pub use samples::{basic_scene, gen_random_material, gen_random_sphere, get_metal};
pub use scene::Scene;
pub use texture::ConstantTexture;
pub use vectors::Vec3;
