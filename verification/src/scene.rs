//! The scene: objects, a camera, and the acceleration tree built over the
//! objects.
use crate::accelerator::{spec_build, spec_child_bounds, spec_node_hit, BoundingBoxNode};
use crate::boundingbox::{spec_surrounding, BoundingBox};
use crate::camera::{spec_camera_new, Camera};
use crate::fbits::{f64_neg, neg_bits, Float, FIVE_BITS, ONE_BITS, TWO_BITS, ZERO_BITS};
use crate::hitable::{HitRecord, Object};
use crate::ray::Ray;
use crate::vectors::{spec_vec3, Vec3};
use vstd::prelude::*;

verus! {

pub struct Scene {
    pub objects: Vec<Object>,
    pub camera: Camera,
    pub accelerator: Option<BoundingBoxNode>,
}

/// The default camera: at (0, 2, -5), looking at the origin, with y up.
pub open spec fn spec_default_camera() -> Camera {
    spec_camera_new(
        spec_vec3(ZERO_BITS, TWO_BITS, f64_neg(FIVE_BITS)),
        spec_vec3(ZERO_BITS, ZERO_BITS, ZERO_BITS),
        spec_vec3(ZERO_BITS, ONE_BITS, ZERO_BITS),
    )
}

impl Scene {
    /// An empty scene with the default camera and no acceleration tree.
    pub fn new() -> (r: Scene)
        ensures
            r.objects@ == Seq::<Object>::empty(),
            r.camera == spec_default_camera(),
            r.accelerator is None,
    {
        Scene {
            objects: Vec::new(),
            camera: Camera::new(
                Vec3::new(ZERO_BITS, TWO_BITS, neg_bits(FIVE_BITS)),
                Vec3::new(ZERO_BITS, ZERO_BITS, ZERO_BITS),
                Vec3::new(ZERO_BITS, ONE_BITS, ZERO_BITS),
            ),
            accelerator: None,
        }
    }

    pub fn add_object(&mut self, obj: Object)
        ensures
            final(self).objects@ == old(self).objects@.push(obj),
            final(self).camera == old(self).camera,
            final(self).accelerator == old(self).accelerator,
    {
        self.objects.push(obj);
    }

    pub fn get_mutable_camera(&mut self) -> (r: &mut Camera)
        ensures
            *r == old(self).camera,
            final(self).camera == *final(r),
            final(self).objects@ == old(self).objects@,
            final(self).accelerator == old(self).accelerator,
    {
        &mut self.camera
    }

    pub fn get_slice(&self) -> (r: &Vec<Object>)
        ensures
            r@ == self.objects@,
    {
        &self.objects
    }

    /// Builds the acceleration tree over the scene's objects.
    pub fn build_accelerator(&mut self)
        requires
            old(self).objects@.len() >= 1,
        ensures
            final(self).accelerator == Some(spec_build(old(self).objects@)),
            final(self).objects@ == old(self).objects@,
            final(self).camera == old(self).camera,
    {
        self.accelerator = Some(BoundingBoxNode::new(&self.objects));
    }

    /// The nearest hit through the acceleration tree.
    pub fn hit(&self, r: &Ray, t_min: Float, t_max: Float, rec: &mut HitRecord) -> (h: bool)
        requires
            self.accelerator is Some,
        ensures
            h == spec_node_hit(self.accelerator->Some_0, *r, t_min, t_max).0,
            h ==> *final(rec) == spec_node_hit(self.accelerator->Some_0, *r, t_min, t_max).1,
            !h ==> *final(rec) == *old(rec),
    {
        self.accelerator.as_ref().unwrap().hit(r, t_min, t_max, rec)
    }

    /// The box the whole scene fits in, from the acceleration tree.
    pub fn bounding_box(&self) -> (b: BoundingBox)
        requires
            self.accelerator is Some,
        ensures
            b == spec_surrounding(
                spec_child_bounds(self.accelerator->Some_0.left),
                spec_child_bounds(self.accelerator->Some_0.right),
            ),
    {
        self.accelerator.as_ref().unwrap().bounding_box()
    }
}

} // verus!
