//! Surface materials and what each does to a ray that hits it.

use crate::hit::HitRecord;
use crate::ray::Ray;
use crate::scalar::Scalar;
use crate::vec3::{Color, Vec3};
use vstd::prelude::*;

verus! {

/// The outcome of one scattering event.
#[derive(Clone, Copy, Debug, PartialEq, Eq, Structural)]
pub struct Scatter {
    /// The ray goes on. When false it was absorbed and tracing stops.
    pub continues: bool,
    /// The colour by which the light carried along the ray is multiplied.
    pub attenuation: Color,
    /// The ray that leaves the surface.
    pub ray: Ray,
}

/// A matte surface that scatters into the hemisphere about its normal.
#[derive(Clone, Copy, Debug, PartialEq, Eq, Structural)]
pub struct Diffuse {
    pub albedo: Color,
}

impl Diffuse {
    /// What `scatter` returns.
    pub open spec fn spec_scatter(self, rec: HitRecord, sampled: Vec3) -> Scatter {
        Scatter {
            continues: true,
            attenuation: self.albedo,
            ray: Ray {
                origin: rec.point,
                direction: if sampled.spec_near_zero() { rec.normal } else { sampled },
            },
        }
    }

    /// Scatters along `sampled`, a direction drawn in the hemisphere about
    /// the normal. A draw that is near zero gives no direction, and the
    /// normal takes its place. The ray always goes on, tinted by the albedo.
    pub fn scatter(&self, rec: &HitRecord, sampled: Vec3) -> (r: Scatter)
        ensures
            r == self.spec_scatter(*rec, sampled),
            r.continues,
            r.attenuation == self.albedo,
    {
        let direction = if sampled.near_zero() { rec.normal } else { sampled };
        Scatter {
            continues: true,
            attenuation: self.albedo,
            ray: Ray { origin: rec.point, direction },
        }
    }
}

/// What the vector arithmetic supplies for a hit on metal.
#[derive(Clone, Copy, Debug, PartialEq, Eq, Structural)]
pub struct MetalSample {
    /// The mirror image of the incoming unit direction about the normal,
    /// moved by the fuzz times a point drawn in the unit sphere.
    pub direction: Vec3,
    /// The dot product of `direction` and the normal.
    pub facing: Scalar,
}

/// A mirror, the rougher the larger its fuzz.
#[derive(Clone, Copy, Debug, PartialEq, Eq, Structural)]
pub struct Metal {
    pub albedo: Color,
    /// Meant to lie within 0 and 1; other values are taken as they come.
    pub fuzz: Scalar,
}

impl Metal {
    /// What `scatter` returns.
    pub open spec fn spec_scatter(self, rec: HitRecord, sample: MetalSample) -> Scatter {
        Scatter {
            continues: sample.facing.spec_gt(Scalar::spec_zero()),
            attenuation: self.albedo,
            ray: Ray { origin: rec.point, direction: sample.direction },
        }
    }

    /// Sends the ray along the sampled direction, tinted by the albedo. It
    /// goes on only if that direction leaves the surface, that is if its dot
    /// product with the normal is above zero; one that points into the
    /// surface is absorbed as it is.
    pub fn scatter(&self, rec: &HitRecord, sample: &MetalSample) -> (r: Scatter)
        ensures
            r == self.spec_scatter(*rec, *sample),
            r.continues <==> sample.facing.spec_gt(Scalar::spec_zero()),
            r.attenuation == self.albedo,
            r.ray.direction == sample.direction,
    {
        Scatter {
            continues: sample.facing.gt(Scalar::zero()),
            attenuation: self.albedo,
            ray: Ray { origin: rec.point, direction: sample.direction },
        }
    }
}

/// What the arithmetic and the random source supply for a hit on a
/// dielectric, all for the refraction ratio that `refraction_ratio` gave and
/// the cosine that `incidence_cosine` gave.
#[derive(Clone, Copy, Debug, PartialEq, Eq, Structural)]
pub struct DielectricSample {
    /// The refraction ratio times the sine of the angle of incidence.
    pub ratio_sine: Scalar,
    /// Schlick's reflectance at that angle for that ratio.
    pub reflectance: Scalar,
    /// A uniform draw from 0 to 1.
    pub draw: Scalar,
    /// The mirror image of the incoming unit direction about the normal.
    pub reflected: Vec3,
    /// The incoming unit direction bent through the surface.
    pub refracted: Vec3,
}

/// Clear matter such as glass, which bends light or mirrors it.
#[derive(Clone, Copy, Debug, PartialEq, Eq, Structural)]
pub struct Dielectric {
    /// The index of refraction, above zero.
    pub ir: Scalar,
    /// Multiplied into the light on every path, the transmitted one too.
    pub tint: Color,
}

impl Dielectric {
    /// What `refraction_ratio` returns.
    pub open spec fn spec_refraction_ratio(self, front_face: bool, reciprocal: Scalar) -> Scalar {
        if front_face {
            reciprocal
        } else {
            self.ir
        }
    }

    /// What `incidence_cosine` returns.
    pub open spec fn spec_incidence_cosine(raw: Scalar) -> Scalar {
        raw.spec_min(Scalar::spec_one())
    }

    /// What `cannot_refract` returns.
    pub open spec fn spec_cannot_refract(ratio_sine: Scalar) -> bool {
        ratio_sine.spec_gt(Scalar::spec_one())
    }

    /// What `reflects` returns.
    pub open spec fn spec_reflects(sample: DielectricSample) -> bool {
        Dielectric::spec_cannot_refract(sample.ratio_sine) || sample.reflectance.spec_gt(sample.draw)
    }

    /// What `scatter` returns.
    pub open spec fn spec_scatter(self, rec: HitRecord, sample: DielectricSample) -> Scatter {
        Scatter {
            continues: true,
            attenuation: self.tint,
            ray: Ray {
                origin: rec.point,
                direction: if Dielectric::spec_reflects(sample) {
                    sample.reflected
                } else {
                    sample.refracted
                },
            },
        }
    }

    /// The ratio of the refractive indices on the two sides of the surface,
    /// from the side the ray comes from to the side it goes to: `reciprocal`,
    /// which is to be 1 over the index, for a ray that enters through the
    /// front face, and the index itself for one that leaves.
    #[verifier::when_used_as_spec(spec_refraction_ratio)]
    pub fn refraction_ratio(self, front_face: bool, reciprocal: Scalar) -> (r: Scalar)
        ensures
            r == self.spec_refraction_ratio(front_face, reciprocal),
    {
        if front_face {
            reciprocal
        } else {
            self.ir
        }
    }

    /// The cosine of the angle of incidence from `raw`, the dot product of
    /// the reversed incoming unit direction and the normal: the lesser of
    /// `raw` and 1, so that rounding cannot push it past 1.
    #[verifier::when_used_as_spec(spec_incidence_cosine)]
    pub fn incidence_cosine(raw: Scalar) -> (r: Scalar)
        ensures
            r == Dielectric::spec_incidence_cosine(raw),
    {
        raw.min(Scalar::one())
    }

    /// Total internal reflection: the refraction ratio times the sine of the
    /// angle of incidence is above 1, so no refracted ray exists.
    #[verifier::when_used_as_spec(spec_cannot_refract)]
    pub fn cannot_refract(ratio_sine: Scalar) -> (r: bool)
        ensures
            r == Dielectric::spec_cannot_refract(ratio_sine),
    {
        ratio_sine.gt(Scalar::one())
    }

    /// Whether the ray is mirrored: always under total internal reflection,
    /// and else when the reflectance is above the draw.
    #[verifier::when_used_as_spec(spec_reflects)]
    pub fn reflects(sample: DielectricSample) -> (r: bool)
        ensures
            r == Dielectric::spec_reflects(sample),
    {
        Dielectric::cannot_refract(sample.ratio_sine) || sample.reflectance.gt(sample.draw)
    }

    /// Sends the ray on, mirrored or refracted as `reflects` says, and
    /// tinted either way. A dielectric absorbs nothing.
    pub fn scatter(&self, rec: &HitRecord, sample: &DielectricSample) -> (r: Scatter)
        ensures
            r == self.spec_scatter(*rec, *sample),
            r.continues,
            r.attenuation == self.tint,
    {
        let direction = if Dielectric::reflects(*sample) {
            sample.reflected
        } else {
            sample.refracted
        };
        Scatter {
            continues: true,
            attenuation: self.tint,
            ray: Ray { origin: rec.point, direction },
        }
    }
}

/// Under total internal reflection the ray is mirrored whatever was drawn
/// and whatever the reflectance is.
pub proof fn lemma_total_internal_reflection_ignores_draw(
    dielectric: Dielectric,
    rec: HitRecord,
    sample: DielectricSample,
    draw: Scalar,
    reflectance: Scalar,
)
    requires
        sample.ratio_sine.spec_gt(Scalar::spec_one()),
    ensures
        dielectric.spec_scatter(rec, sample).ray.direction == sample.reflected,
        dielectric.spec_scatter(rec, (DielectricSample { draw, reflectance, ..sample }))
            == dielectric.spec_scatter(rec, sample),
{
}

/// What the caller supplies for one hit, by the kind of material.
#[derive(Clone, Copy, Debug, PartialEq, Eq, Structural)]
pub enum Sample {
    /// A direction drawn in the hemisphere about the normal.
    Diffuse { sampled: Vec3 },
    Metal { metal: MetalSample },
    Dielectric { dielectric: DielectricSample },
}

/// The closed set of materials.
#[derive(Clone, Copy, Debug, PartialEq, Eq, Structural)]
pub enum Material {
    Dielectric { dielectric: Dielectric },
    Metal { metal: Metal },
    Diffuse { diffuse: Diffuse },
}

impl Material {
    /// The sample is of the kind that this material takes.
    pub open spec fn takes(self, sample: Sample) -> bool {
        match (self, sample) {
            (Material::Dielectric { .. }, Sample::Dielectric { .. }) => true,
            (Material::Metal { .. }, Sample::Metal { .. }) => true,
            (Material::Diffuse { .. }, Sample::Diffuse { .. }) => true,
            _ => false,
        }
    }

    /// What `scatter` returns.
    pub open spec fn spec_scatter(self, rec: HitRecord, sample: Sample) -> Option<Scatter> {
        match (self, sample) {
            (Material::Dielectric { dielectric }, Sample::Dielectric { dielectric: sample }) => Some(
                dielectric.spec_scatter(rec, sample),
            ),
            (Material::Metal { metal }, Sample::Metal { metal: sample }) => Some(
                metal.spec_scatter(rec, sample),
            ),
            (Material::Diffuse { diffuse }, Sample::Diffuse { sampled }) => Some(
                diffuse.spec_scatter(rec, sampled),
            ),
            _ => None,
        }
    }

    /// Scatters as the material's kind does. `None` when the sample is of
    /// another kind than the material, and only then.
    pub fn scatter(&self, rec: &HitRecord, sample: &Sample) -> (r: Option<Scatter>)
        ensures
            r == self.spec_scatter(*rec, *sample),
            r is Some <==> self.takes(*sample),
    {
        match (self, sample) {
            (Material::Dielectric { dielectric }, Sample::Dielectric { dielectric: sample }) => Some(
                dielectric.scatter(rec, sample),
            ),
            (Material::Metal { metal }, Sample::Metal { metal: sample }) => Some(
                metal.scatter(rec, sample),
            ),
            (Material::Diffuse { diffuse }, Sample::Diffuse { sampled }) => Some(
                diffuse.scatter(rec, *sampled),
            ),
            _ => None,
        }
    }
}

/// Only metal absorbs: a ray that does not go on has hit metal, with a
/// sampled direction whose dot product with the normal is not above zero.
pub proof fn lemma_only_metal_absorbs(material: Material, rec: HitRecord, sample: Sample)
    requires
        material.spec_scatter(rec, sample) matches Some(out) && !out.continues,
    ensures
        material is Metal,
        sample matches Sample::Metal { metal: s } && !s.facing.spec_gt(Scalar::spec_zero()),
{
}

} // verus!
