//! Surface materials and the Phong local lighting model.

use vstd::prelude::*;
use crate::color::Color;
use crate::fx::fx_powi;
use crate::fx::fx_powi_i;
use crate::fx::FX_ONE;
use crate::light::PointLight;
use crate::matrix::Matrix;
use crate::pattern::Pattern;
use crate::shape::Object;
use crate::tuple::Tuple;

verus! {

/// Phong material: base color, lighting coefficients, reflectivity,
/// transparency and refractive index. `shininess` is the specular exponent,
/// a whole number.
#[derive(Clone, Debug)]
pub struct Material {
    pub color: Color,
    pub ambient: i64,
    pub diffuse: i64,
    pub specular: i64,
    pub shininess: u32,
    pub reflective: i64,
    pub transparency: i64,
    pub refractive_index: i64,
    pub pattern: Option<Pattern>,
}

impl Material {
    pub open spec fn wf_s(self) -> bool {
        match self.pattern {
            Some(p) => p.wf_s(),
            None => true,
        }
    }

    /// The default material: white, mostly diffuse, no reflection or
    /// transparency, the refractive index of air.
    pub fn new() -> (r: Material)
        ensures
            r == Material::default_s(),
            r.wf_s(),
    {
        Material {
            color: Color { red: FX_ONE, green: FX_ONE, blue: FX_ONE },
            ambient: 6554,  // 0.1
            diffuse: 58982,  // 0.9
            specular: 58982,  // 0.9
            shininess: 200,
            reflective: 0,
            transparency: 0,
            refractive_index: FX_ONE,
            pattern: None,
        }
    }

    pub open spec fn default_s() -> Material {
        Material {
            color: Color { red: FX_ONE, green: FX_ONE, blue: FX_ONE },
            ambient: 6554,
            diffuse: 58982,
            specular: 58982,
            shininess: 200,
            reflective: 0,
            transparency: 0,
            refractive_index: FX_ONE,
            pattern: None,
        }
    }

    /// The Phong shading equation at one surface point: ambient plus, when
    /// the point faces the light and is not shadowed, diffuse and specular
    /// terms.
    pub open spec fn lighting_s(
        self,
        light: PointLight,
        object_transform: Matrix,
        point: Tuple,
        eye_vector: Tuple,
        normal_vector: Tuple,
        in_shadow: bool,
    ) -> Color {
        let color = match self.pattern {
            None => self.color,
            Some(p) => p.pattern_at_object_s(object_transform, point),
        };
        let effective_color = color.mul_s(light.intensity);
        let light_vector = light.position.sub_s(point).normalize_s();
        let ambient = effective_color.scale_s(self.ambient);
        let light_dot_normal = light_vector.dot_s(normal_vector);
        let diffuse = if !in_shadow && light_dot_normal >= 0 {
            effective_color.scale_s(self.diffuse).scale_s(light_dot_normal)
        } else {
            Color::black_s()
        };
        let specular = if !in_shadow && light_dot_normal >= 0 {
            let reflect_vector = light_vector.reflect_s(normal_vector).neg_s();
            let reflect_dot_eye = reflect_vector.dot_s(eye_vector);
            if reflect_dot_eye > 0 {
                light.intensity.scale_s(self.specular).scale_s(
                    fx_powi_i(reflect_dot_eye, self.shininess),
                )
            } else {
                Color::black_s()
            }
        } else {
            Color::black_s()
        };
        ambient.add_s(diffuse).add_s(specular)
    }

    pub fn lighting(
        &self,
        light: &PointLight,
        object: &Object,
        point: Tuple,
        eye_vector: Tuple,
        normal_vector: Tuple,
        in_shadow: bool,
    ) -> (r: Color)
        requires
            point.is_point_s(),
            eye_vector.is_vector_s(),
            normal_vector.is_vector_s(),
            light.wf_s(),
            self.wf_s(),
            object.transform.is_square_s(4),
            object.transform.det_s() != 0,
        ensures
            r == self.lighting_s(
                *light,
                object.transform,
                point,
                eye_vector,
                normal_vector,
                in_shadow,
            ),
    {
        let color: Color = match &self.pattern {
            None => self.color,
            Some(pattern) => pattern.pattern_at_object(object, point),
        };
        let effective_color: Color = color.mul(light.intensity);
        let light_vector: Tuple = light.position.sub(point).normalize();
        let ambient: Color = effective_color.scale(self.ambient);
        proof {
            assert(light_vector.is_vector_s());
        }
        let light_dot_normal: i64 = light_vector.dot(&normal_vector);

        let mut diffuse: Color = Color::black();
        let mut specular: Color = Color::black();

        if !in_shadow && light_dot_normal >= 0 {
            diffuse = effective_color.scale(self.diffuse).scale(light_dot_normal);

            let reflect_vector: Tuple = light_vector.reflect(&normal_vector).neg();
            let reflect_dot_eye: i64 = reflect_vector.dot(&eye_vector);

            if reflect_dot_eye > 0 {
                let factor: i64 = fx_powi(reflect_dot_eye, self.shininess);
                specular = light.intensity.scale(self.specular).scale(factor);
            }
        }

        ambient.add(diffuse).add(specular)
    }
}

} // verus!
