use vstd::prelude::*;

verus! {

/// How many uniforms the passes of the simulation know by name.
pub const UNIFORM_COUNT: usize = 22;

/// A uniform of one of the simulation's shader programs, known to the core and to the
/// shader text under one name.
#[derive(Clone, Copy, Debug, PartialEq, Eq)]
pub enum Uniform {
    Dissipation,
    DeltaTime,
    Resolution,
    Velocity,
    Quantity,
    Factor,
    Offset,
    Texture,
    RHalfTexelSize,
    Pressure,
    Alpha,
    RBeta,
    X,
    B,
    ScaledRadius,
    Position,
    Color,
    CurlScale,
    Curl,
    Obstacles,
    IsCircle,
    ScaledRadiusSqr,
}

impl Uniform {
    /// The name of the uniform in the shader text.
    pub open spec fn spec_name(self) -> Seq<char> {
        match self {
            Uniform::Dissipation => "u_dissipation"@,
            Uniform::DeltaTime => "u_delta_time"@,
            Uniform::Resolution => "u_resolution"@,
            Uniform::Velocity => "u_velocity"@,
            Uniform::Quantity => "u_quantity"@,
            Uniform::Factor => "u_factor"@,
            Uniform::Offset => "u_offset"@,
            Uniform::Texture => "u_texture"@,
            Uniform::RHalfTexelSize => "u_r_half_texel_size"@,
            Uniform::Pressure => "u_pressure"@,
            Uniform::Alpha => "u_alpha"@,
            Uniform::RBeta => "u_r_beta"@,
            Uniform::X => "u_x"@,
            Uniform::B => "u_b"@,
            Uniform::ScaledRadius => "u_scaled_radius"@,
            Uniform::Position => "u_position"@,
            Uniform::Color => "u_color"@,
            Uniform::CurlScale => "u_curl_scale"@,
            Uniform::Curl => "u_curl"@,
            Uniform::Obstacles => "u_obstacles"@,
            Uniform::IsCircle => "u_is_circle"@,
            Uniform::ScaledRadiusSqr => "u_scaled_radius_sqr"@,
        }
    }

    /// The place of the uniform in the list of known uniforms.
    pub open spec fn spec_index(self) -> usize {
        match self {
            Uniform::Dissipation => 0,
            Uniform::DeltaTime => 1,
            Uniform::Resolution => 2,
            Uniform::Velocity => 3,
            Uniform::Quantity => 4,
            Uniform::Factor => 5,
            Uniform::Offset => 6,
            Uniform::Texture => 7,
            Uniform::RHalfTexelSize => 8,
            Uniform::Pressure => 9,
            Uniform::Alpha => 10,
            Uniform::RBeta => 11,
            Uniform::X => 12,
            Uniform::B => 13,
            Uniform::ScaledRadius => 14,
            Uniform::Position => 15,
            Uniform::Color => 16,
            Uniform::CurlScale => 17,
            Uniform::Curl => 18,
            Uniform::Obstacles => 19,
            Uniform::IsCircle => 20,
            Uniform::ScaledRadiusSqr => 21,
        }
    }

    /// The name of the uniform in the shader text.
    pub fn name(self) -> (name: &'static str)
        ensures
            name@ == self.spec_name(),
    {
        match self {
            Uniform::Dissipation => "u_dissipation",
            Uniform::DeltaTime => "u_delta_time",
            Uniform::Resolution => "u_resolution",
            Uniform::Velocity => "u_velocity",
            Uniform::Quantity => "u_quantity",
            Uniform::Factor => "u_factor",
            Uniform::Offset => "u_offset",
            Uniform::Texture => "u_texture",
            Uniform::RHalfTexelSize => "u_r_half_texel_size",
            Uniform::Pressure => "u_pressure",
            Uniform::Alpha => "u_alpha",
            Uniform::RBeta => "u_r_beta",
            Uniform::X => "u_x",
            Uniform::B => "u_b",
            Uniform::ScaledRadius => "u_scaled_radius",
            Uniform::Position => "u_position",
            Uniform::Color => "u_color",
            Uniform::CurlScale => "u_curl_scale",
            Uniform::Curl => "u_curl",
            Uniform::Obstacles => "u_obstacles",
            Uniform::IsCircle => "u_is_circle",
            Uniform::ScaledRadiusSqr => "u_scaled_radius_sqr",
        }
    }

    /// The place of the uniform in the list of known uniforms, below [`UNIFORM_COUNT`].
    pub fn index(self) -> (index: usize)
        ensures
            index == self.spec_index(),
            index < UNIFORM_COUNT,
    {
        match self {
            Uniform::Dissipation => 0,
            Uniform::DeltaTime => 1,
            Uniform::Resolution => 2,
            Uniform::Velocity => 3,
            Uniform::Quantity => 4,
            Uniform::Factor => 5,
            Uniform::Offset => 6,
            Uniform::Texture => 7,
            Uniform::RHalfTexelSize => 8,
            Uniform::Pressure => 9,
            Uniform::Alpha => 10,
            Uniform::RBeta => 11,
            Uniform::X => 12,
            Uniform::B => 13,
            Uniform::ScaledRadius => 14,
            Uniform::Position => 15,
            Uniform::Color => 16,
            Uniform::CurlScale => 17,
            Uniform::Curl => 18,
            Uniform::Obstacles => 19,
            Uniform::IsCircle => 20,
            Uniform::ScaledRadiusSqr => 21,
        }
    }

    /// The uniform at a place in the list of known uniforms, if the place is in the list.
    pub fn from_index(index: usize) -> (uniform: Option<Uniform>)
        ensures
            index < UNIFORM_COUNT <==> uniform.is_some(),
            uniform matches Some(u) ==> u.spec_index() == index,
    {
        match index {
            0 => Some(Uniform::Dissipation),
            1 => Some(Uniform::DeltaTime),
            2 => Some(Uniform::Resolution),
            3 => Some(Uniform::Velocity),
            4 => Some(Uniform::Quantity),
            5 => Some(Uniform::Factor),
            6 => Some(Uniform::Offset),
            7 => Some(Uniform::Texture),
            8 => Some(Uniform::RHalfTexelSize),
            9 => Some(Uniform::Pressure),
            10 => Some(Uniform::Alpha),
            11 => Some(Uniform::RBeta),
            12 => Some(Uniform::X),
            13 => Some(Uniform::B),
            14 => Some(Uniform::ScaledRadius),
            15 => Some(Uniform::Position),
            16 => Some(Uniform::Color),
            17 => Some(Uniform::CurlScale),
            18 => Some(Uniform::Curl),
            19 => Some(Uniform::Obstacles),
            20 => Some(Uniform::IsCircle),
            21 => Some(Uniform::ScaledRadiusSqr),
            _ => None,
        }
    }
}

} // verus!
