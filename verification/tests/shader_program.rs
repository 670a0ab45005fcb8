use fluid_sim::context::{Command, Context, Scalar};
use fluid_sim::error::Error;
use fluid_sim::shader_program::{find_last, LinkReport, ShaderProgram, ShaderReport};
use fluid_sim::shaders::{Uniform, UNIFORM_COUNT};
use fluid_sim::textures::TextureFramebuffer;

fn compiled(shader: u64) -> ShaderReport {
    ShaderReport { shader: Some(shader), compiled: Some(true), log: None }
}

fn failed(shader: u64, log: Option<&str>) -> ShaderReport {
    ShaderReport { shader: Some(shader), compiled: Some(false), log: log.map(String::from) }
}

fn linked(program: u64, names: &[&str]) -> LinkReport {
    LinkReport {
        program: Some(program),
        linked: Some(true),
        uniforms: Some(names.iter().map(|name| name.to_string()).collect()),
        log: None,
    }
}

fn copy_program() -> ShaderProgram {
    ShaderProgram::new_webgl2(
        compiled(2),
        compiled(1),
        linked(7, &["u_factor", "u_offset", "u_texture"]),
    )
    .unwrap()
}

#[test]
fn uniform_names_are_those_of_the_shader_text() {
    assert_eq!(Uniform::Dissipation.name(), "u_dissipation");
    assert_eq!(Uniform::DeltaTime.name(), "u_delta_time");
    assert_eq!(Uniform::Resolution.name(), "u_resolution");
    assert_eq!(Uniform::Velocity.name(), "u_velocity");
    assert_eq!(Uniform::Quantity.name(), "u_quantity");
    assert_eq!(Uniform::Factor.name(), "u_factor");
    assert_eq!(Uniform::Offset.name(), "u_offset");
    assert_eq!(Uniform::Texture.name(), "u_texture");
    assert_eq!(Uniform::RHalfTexelSize.name(), "u_r_half_texel_size");
    assert_eq!(Uniform::Pressure.name(), "u_pressure");
    assert_eq!(Uniform::Alpha.name(), "u_alpha");
    assert_eq!(Uniform::RBeta.name(), "u_r_beta");
    assert_eq!(Uniform::X.name(), "u_x");
    assert_eq!(Uniform::B.name(), "u_b");
    assert_eq!(Uniform::ScaledRadius.name(), "u_scaled_radius");
    assert_eq!(Uniform::Position.name(), "u_position");
    assert_eq!(Uniform::Color.name(), "u_color");
    assert_eq!(Uniform::CurlScale.name(), "u_curl_scale");
    assert_eq!(Uniform::Curl.name(), "u_curl");
    assert_eq!(Uniform::Obstacles.name(), "u_obstacles");
    assert_eq!(Uniform::IsCircle.name(), "u_is_circle");
    assert_eq!(Uniform::ScaledRadiusSqr.name(), "u_scaled_radius_sqr");
}

#[test]
fn uniform_indices_cover_the_list_once() {
    assert_eq!(UNIFORM_COUNT, 22);
    let mut names: Vec<&str> = Vec::new();
    for index in 0..UNIFORM_COUNT {
        let uniform = Uniform::from_index(index).unwrap();
        assert_eq!(uniform.index(), index);
        assert!(!names.contains(&uniform.name()));
        names.push(uniform.name());
    }
    assert_eq!(Uniform::from_index(UNIFORM_COUNT), None);
    assert_eq!(Uniform::from_index(usize::MAX), None);
}

#[test]
fn find_last_takes_the_last_of_equal_names() {
    let names: Vec<String> =
        ["u_x", "u_b", "u_x", "u_alpha"].iter().map(|name| name.to_string()).collect();
    assert_eq!(find_last(&names, "u_x"), Some(2));
    assert_eq!(find_last(&names, "u_b"), Some(1));
    assert_eq!(find_last(&names, "u_alpha"), Some(3));
    assert_eq!(find_last(&names, "u_r_beta"), None);
    assert_eq!(find_last(&names, "u_"), None);
    assert_eq!(find_last(&Vec::new(), "u_x"), None);
}

#[test]
fn a_compiled_unit_gives_its_handle() {
    assert_eq!(ShaderProgram::create_shader_webgl(compiled(5)), Ok(5));
    assert_eq!(ShaderProgram::create_shader_webgl2(compiled(6)), Ok(6));
    let with_log =
        ShaderReport { shader: Some(8), compiled: Some(true), log: Some("warning".to_string()) };
    assert_eq!(ShaderProgram::create_shader_webgl2(with_log), Ok(8));
}

#[test]
fn a_unit_without_object_is_an_allocation_failure() {
    let report = ShaderReport { shader: None, compiled: Some(true), log: Some("x".to_string()) };
    assert_eq!(ShaderProgram::create_shader_webgl(report), Err(Error::GpuResource));
    let report = ShaderReport { shader: None, compiled: None, log: None };
    assert_eq!(ShaderProgram::create_shader_webgl2(report), Err(Error::GpuResource));
}

#[test]
fn a_failed_unit_carries_the_compiler_log() {
    assert_eq!(
        ShaderProgram::create_shader_webgl2(failed(3, Some("ERROR: 0:7: syntax error"))),
        Err(Error::ShaderCompile("ERROR: 0:7: syntax error".to_string()))
    );
    assert_eq!(
        ShaderProgram::create_shader_webgl(failed(3, Some(""))),
        Err(Error::ShaderCompile(String::new()))
    );
}

#[test]
fn a_failed_unit_without_log_carries_a_fixed_text() {
    assert_eq!(
        ShaderProgram::create_shader_webgl2(failed(3, None)),
        Err(Error::ShaderCompile("Unknown error creating shader".to_string()))
    );
}

#[test]
fn a_unit_without_status_counts_as_failed() {
    let report = ShaderReport { shader: Some(3), compiled: None, log: Some("odd".to_string()) };
    assert_eq!(
        ShaderProgram::create_shader_webgl(report),
        Err(Error::ShaderCompile("odd".to_string()))
    );
}

#[test]
fn a_linked_program_knows_its_uniforms() {
    let program = copy_program();
    assert_eq!(program.program, 7);
    assert_eq!(program.uniforms.len(), UNIFORM_COUNT);
    assert_eq!(program.location(Uniform::Factor), Some(0));
    assert_eq!(program.location(Uniform::Offset), Some(1));
    assert_eq!(program.location(Uniform::Texture), Some(2));
    assert_eq!(program.location(Uniform::Alpha), None);
    assert_eq!(program.location(Uniform::Obstacles), None);
}

#[test]
fn the_older_generation_links_alike() {
    let program = ShaderProgram::new_webgl(
        compiled(2),
        compiled(1),
        linked(9, &["u_alpha", "u_r_beta", "u_resolution", "u_x", "u_b"]),
    )
    .unwrap();
    assert_eq!(program.program, 9);
    assert_eq!(program.location(Uniform::Alpha), Some(0));
    assert_eq!(program.location(Uniform::RBeta), Some(1));
    assert_eq!(program.location(Uniform::Resolution), Some(2));
    assert_eq!(program.location(Uniform::X), Some(3));
    assert_eq!(program.location(Uniform::B), Some(4));
    assert_eq!(program.location(Uniform::Texture), None);
}

#[test]
fn a_name_listed_twice_has_its_last_place() {
    let program = ShaderProgram::new_webgl2(
        compiled(2),
        compiled(1),
        linked(1, &["u_color", "u_texture", "u_color", "u_elsewhere"]),
    )
    .unwrap();
    assert_eq!(program.location(Uniform::Color), Some(2));
    assert_eq!(program.location(Uniform::Texture), Some(1));
}

#[test]
fn a_program_without_uniforms_has_no_place_for_any() {
    let program = ShaderProgram::new_webgl2(compiled(2), compiled(1), linked(1, &[])).unwrap();
    for index in 0..UNIFORM_COUNT {
        assert_eq!(program.location(Uniform::from_index(index).unwrap()), None);
    }
}

#[test]
fn a_short_table_has_no_place_for_the_rest() {
    let program = ShaderProgram { program: 3, uniforms: vec![Some(4), None] };
    assert_eq!(program.location(Uniform::Dissipation), Some(4));
    assert_eq!(program.location(Uniform::DeltaTime), None);
    assert_eq!(program.location(Uniform::Resolution), None);
    assert_eq!(program.location(Uniform::ScaledRadiusSqr), None);
}

#[test]
fn the_vertex_unit_fails_first() {
    let result = ShaderProgram::new_webgl2(
        failed(2, Some("fragment")),
        failed(1, Some("vertex")),
        LinkReport { program: None, linked: None, uniforms: None, log: None },
    );
    assert_eq!(result.err(), Some(Error::ShaderCompile("vertex".to_string())));
    let result = ShaderProgram::new_webgl(
        compiled(2),
        ShaderReport { shader: None, compiled: None, log: None },
        linked(1, &[]),
    );
    assert_eq!(result.err(), Some(Error::GpuResource));
}

#[test]
fn the_fragment_unit_fails_second() {
    let result =
        ShaderProgram::new_webgl2(failed(2, Some("fragment")), compiled(1), linked(1, &[]));
    assert_eq!(result.err(), Some(Error::ShaderCompile("fragment".to_string())));
    let result = ShaderProgram::new_webgl2(failed(2, None), compiled(1), linked(1, &[]));
    assert_eq!(
        result.err(),
        Some(Error::ShaderCompile("Unknown error creating shader".to_string()))
    );
}

#[test]
fn a_program_without_object_is_an_allocation_failure() {
    let link = LinkReport {
        program: None,
        linked: Some(true),
        uniforms: Some(Vec::new()),
        log: Some("unused".to_string()),
    };
    let result = ShaderProgram::new_webgl2(compiled(2), compiled(1), link);
    assert_eq!(result.err(), Some(Error::GpuResource));
}

#[test]
fn a_failed_link_carries_the_linker_log() {
    let link = LinkReport {
        program: Some(4),
        linked: Some(false),
        uniforms: Some(Vec::new()),
        log: Some("varying v_uv not written".to_string()),
    };
    let result = ShaderProgram::new_webgl2(compiled(2), compiled(1), link);
    assert_eq!(
        result.err(),
        Some(Error::ProgramLink("varying v_uv not written".to_string()))
    );
}

#[test]
fn a_failed_link_without_log_carries_a_fixed_text() {
    let link = LinkReport { program: Some(4), linked: None, uniforms: None, log: None };
    let result = ShaderProgram::new_webgl(compiled(2), compiled(1), link);
    assert_eq!(
        result.err(),
        Some(Error::ProgramLink("Unknown error linking program".to_string()))
    );
}

#[test]
fn a_link_without_uniform_list_fails() {
    let link = LinkReport {
        program: Some(4),
        linked: Some(true),
        uniforms: None,
        log: Some("fine".to_string()),
    };
    let result = ShaderProgram::new_webgl2(compiled(2), compiled(1), link);
    assert_eq!(
        result.err(),
        Some(Error::ProgramLink("Unable to get program parameters".to_string()))
    );
}

#[test]
fn bind_makes_the_program_current() {
    let program = copy_program();
    let mut gl = Context::new();
    program.bind_webgl(&mut gl);
    program.bind_webgl2(&mut gl);
    assert_eq!(
        gl.commands(),
        &vec![Command::UseProgram { program: 7 }, Command::UseProgram { program: 7 }]
    );
    assert_eq!(gl.next_handle, 0);
}

#[test]
fn uniforms_are_set_at_their_places() {
    let program = copy_program();
    let mut gl = Context::new();
    let one = Scalar::integer(1);
    let half = Scalar::Ratio { numerator: 1, denominator: 2 };
    program.uniform1i(&mut gl, Uniform::Texture, 3);
    program.uniform1f(&mut gl, Uniform::Factor, half);
    program.uniform2f(&mut gl, Uniform::Offset, one, half);
    program.uniform3f(&mut gl, Uniform::Alpha, one, half, one);
    assert_eq!(
        gl.commands(),
        &vec![
            Command::Uniform1i { location: Some(2), value: 3 },
            Command::Uniform1f { location: Some(0), value: half },
            Command::Uniform2f { location: Some(1), x: one, y: half },
            Command::Uniform3f { location: None, x: one, y: half, z: one },
        ]
    );
}

#[test]
fn a_sampler_binds_the_texture_and_names_the_unit() {
    let program = copy_program();
    let texture = TextureFramebuffer { texture: 40, framebuffer: 41, width: 8, height: 8 };
    let mut gl = Context::new();
    assert_eq!(program.sampler(&mut gl, Uniform::Texture, &texture, 31), Ok(()));
    assert_eq!(
        gl.commands(),
        &vec![
            Command::ActiveTexture { unit: 31 },
            Command::BindTexture { texture: 40 },
            Command::Uniform1i { location: Some(2), value: 31 },
        ]
    );
}

#[test]
fn a_sampler_refuses_a_unit_out_of_range() {
    let program = copy_program();
    let texture = TextureFramebuffer { texture: 40, framebuffer: 41, width: 8, height: 8 };
    let mut gl = Context::new();
    assert_eq!(
        program.sampler(&mut gl, Uniform::Texture, &texture, 32),
        Err(Error::InvalidTextureUnit)
    );
    assert!(gl.commands().is_empty());
}
