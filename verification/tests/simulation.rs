use fluid_sim::context::{Color, Command, Context, Filter, Scalar, Single, TexelFormat, TimeStep};
use fluid_sim::error::Error;
use fluid_sim::shader_program::{LinkReport, ShaderProgram, ShaderReport};
use fluid_sim::textures::TextureFramebuffer;
use fluid_sim::{Canvas, Mode, Pipeline, Programs, Renderer, Resolution, MIN_PRESSURE_ITERATIONS};

fn single(value: f32) -> Single {
    Single::from_bits(value.to_bits())
}

fn program(handle: u64, names: &[&str]) -> ShaderProgram {
    let compiled = |shader| ShaderReport { shader: Some(shader), compiled: Some(true), log: None };
    let link = LinkReport {
        program: Some(handle),
        linked: Some(true),
        uniforms: Some(names.iter().map(|name| name.to_string()).collect()),
        log: None,
    };
    ShaderProgram::new_webgl2(compiled(2), compiled(1), link).unwrap()
}

fn programs() -> Programs {
    Programs {
        copy: program(100, &["u_factor", "u_offset", "u_texture"]),
        advection: program(
            101,
            &[
                "u_dissipation",
                "u_delta_time",
                "u_resolution",
                "u_velocity",
                "u_quantity",
                "u_obstacles",
            ],
        ),
        jacobi: program(
            102,
            &["u_alpha", "u_r_beta", "u_resolution", "u_x", "u_b", "u_obstacles"],
        ),
        divergence: program(
            103,
            &["u_r_half_texel_size", "u_resolution", "u_velocity", "u_obstacles"],
        ),
        subtraction: program(
            104,
            &["u_r_half_texel_size", "u_resolution", "u_velocity", "u_pressure", "u_obstacles"],
        ),
        curl: program(105, &["u_r_half_texel_size", "u_resolution", "u_velocity"]),
        vorticity: program(
            106,
            &["u_curl_scale", "u_r_half_texel_size", "u_resolution", "u_curl", "u_velocity"],
        ),
        splat: program(
            107,
            &["u_scaled_radius", "u_position", "u_color", "u_texture", "u_obstacles"],
        ),
        obstacle: program(108, &["u_is_circle", "u_scaled_radius_sqr", "u_position"]),
        color_obstacle: program(109, &["u_color", "u_texture", "u_obstacles"]),
    }
}

const CANVAS: Canvas = Canvas { width: 400, height: 400 };

/// A simulator on a 400 by 400 canvas, simulating at a quarter and showing dye at half the
/// canvas's resolution, with an empty record.
fn renderer() -> Renderer {
    let mut renderer =
        Renderer::new(Context::new(), &CANVAS, Resolution::FOUR, Resolution::TWO, programs())
            .unwrap();
    renderer.gl.take_commands();
    renderer
}

fn whole(value: i64) -> Scalar {
    Scalar::Ratio { numerator: value, denominator: 1 }
}

fn of(value: Single) -> Scalar {
    Scalar::Quotient { value, divisor: 1 }
}

fn over(value: Single, divisor: u32) -> Scalar {
    Scalar::Quotient { value, divisor }
}

fn sampler(location: usize, texture: u64, unit: u32) -> Vec<Command> {
    vec![
        Command::ActiveTexture { unit },
        Command::BindTexture { texture },
        Command::Uniform1i { location: Some(location), value: unit as i32 },
    ]
}

fn blit(framebuffer: u64, width: u32, height: u32) -> Vec<Command> {
    vec![
        Command::Viewport { width, height },
        Command::BindFramebuffer { framebuffer: Some(framebuffer) },
        Command::DrawArrays { first: 0, count: 4 },
    ]
}

fn draws(commands: &[Command]) -> usize {
    commands.iter().filter(|command| matches!(command, Command::DrawArrays { .. })).count()
}

/// The passes of a record: for each draw, the program that was current and the
/// framebuffer that was drawn into.
fn passes(commands: &[Command]) -> Vec<(u64, Option<u64>)> {
    let mut program = 0;
    let mut target = None;
    let mut passes = Vec::new();
    for command in commands {
        match command {
            Command::UseProgram { program: current } => program = *current,
            Command::BindFramebuffer { framebuffer } => target = *framebuffer,
            Command::DrawArrays { .. } => passes.push((program, target)),
            _ => {}
        }
    }
    passes
}

fn targets(pipeline: &Pipeline) -> Vec<TextureFramebuffer> {
    vec![
        *pipeline.velocity_buffer.read(),
        *pipeline.velocity_buffer.write(),
        *pipeline.pressure_buffer.read(),
        *pipeline.pressure_buffer.write(),
        *pipeline.dye_buffer.read(),
        *pipeline.dye_buffer.write(),
        pipeline.obstacle_store,
        pipeline.temp_store,
    ]
}

/// Whether the targets are of positive extent, share no handle, and have handles that the
/// context has given out.
fn valid(renderer: &Renderer) -> bool {
    let targets = targets(&renderer.pipeline);
    let mut handles: Vec<u64> = Vec::new();
    for target in &targets {
        if target.width == 0 || target.height == 0 {
            return false;
        }
        for handle in [target.texture, target.framebuffer] {
            if handles.contains(&handle) || handle >= renderer.gl.next_handle {
                return false;
            }
            handles.push(handle);
        }
    }
    let pipeline = &renderer.pipeline;
    let extent = |target: &TextureFramebuffer| (target.width, target.height);
    extent(&targets[0]) == extent(&targets[1])
        && extent(&targets[0]) == extent(&targets[2])
        && extent(&targets[0]) == extent(&targets[3])
        && extent(&targets[0]) == extent(&pipeline.temp_store)
        && extent(&targets[4]) == extent(&targets[5])
        && extent(&targets[4]) == extent(&pipeline.obstacle_store)
}

fn update(renderer: &mut Renderer, pause: bool, time: f32, mode: Mode, iterations: usize) {
    let result = renderer.update(
        &CANVAS,
        pause,
        single(time),
        mode,
        iterations,
        single(0.1),
        single(0.2),
        single(0.3),
        single(0.4),
    );
    assert_eq!(result, Ok(()));
}

#[test]
fn the_floor_of_the_iterations_is_twenty() {
    assert_eq!(MIN_PRESSURE_ITERATIONS, 20);
}

#[test]
fn a_frame_never_runs_fewer_than_twenty_iterations() {
    for iterations in [0usize, 1, 5, 19, 20] {
        let mut renderer = renderer();
        update(&mut renderer, false, 0.01, Mode::DYE, iterations);
        let commands = renderer.gl.commands();
        let jacobi = passes(commands).iter().filter(|pass| pass.0 == 102).count();
        assert_eq!(jacobi, 20);
        assert_eq!(draws(commands), 30);
        assert_eq!(commands.len(), 251);
    }
}

#[test]
fn a_frame_runs_the_iterations_asked_for_above_the_floor() {
    for iterations in [21usize, 22, 50] {
        let mut renderer = renderer();
        update(&mut renderer, false, 0.01, Mode::DYE, iterations);
        let commands = renderer.gl.commands();
        let jacobi = passes(commands).iter().filter(|pass| pass.0 == 102).count();
        assert_eq!(jacobi, iterations);
        assert_eq!(draws(commands), 10 + iterations);
        assert_eq!(commands.len(), 131 + 6 * iterations);
    }
}

#[test]
fn a_frame_runs_its_passes_in_order() {
    let mut renderer = renderer();
    update(&mut renderer, false, 0.01, Mode::DYE, 0);
    let mut expected = vec![
        (105, Some(9)),
        (106, Some(3)),
        (101, Some(1)),
        (103, Some(9)),
        (100, Some(7)),
    ];
    for iteration in 0..20 {
        expected.push((102, Some(if iteration % 2 == 0 { 5 } else { 7 })));
    }
    expected.extend(vec![
        (104, Some(3)),
        (109, Some(11)),
        (101, Some(13)),
        (109, Some(11)),
        (100, None),
    ]);
    assert_eq!(passes(renderer.gl.commands()), expected);
}

#[test]
fn a_frame_exchanges_the_roles_of_its_fields() {
    let mut renderer = renderer();
    update(&mut renderer, false, 0.01, Mode::DYE, 20);
    assert_eq!(renderer.pipeline.velocity_buffer.read().texture, 2);
    assert_eq!(renderer.pipeline.velocity_buffer.write().texture, 0);
    assert_eq!(renderer.pipeline.pressure_buffer.read().texture, 6);
    assert_eq!(renderer.pipeline.pressure_buffer.write().texture, 4);
    assert_eq!(renderer.pipeline.dye_buffer.read().texture, 10);
    assert_eq!(renderer.pipeline.dye_buffer.write().texture, 12);
    update(&mut renderer, false, 0.02, Mode::DYE, 21);
    assert_eq!(renderer.pipeline.velocity_buffer.read().texture, 0);
    assert_eq!(renderer.pipeline.pressure_buffer.read().texture, 6);
    assert_eq!(renderer.pipeline.dye_buffer.read().texture, 12);
    assert!(valid(&renderer));
}

#[test]
fn a_frame_takes_its_step_from_the_last_time() {
    let mut renderer = renderer();
    update(&mut renderer, false, 1.5, Mode::DYE, 20);
    renderer.gl.take_commands();
    assert_eq!(renderer.pipeline.last_time, single(1.5));
    update(&mut renderer, false, 6.5, Mode::DYE, 20);
    assert_eq!(renderer.pipeline.last_time, single(6.5));
    let step = TimeStep { now: single(6.5), last: single(1.5) };
    let commands = renderer.gl.commands();
    let steps: Vec<&Command> = commands
        .iter()
        .filter(|command| {
            matches!(
                command,
                Command::Uniform1f { value: Scalar::Step { .. } | Scalar::Damping { .. }, .. }
            )
        })
        .collect();
    assert_eq!(
        steps,
        vec![
            &Command::Uniform1f {
                location: Some(0),
                value: Scalar::Damping { rate: single(0.1), step },
            },
            &Command::Uniform1f { location: Some(1), value: Scalar::Step { step } },
            &Command::Uniform1f {
                location: Some(0),
                value: Scalar::Damping { rate: single(0.2), step },
            },
            &Command::Uniform1f { location: Some(1), value: Scalar::Step { step } },
        ]
    );
}

#[test]
fn a_paused_frame_only_draws() {
    let mut renderer = renderer();
    let before = targets(&renderer.pipeline);
    update(&mut renderer, true, 2.5, Mode::VELOCITY, 20);
    assert_eq!(passes(renderer.gl.commands()), vec![(100, None)]);
    assert_eq!(renderer.gl.commands().len(), 11);
    assert_eq!(renderer.gl.commands()[4], Command::BindTexture { texture: 0 });
    assert_eq!(targets(&renderer.pipeline), before);
}

#[test]
fn a_paused_frame_still_keeps_the_time() {
    let mut renderer = renderer();
    update(&mut renderer, true, 2.5, Mode::DYE, 20);
    assert_eq!(renderer.pipeline.last_time, single(2.5));
    renderer.gl.take_commands();
    update(&mut renderer, false, 2.75, Mode::DYE, 20);
    let step = TimeStep { now: single(2.75), last: single(2.5) };
    assert!(renderer
        .gl
        .commands()
        .contains(&Command::Uniform1f { location: Some(1), value: Scalar::Step { step } }));
}

#[test]
fn a_frame_shows_the_field_of_the_mode() {
    for (mode, shown) in [(Mode::DYE, 10), (Mode::VELOCITY, 2), (Mode::PRESSURE, 6)] {
        let mut renderer = renderer();
        update(&mut renderer, false, 0.01, mode, 20);
        let commands = renderer.gl.commands();
        let draw = &commands[commands.len() - 11..];
        assert_eq!(draw[0], Command::UseProgram { program: 100 });
        assert_eq!(draw[4], Command::BindTexture { texture: shown });
    }
}

#[test]
fn a_frame_goes_by_the_canvas_of_the_moment() {
    let mut renderer = renderer();
    let canvas = Canvas { width: 810, height: 90 };
    let zero = Single::zero();
    assert_eq!(
        renderer.update(&canvas, false, zero, Mode::DYE, 0, zero, zero, zero, zero),
        Ok(())
    );
    let commands = renderer.gl.commands();
    assert_eq!(
        commands[2],
        Command::Uniform2f { location: Some(1), x: whole(202), y: whole(22) }
    );
    assert_eq!(commands[6], Command::Viewport { width: 100, height: 100 });
}

#[test]
fn a_frame_tints_the_obstacle_after_clearing_it() {
    let mut renderer = renderer();
    let tint = [single(0.5), single(0.25), single(1.0)];
    assert_eq!(
        renderer.set_obstacle(Some(single(30.0)), &[single(1.0), single(2.0)], &tint, false),
        Ok(())
    );
    renderer.gl.take_commands();
    update(&mut renderer, false, 0.01, Mode::DYE, 20);
    let colors: Vec<&Command> = renderer
        .gl
        .commands()
        .iter()
        .filter(|command| matches!(command, Command::Uniform3f { .. }))
        .collect();
    let zero = of(Single::zero());
    assert_eq!(
        colors,
        vec![
            &Command::Uniform3f { location: Some(0), x: zero, y: zero, z: zero },
            &Command::Uniform3f {
                location: Some(0),
                x: of(tint[0]),
                y: of(tint[1]),
                z: of(tint[2]),
            },
        ]
    );
}

#[test]
fn splat_adds_force_then_colour() {
    let mut renderer = renderer();
    let radius = single(20.0);
    let position = [single(200.0), single(120.0)];
    let velocity = [single(3.0), single(-4.0)];
    let color = [single(1.0), single(0.0), single(0.5)];
    assert_eq!(renderer.splat(radius, &position, &velocity, &color), Ok(()));
    let mut expected = vec![
        Command::UseProgram { program: 107 },
        Command::Uniform1f {
            location: Some(0),
            value: Scalar::SquareQuotient { value: radius, divisor: 16 },
        },
        Command::Uniform2f { location: Some(1), x: over(position[0], 4), y: over(position[1], 4) },
        Command::Uniform3f {
            location: Some(2),
            x: over(velocity[0], 4),
            y: over(velocity[1], 4),
            z: whole(0),
        },
    ];
    expected.extend(sampler(3, 0, 0));
    expected.extend(sampler(4, 14, 1));
    expected.extend(blit(3, 100, 100));
    expected.extend(vec![
        Command::Uniform1f {
            location: Some(0),
            value: Scalar::SquareQuotient { value: radius, divisor: 4 },
        },
        Command::Uniform2f { location: Some(1), x: over(position[0], 2), y: over(position[1], 2) },
        Command::Uniform3f {
            location: Some(2),
            x: of(color[0]),
            y: of(color[1]),
            z: of(color[2]),
        },
    ]);
    expected.extend(sampler(3, 12, 0));
    expected.extend(blit(11, 200, 200));
    assert_eq!(renderer.gl.commands(), &expected);
    assert_eq!(renderer.pipeline.velocity_buffer.read().texture, 2);
    assert_eq!(renderer.pipeline.dye_buffer.read().texture, 10);
    assert_eq!(renderer.pipeline.pressure_buffer.read().texture, 4);
    assert!(valid(&renderer));
}

#[test]
fn splat_reads_only_the_leading_numbers() {
    let mut short = renderer();
    let mut long = renderer();
    let radius = single(1.0);
    assert_eq!(
        short.splat(
            radius,
            &[single(1.0), single(2.0)],
            &[single(3.0), single(4.0)],
            &[single(5.0), single(6.0), single(7.0)],
        ),
        Ok(())
    );
    assert_eq!(
        long.splat(
            radius,
            &[single(1.0), single(2.0), single(9.0)],
            &[single(3.0), single(4.0), single(9.0), single(9.0)],
            &[single(5.0), single(6.0), single(7.0), single(9.0)],
        ),
        Ok(())
    );
    assert_eq!(short.gl.commands(), long.gl.commands());
}

#[test]
fn splat_scales_by_each_resolution() {
    let canvas = Canvas { width: 64, height: 64 };
    let mut renderer =
        Renderer::new(Context::new(), &canvas, Resolution::SIXTEEN, Resolution::EIGHT, programs())
            .unwrap();
    renderer.gl.take_commands();
    let radius = single(8.0);
    let two = [single(1.0), single(2.0)];
    let three = [single(1.0), single(2.0), single(3.0)];
    assert_eq!(renderer.splat(radius, &two, &two, &three), Ok(()));
    let commands = renderer.gl.commands();
    assert_eq!(
        commands[1],
        Command::Uniform1f {
            location: Some(0),
            value: Scalar::SquareQuotient { value: radius, divisor: 256 },
        }
    );
    assert_eq!(
        commands[2],
        Command::Uniform2f { location: Some(1), x: over(two[0], 16), y: over(two[1], 16) }
    );
    assert_eq!(
        commands[13],
        Command::Uniform1f {
            location: Some(0),
            value: Scalar::SquareQuotient { value: radius, divisor: 64 },
        }
    );
    assert_eq!(
        commands[14],
        Command::Uniform2f { location: Some(1), x: over(two[0], 8), y: over(two[1], 8) }
    );
}

#[test]
fn set_obstacle_clears_the_tint_and_writes_the_mask() {
    let mut renderer = renderer();
    let radius = single(30.0);
    let position = [single(200.0), single(100.0)];
    let color = [single(0.5), single(0.25), single(1.0)];
    assert_eq!(renderer.set_obstacle(Some(radius), &position, &color, true), Ok(()));
    let zero = of(Single::zero());
    let mut expected = vec![
        Command::UseProgram { program: 109 },
        Command::Uniform3f { location: Some(0), x: zero, y: zero, z: zero },
    ];
    expected.extend(sampler(1, 12, 0));
    expected.extend(sampler(2, 14, 1));
    expected.extend(blit(11, 200, 200));
    expected.extend(vec![
        Command::UseProgram { program: 108 },
        Command::Uniform1i { location: Some(0), value: 1 },
        Command::Uniform1f {
            location: Some(1),
            value: Scalar::SquareQuotient { value: radius, divisor: 4 },
        },
        Command::Uniform2f { location: Some(2), x: over(position[0], 2), y: over(position[1], 2) },
    ]);
    expected.extend(blit(15, 200, 200));
    assert_eq!(renderer.gl.commands(), &expected);
    assert_eq!(
        renderer.pipeline.obstacle_color,
        Color { red: color[0], green: color[1], blue: color[2] }
    );
    assert_eq!(renderer.pipeline.dye_buffer.read().texture, 10);
    assert_eq!(renderer.pipeline.obstacle_store.texture, 14);
    assert!(valid(&renderer));
}

#[test]
fn set_obstacle_tells_a_square_from_a_circle() {
    let mut renderer = renderer();
    let two = [single(1.0), single(2.0)];
    let three = [single(1.0), single(2.0), single(3.0)];
    assert_eq!(renderer.set_obstacle(Some(single(3.0)), &two, &three, false), Ok(()));
    assert_eq!(renderer.gl.commands()[12], Command::Uniform1i { location: Some(0), value: 0 });
}

#[test]
fn set_obstacle_without_radius_sets_none() {
    let mut renderer = renderer();
    let two = [single(1.0), single(2.0)];
    let three = [single(1.0), single(2.0), single(3.0)];
    assert_eq!(renderer.set_obstacle(None, &two, &three, true), Ok(()));
    assert_eq!(
        renderer.gl.commands()[13],
        Command::Uniform1f { location: Some(1), value: whole(-10) }
    );
    assert_eq!(
        renderer.pipeline.obstacle_color,
        Color { red: three[0], green: three[1], blue: three[2] }
    );
}

#[test]
fn set_obstacle_writes_the_whole_mask_and_reads_none() {
    let mut renderer = renderer();
    let two = [single(1.0), single(2.0)];
    let three = [single(1.0), single(2.0), single(3.0)];
    assert_eq!(renderer.set_obstacle(Some(single(50.0)), &two, &three, true), Ok(()));
    renderer.gl.take_commands();
    assert_eq!(renderer.set_obstacle(Some(single(5.0)), &two, &three, false), Ok(()));
    let commands = renderer.gl.commands();
    let mask = &commands[11..];
    assert_eq!(mask.len(), 7);
    assert_eq!(mask[0], Command::UseProgram { program: 108 });
    assert!(mask.iter().all(|command| !matches!(
        command,
        Command::BindTexture { .. } | Command::ActiveTexture { .. }
    )));
    assert_eq!(mask[4], Command::Viewport { width: 200, height: 200 });
    assert_eq!(mask[5], Command::BindFramebuffer { framebuffer: Some(15) });
    assert_eq!(mask[6], Command::DrawArrays { first: 0, count: 4 });
}

#[test]
fn resize_to_the_same_does_nothing() {
    let mut renderer = renderer();
    let before = targets(&renderer.pipeline);
    assert_eq!(renderer.resize(&CANVAS, Resolution::FOUR, Resolution::TWO), Ok(()));
    assert_eq!(renderer.resize(&CANVAS, Resolution::FOUR, Resolution::TWO), Ok(()));
    assert!(renderer.gl.commands().is_empty());
    assert_eq!(renderer.gl.next_handle, 17);
    assert_eq!(targets(&renderer.pipeline), before);
}

#[test]
fn resize_of_the_simulation_keeps_velocity_and_pressure() {
    let mut renderer = renderer();
    assert_eq!(renderer.resize(&CANVAS, Resolution::EIGHT, Resolution::TWO), Ok(()));
    assert_eq!(renderer.pipeline.sim_resolution, Resolution::EIGHT);
    assert_eq!(renderer.pipeline.dye_resolution, Resolution::TWO);
    assert_eq!(renderer.gl.next_handle, 27);
    let pipeline = &renderer.pipeline;
    assert_eq!(
        *pipeline.velocity_buffer.read(),
        TextureFramebuffer { texture: 17, framebuffer: 18, width: 50, height: 50 }
    );
    assert_eq!(pipeline.velocity_buffer.write().texture, 19);
    assert_eq!(pipeline.pressure_buffer.read().texture, 21);
    assert_eq!(pipeline.pressure_buffer.write().texture, 23);
    assert_eq!(
        pipeline.temp_store,
        TextureFramebuffer { texture: 25, framebuffer: 26, width: 50, height: 50 }
    );
    assert_eq!(pipeline.dye_buffer.read().texture, 12);
    assert_eq!(pipeline.obstacle_store.texture, 14);
    let commands = renderer.gl.commands();
    assert_eq!(commands.len(), 35 + 35 + 13);
    assert_eq!(
        passes(commands),
        vec![(100, Some(18)), (100, Some(22))]
    );
    assert_eq!(commands[22 + 4], Command::BindTexture { texture: 0 });
    assert_eq!(commands[35 + 22 + 4], Command::BindTexture { texture: 4 });
    assert_eq!(commands[70], Command::DeleteTexture { texture: 8 });
    assert_eq!(commands[72], Command::ActiveTexture { unit: 0 });
    assert_eq!(commands[73], Command::CreateTexture { texture: 25 });
    assert!(valid(&renderer));
}

#[test]
fn resize_of_the_dye_sets_the_obstacle_anew() {
    let mut renderer = renderer();
    let tint = [single(0.5), single(0.25), single(1.0)];
    assert_eq!(
        renderer.set_obstacle(Some(single(30.0)), &[single(1.0), single(2.0)], &tint, false),
        Ok(())
    );
    renderer.gl.take_commands();
    assert_eq!(renderer.pipeline.dye_buffer.read().texture, 10);
    assert_eq!(renderer.resize(&CANVAS, Resolution::FOUR, Resolution::ONE), Ok(()));
    assert_eq!(renderer.pipeline.dye_resolution, Resolution::ONE);
    let pipeline = &renderer.pipeline;
    assert_eq!(
        *pipeline.dye_buffer.read(),
        TextureFramebuffer { texture: 19, framebuffer: 20, width: 400, height: 400 }
    );
    assert_eq!(pipeline.dye_buffer.write().texture, 17);
    assert_eq!(
        pipeline.obstacle_store,
        TextureFramebuffer { texture: 21, framebuffer: 22, width: 400, height: 400 }
    );
    assert_eq!(pipeline.obstacle_color, Color::black());
    assert_eq!(pipeline.velocity_buffer.read().texture, 0);
    assert_eq!(pipeline.temp_store.texture, 8);
    let commands = renderer.gl.commands();
    assert_eq!(commands.len(), 35 + 13 + 18);
    assert_eq!(
        passes(commands),
        vec![(100, Some(18)), (109, Some(20)), (108, Some(22))]
    );
    assert_eq!(commands[22 + 4], Command::BindTexture { texture: 10 });
    assert_eq!(
        commands[35 + 2 + 3],
        Command::TexParameter {
            parameter: fluid_sim::context::TexParameter::MinFilter(Filter::Nearest)
        }
    );
    assert_eq!(
        commands[35 + 13 + 13],
        Command::Uniform1f { location: Some(1), value: whole(-10) }
    );
    assert_eq!(
        commands[35 + 13 + 14],
        Command::Uniform2f {
            location: Some(2),
            x: over(Single::zero(), 1),
            y: over(Single::zero(), 1),
        }
    );
    assert!(valid(&renderer));
}

#[test]
fn resize_follows_the_canvas() {
    let mut renderer = renderer();
    let canvas = Canvas { width: 800, height: 200 };
    assert_eq!(renderer.resize(&canvas, Resolution::FOUR, Resolution::TWO), Ok(()));
    assert_eq!(renderer.gl.next_handle, 33);
    let pipeline = &renderer.pipeline;
    assert_eq!(pipeline.velocity_buffer.read().width, 200);
    assert_eq!(pipeline.velocity_buffer.read().height, 50);
    assert_eq!(pipeline.temp_store.width, 200);
    assert_eq!(pipeline.dye_buffer.read().width, 400);
    assert_eq!(pipeline.dye_buffer.read().height, 100);
    assert_eq!(pipeline.obstacle_store.height, 100);
    assert_eq!(
        passes(renderer.gl.commands()),
        vec![
            (100, Some(18)),
            (100, Some(22)),
            (100, Some(28)),
            (109, Some(30)),
            (108, Some(32)),
        ]
    );
    assert_eq!(
        renderer.gl.commands()[70 + 13 + 7],
        Command::TexImage2D {
            format: TexelFormat::Rgba16f,
            width: 400,
            height: 100,
            components: 160000
        }
    );
    assert!(valid(&renderer));
    renderer.gl.take_commands();
    assert_eq!(renderer.resize(&canvas, Resolution::FOUR, Resolution::TWO), Ok(()));
    assert!(renderer.gl.commands().is_empty());
    assert_eq!(renderer.gl.next_handle, 33);
}

#[test]
fn resize_is_done_as_a_whole_or_not_at_all() {
    let mut renderer = renderer();
    let before = targets(&renderer.pipeline);
    let narrow = Canvas { width: 400, height: 1 };
    assert_eq!(
        renderer.resize(&narrow, Resolution::ONE, Resolution::TWO),
        Err(Error::GpuResource)
    );
    assert_eq!(
        renderer.resize(&narrow, Resolution::TWO, Resolution::ONE),
        Err(Error::GpuResource)
    );
    renderer.gl.next_handle = u64::MAX - 15;
    assert_eq!(
        renderer.resize(&CANVAS, Resolution::TWO, Resolution::FOUR),
        Err(Error::GpuResource)
    );
    assert_eq!(targets(&renderer.pipeline), before);
    assert_eq!(renderer.pipeline.sim_resolution, Resolution::FOUR);
    assert_eq!(renderer.pipeline.dye_resolution, Resolution::TWO);
    assert!(renderer.gl.commands().is_empty());
    assert_eq!(renderer.gl.next_handle, u64::MAX - 15);
    renderer.gl.next_handle = u64::MAX - 16;
    assert_eq!(renderer.resize(&CANVAS, Resolution::TWO, Resolution::FOUR), Ok(()));
    assert_eq!(renderer.gl.next_handle, u64::MAX);
    assert_eq!(renderer.pipeline.sim_resolution, Resolution::TWO);
}

#[test]
fn resize_changes_the_resolutions_even_where_the_extents_stay() {
    let mut renderer = renderer();
    let canvas = Canvas { width: 800, height: 800 };
    assert_eq!(renderer.resize(&canvas, Resolution::EIGHT, Resolution::FOUR), Ok(()));
    assert!(renderer.gl.commands().is_empty());
    assert_eq!(renderer.pipeline.sim_resolution, Resolution::EIGHT);
    assert_eq!(renderer.pipeline.dye_resolution, Resolution::FOUR);
    assert_eq!(renderer.pipeline.velocity_buffer.read().texture, 0);
}

#[test]
fn a_splat_and_a_frame_on_a_canvas_of_400() {
    let mut renderer =
        Renderer::new(Context::new(), &CANVAS, Resolution::FOUR, Resolution::TWO, programs())
            .unwrap();
    assert_eq!(
        (
            renderer.pipeline.velocity_buffer.read().width(),
            renderer.pipeline.velocity_buffer.read().height()
        ),
        (100, 100)
    );
    assert_eq!(
        (
            renderer.pipeline.dye_buffer.read().width(),
            renderer.pipeline.dye_buffer.read().height()
        ),
        (200, 200)
    );
    renderer.gl.take_commands();

    let radius = single(20.0);
    let position = [single(200.0), single(200.0)];
    let zero = Single::zero();
    assert_eq!(
        renderer.splat(radius, &position, &[zero, zero], &[single(1.0), zero, zero]),
        Ok(())
    );
    let splat = renderer.gl.take_commands();
    assert_eq!(
        splat[13],
        Command::Uniform1f {
            location: Some(0),
            value: Scalar::SquareQuotient { value: radius, divisor: 4 },
        }
    );
    assert_eq!(
        splat[14],
        Command::Uniform2f { location: Some(1), x: over(position[0], 2), y: over(position[1], 2) }
    );
    assert_eq!(
        splat[15],
        Command::Uniform3f { location: Some(2), x: of(single(1.0)), y: of(zero), z: of(zero) }
    );
    assert_eq!(passes(&splat), vec![(107, Some(3)), (107, Some(11))]);
    let splatted = *renderer.pipeline.dye_buffer.read();
    assert_eq!(splatted.framebuffer, 11);

    assert_eq!(
        renderer.update(
            &CANVAS,
            false,
            single(0.0333),
            Mode::DYE,
            20,
            zero,
            zero,
            zero,
            single(1.0),
        ),
        Ok(())
    );
    let frame = renderer.gl.take_commands();
    assert_eq!(draws(&frame), 30);
    let step = TimeStep { now: single(0.0333), last: zero };
    assert!(frame
        .contains(&Command::Uniform1f { location: Some(1), value: Scalar::Step { step } }));
    let dye_passes: Vec<(u64, Option<u64>)> =
        passes(&frame).into_iter().filter(|pass| pass.0 == 109 || pass.0 == 101).collect();
    assert_eq!(
        dye_passes,
        vec![(101, Some(3)), (109, Some(13)), (101, Some(11)), (109, Some(13))]
    );
    assert_eq!(frame[frame.len() - 7], Command::BindTexture { texture: 12 });
    assert_eq!(renderer.pipeline.dye_buffer.read().texture, 12);
    assert!(valid(&renderer));
}
