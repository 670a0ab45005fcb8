use std::collections::{HashMap, HashSet};

use fluid_sim::context::{Command, Context, Scalar, Single, Vertex};
use fluid_sim::shader_program::{LinkReport, ShaderProgram, ShaderReport};
use fluid_sim::textures::{RWTextureBuffer, TextureFramebuffer};
use fluid_sim::{Canvas, Mode, Pipeline, Programs, Renderer, Resolution};

/// A stand-in for a GPU context that keeps the objects and bindings that the calls of the
/// simulation read and change, and refuses a call that a real context would not take.
#[derive(Default)]
struct Gpu {
    color_buffer_float: bool,
    textures: HashMap<u64, (u32, u32)>,
    framebuffers: HashMap<u64, Option<u64>>,
    buffers: HashMap<u64, Option<(Vertex, Vertex, Vertex, Vertex)>>,
    array_buffer: Option<u64>,
    pointers: HashMap<u32, (u64, i32, i32, i32)>,
    enabled: HashSet<u32>,
    active: u32,
    units: HashMap<u32, u64>,
    read: HashSet<u32>,
    target: Option<u64>,
    viewport: Option<(u32, u32)>,
    program: Option<u64>,
    draws: usize,
}

/// Whether a number's description divides by nothing that is zero.
fn defined(scalar: &Scalar) -> bool {
    match scalar {
        Scalar::Ratio { denominator, .. } => *denominator > 0,
        Scalar::Quotient { divisor, .. } | Scalar::SquareQuotient { divisor, .. } => *divisor > 0,
        Scalar::Step { .. } | Scalar::Damping { .. } => true,
    }
}

impl Gpu {
    fn bound_texture(&self) -> Option<u64> {
        self.units.get(&self.active).copied().filter(|texture| self.textures.contains_key(texture))
    }

    fn quad_ready(&self) -> bool {
        let (Some(position), Some(coordinate)) = (self.pointers.get(&0), self.pointers.get(&1))
        else {
            return false;
        };
        self.enabled.contains(&0)
            && self.enabled.contains(&1)
            && *position == (position.0, 2, 16, 0)
            && *coordinate == (position.0, 2, 16, 8)
            && matches!(self.buffers.get(&position.0), Some(Some(_)))
    }

    /// Whether no unit that was bound to since the program was made current holds the
    /// texture that is drawn into.
    fn target_unread(&self) -> bool {
        let Some(framebuffer) = self.target else {
            return true;
        };
        let Some(Some(texture)) = self.framebuffers.get(&framebuffer) else {
            return true;
        };
        self.read.iter().all(|unit| self.units.get(unit) != Some(texture))
    }

    fn target_ready(&self) -> bool {
        match self.target {
            None => self.viewport.is_none(),
            Some(framebuffer) => {
                let Some(Some(texture)) = self.framebuffers.get(&framebuffer) else {
                    return false;
                };
                let Some(extent) = self.textures.get(texture) else {
                    return false;
                };
                self.color_buffer_float
                    && self.viewport == Some(*extent)
                    && extent.0 > 0
                    && extent.1 > 0
            }
        }
    }

    fn perform(&mut self, command: Command) -> Result<(), String> {
        let refuse = || Err(format!("{:?} is not accepted", command));
        match command {
            Command::EnableColorBufferFloat => self.color_buffer_float = true,
            Command::DisableBlend => {}
            Command::ClearColor { red, green, blue, alpha } => {
                if ![red, green, blue, alpha].iter().all(defined) {
                    return refuse();
                }
            }
            Command::CreateBuffer { buffer } => {
                if self.buffers.insert(buffer, None).is_some() {
                    return refuse();
                }
            }
            Command::BindBuffer { buffer } => {
                if !self.buffers.contains_key(&buffer) {
                    return refuse();
                }
                self.array_buffer = Some(buffer);
            }
            Command::BufferData { corners } => match self.array_buffer {
                Some(buffer) => {
                    self.buffers.insert(buffer, Some(corners));
                }
                None => return refuse(),
            },
            Command::VertexAttribPointer { index, size, stride, offset } => {
                let Some(buffer) = self.array_buffer else {
                    return refuse();
                };
                if !(1..=4).contains(&size) || stride < 0 || offset < 0 {
                    return refuse();
                }
                self.pointers.insert(index, (buffer, size, stride, offset));
            }
            Command::EnableVertexAttribArray { index } => {
                self.enabled.insert(index);
            }
            Command::ActiveTexture { unit } => {
                if unit >= 32 {
                    return refuse();
                }
                self.active = unit;
            }
            Command::CreateTexture { texture } => {
                if self.textures.insert(texture, (0, 0)).is_some() {
                    return refuse();
                }
            }
            Command::BindTexture { texture } => {
                if !self.textures.contains_key(&texture) {
                    return refuse();
                }
                self.units.insert(self.active, texture);
                self.read.insert(self.active);
            }
            Command::TexParameter { .. } => {
                if self.bound_texture().is_none() {
                    return refuse();
                }
            }
            Command::TexImage2D { width, height, components, .. } => {
                let Some(texture) = self.bound_texture() else {
                    return refuse();
                };
                if components as u64 != width as u64 * height as u64 * 4 {
                    return refuse();
                }
                self.textures.insert(texture, (width, height));
            }
            Command::DeleteTexture { texture } => {
                if self.textures.remove(&texture).is_none() {
                    return refuse();
                }
                self.units.retain(|_, bound| *bound != texture);
            }
            Command::CreateFramebuffer { framebuffer } => {
                if self.framebuffers.insert(framebuffer, None).is_some() {
                    return refuse();
                }
            }
            Command::BindFramebuffer { framebuffer } => {
                if let Some(framebuffer) = framebuffer {
                    if !self.framebuffers.contains_key(&framebuffer) {
                        return refuse();
                    }
                }
                self.target = framebuffer;
            }
            Command::FramebufferTexture2D { texture } => {
                let Some(framebuffer) = self.target else {
                    return refuse();
                };
                if !self.framebuffers.contains_key(&framebuffer)
                    || !self.textures.contains_key(&texture)
                {
                    return refuse();
                }
                self.framebuffers.insert(framebuffer, Some(texture));
            }
            Command::DeleteFramebuffer { framebuffer } => {
                if self.framebuffers.remove(&framebuffer).is_none() {
                    return refuse();
                }
                if self.target == Some(framebuffer) {
                    self.target = None;
                }
            }
            Command::UseProgram { program } => {
                self.program = Some(program);
                self.read.clear();
            }
            Command::Uniform1i { .. } => {
                if self.program.is_none() {
                    return refuse();
                }
            }
            Command::Uniform1f { value, .. } => {
                if self.program.is_none() || !defined(&value) {
                    return refuse();
                }
            }
            Command::Uniform2f { x, y, .. } => {
                if self.program.is_none() || ![x, y].iter().all(defined) {
                    return refuse();
                }
            }
            Command::Uniform3f { x, y, z, .. } => {
                if self.program.is_none() || ![x, y, z].iter().all(defined) {
                    return refuse();
                }
            }
            Command::Viewport { width, height } => self.viewport = Some((width, height)),
            Command::ViewportDrawingBuffer => self.viewport = None,
            Command::Clear => {
                if !self.target_ready() {
                    return refuse();
                }
            }
            Command::DrawArrays { first, count } => {
                if self.program.is_none()
                    || !self.quad_ready()
                    || !self.target_ready()
                    || !self.target_unread()
                    || first < 0
                    || count < 0
                    || first + count > 4
                {
                    return refuse();
                }
                self.draws += 1;
            }
        }
        Ok(())
    }

    fn play(&mut self, commands: Vec<Command>) -> Result<(), String> {
        for command in commands {
            self.perform(command)?;
        }
        Ok(())
    }

    fn has(&self, target: &TextureFramebuffer) -> bool {
        self.textures.get(&target.texture) == Some(&(target.width, target.height))
            && self.framebuffers.get(&target.framebuffer) == Some(&Some(target.texture))
    }

    /// Whether the context is ready to draw, every render target of the pipeline is on it
    /// as it was made, and it holds no texture and no framebuffer besides.
    fn holds(&self, pipeline: &Pipeline) -> bool {
        let targets = [
            *pipeline.velocity_buffer.read(),
            *pipeline.velocity_buffer.write(),
            *pipeline.pressure_buffer.read(),
            *pipeline.pressure_buffer.write(),
            *pipeline.dye_buffer.read(),
            *pipeline.dye_buffer.write(),
            pipeline.obstacle_store,
            pipeline.temp_store,
        ];
        self.color_buffer_float
            && self.quad_ready()
            && targets.iter().all(|target| self.has(target))
            && self.textures.len() == targets.len()
            && self.framebuffers.len() == targets.len()
    }
}

fn single(value: f32) -> Single {
    Single::from_bits(value.to_bits())
}

fn program(handle: u64, names: &[&str]) -> ShaderProgram {
    let compiled = |shader| ShaderReport { shader: Some(shader), compiled: Some(true), log: None };
    let link = LinkReport {
        program: Some(handle),
        linked: Some(true),
        uniforms: Some(names.iter().map(|name| name.to_string()).collect()),
        log: None,
    };
    ShaderProgram::new_webgl2(compiled(2), compiled(1), link).unwrap()
}

fn programs() -> Programs {
    Programs {
        copy: program(0, &["u_factor", "u_offset", "u_texture"]),
        advection: program(1, &["u_dissipation", "u_delta_time", "u_velocity", "u_quantity"]),
        jacobi: program(2, &["u_alpha", "u_r_beta", "u_resolution", "u_x", "u_b"]),
        divergence: program(3, &["u_r_half_texel_size", "u_resolution", "u_velocity"]),
        subtraction: program(4, &["u_r_half_texel_size", "u_velocity", "u_pressure"]),
        curl: program(5, &["u_r_half_texel_size", "u_resolution", "u_velocity"]),
        vorticity: program(6, &["u_curl_scale", "u_r_half_texel_size", "u_curl", "u_velocity"]),
        splat: program(7, &["u_scaled_radius", "u_position", "u_color", "u_texture"]),
        obstacle: program(8, &["u_is_circle", "u_scaled_radius_sqr", "u_position"]),
        color_obstacle: program(9, &["u_color", "u_texture", "u_obstacles"]),
    }
}

const CANVAS: Canvas = Canvas { width: 400, height: 400 };

fn start() -> (Gpu, Renderer) {
    let mut gpu = Gpu::default();
    let mut renderer =
        Renderer::new(Context::new(), &CANVAS, Resolution::FOUR, Resolution::TWO, programs())
            .unwrap();
    assert_eq!(gpu.play(renderer.gl.take_commands()), Ok(()));
    (gpu, renderer)
}

fn frame(gpu: &mut Gpu, renderer: &mut Renderer, canvas: &Canvas, pause: bool, iterations: usize) {
    let result = renderer.update(
        canvas,
        pause,
        single(0.5),
        Mode::VELOCITY,
        iterations,
        single(0.1),
        single(0.2),
        single(0.3),
        single(0.4),
    );
    assert_eq!(result, Ok(()));
    assert_eq!(gpu.play(renderer.gl.take_commands()), Ok(()));
}

#[test]
fn a_context_takes_the_making_of_a_simulator() {
    let (gpu, renderer) = start();
    assert!(gpu.holds(&renderer.pipeline));
    assert_eq!(gpu.draws, 2);
    assert_eq!(gpu.buffers.len(), 1);
}

#[test]
fn a_context_takes_frames() {
    let (mut gpu, mut renderer) = start();
    let before = gpu.draws;
    frame(&mut gpu, &mut renderer, &CANVAS, false, 0);
    assert_eq!(gpu.draws, before + 30);
    assert!(gpu.holds(&renderer.pipeline));
    frame(&mut gpu, &mut renderer, &CANVAS, true, 0);
    assert_eq!(gpu.draws, before + 31);
    frame(&mut gpu, &mut renderer, &Canvas { width: 7, height: 90000 }, false, 35);
    assert_eq!(gpu.draws, before + 31 + 45);
    assert!(gpu.holds(&renderer.pipeline));
    assert_eq!(gpu.target, None);
    assert_eq!(gpu.viewport, None);
}

#[test]
fn a_context_takes_splats_and_obstacles() {
    let (mut gpu, mut renderer) = start();
    let two = [single(200.0), single(100.0)];
    let three = [single(1.0), single(0.5), single(0.0)];
    assert_eq!(renderer.splat(single(20.0), &two, &two, &three), Ok(()));
    assert_eq!(gpu.play(renderer.gl.take_commands()), Ok(()));
    assert!(gpu.holds(&renderer.pipeline));
    assert_eq!(renderer.set_obstacle(Some(single(30.0)), &two, &three, false), Ok(()));
    assert_eq!(gpu.play(renderer.gl.take_commands()), Ok(()));
    assert!(gpu.holds(&renderer.pipeline));
    assert_eq!(renderer.set_obstacle(None, &two, &three, true), Ok(()));
    assert_eq!(gpu.play(renderer.gl.take_commands()), Ok(()));
    frame(&mut gpu, &mut renderer, &CANVAS, false, 20);
    assert!(gpu.holds(&renderer.pipeline));
}

#[test]
fn a_context_takes_resizes_and_keeps_no_target_that_was_replaced() {
    let (mut gpu, mut renderer) = start();
    let resizes = [
        (CANVAS, Resolution::FOUR, Resolution::TWO),
        (CANVAS, Resolution::EIGHT, Resolution::TWO),
        (CANVAS, Resolution::EIGHT, Resolution::ONE),
        (Canvas { width: 1024, height: 64 }, Resolution::SIXTEEN, Resolution::FOUR),
        (Canvas { width: 1024, height: 64 }, Resolution::SIXTEEN, Resolution::FOUR),
        (Canvas { width: 16, height: 16 }, Resolution::SIXTEEN, Resolution::SIXTEEN),
        (Canvas { width: 640, height: 480 }, Resolution::ONE, Resolution::TWO),
        (CANVAS, Resolution::FOUR, Resolution::TWO),
    ];
    for (canvas, sim_resolution, dye_resolution) in resizes {
        assert_eq!(renderer.resize(&canvas, sim_resolution, dye_resolution), Ok(()));
        assert_eq!(gpu.play(renderer.gl.take_commands()), Ok(()));
        assert!(gpu.holds(&renderer.pipeline));
        frame(&mut gpu, &mut renderer, &canvas, false, 20);
        assert!(gpu.holds(&renderer.pipeline));
    }
    assert_eq!(gpu.textures.len(), 8);
    assert_eq!(gpu.framebuffers.len(), 8);
}

#[test]
fn a_context_refuses_what_is_out_of_turn() {
    let (mut gpu, mut renderer) = start();
    assert!(gpu.perform(Command::BindTexture { texture: 99 }).is_err());
    assert!(gpu.perform(Command::CreateTexture { texture: 0 }).is_err());
    assert!(gpu.perform(Command::DeleteFramebuffer { framebuffer: 99 }).is_err());
    assert!(gpu.perform(Command::ActiveTexture { unit: 32 }).is_err());
    let nothing = Scalar::Ratio { numerator: 1, denominator: 0 };
    assert!(gpu.perform(Command::Uniform1f { location: None, value: nothing }).is_err());
    let released = *renderer.pipeline.velocity_buffer.read();
    assert_eq!(renderer.resize(&CANVAS, Resolution::TWO, Resolution::TWO), Ok(()));
    assert_eq!(gpu.play(renderer.gl.take_commands()), Ok(()));
    let mut stale = Context::new();
    assert_eq!(released.bind_webgl2(&mut stale, 0), Ok(0));
    assert!(gpu.play(stale.take_commands()).is_err());
    let mut stale = Context::new();
    released.delete_webgl2(&mut stale);
    assert!(gpu.play(stale.take_commands()).is_err());
    let mut fresh = Gpu::default();
    let mut early = Context::new();
    Renderer::blit(&mut early, None, None);
    assert!(fresh.play(early.take_commands()).is_err());
    let own = *renderer.pipeline.dye_buffer.read();
    let mut looped = Context::new();
    renderer.pipeline.copy_program.bind_webgl2(&mut looped);
    assert_eq!(own.bind_webgl2(&mut looped, 3), Ok(3));
    Renderer::blit(&mut looped, Some(&own), None);
    assert!(gpu.play(looped.take_commands()).is_err());
    let other = *renderer.pipeline.dye_buffer.write();
    let mut straight = Context::new();
    renderer.pipeline.copy_program.bind_webgl2(&mut straight);
    assert_eq!(own.bind_webgl2(&mut straight, 3), Ok(3));
    Renderer::blit(&mut straight, Some(&other), None);
    assert_eq!(gpu.play(straight.take_commands()), Ok(()));
}

#[test]
fn a_context_takes_the_resize_of_a_pair() {
    let mut gpu = Gpu::default();
    let mut gl = Context::new();
    let copy = program(0, &["u_factor", "u_offset", "u_texture"]);
    gl.push(Command::EnableColorBufferFloat);
    let mut buffer = RWTextureBuffer::new_webgl2(&mut gl, 64, 32, None).unwrap();
    assert_eq!(Renderer::init_quad_buffers(&mut gl), Ok(()));
    assert_eq!(buffer.resize_webgl2(&mut gl, Some(&copy), 32, 32), Ok(()));
    assert_eq!(buffer.resize_webgl2(&mut gl, None, 32, 16), Ok(()));
    assert_eq!(buffer.resize_webgl2(&mut gl, Some(&copy), 32, 16), Ok(()));
    assert_eq!(gpu.play(gl.take_commands()), Ok(()));
    assert!(gpu.has(buffer.read()));
    assert!(gpu.has(buffer.write()));
    assert_eq!(gpu.textures.len(), 2);
    assert_eq!(gpu.framebuffers.len(), 2);
    assert_eq!(gpu.draws, 1);
}
