use vstd::prelude::*;
use crate::context::{
    lemma_extends_twice, Color, Command, Context, Filter, Scalar, Single, TexelFormat, TimeStep,
    Vertex,
};
use crate::error::Error;
use crate::shader_program::ShaderProgram;
use crate::shaders::Uniform;
use crate::textures::{RWTextureBuffer, TextureFramebuffer};
use crate::{Canvas, Mode, Pipeline, Programs, Renderer, Resolution};

verus! {

impl Pipeline {
    /// Whether a pipeline of the two extents can be made on a context: both extents can be
    /// made, and the context has the seventeen handles that the eight render targets and
    /// the vertex buffer take.
    pub open spec fn spec_creatable(gl: Context, sim: (u32, u32), dye: (u32, u32)) -> bool {
        &&& TextureFramebuffer::allocatable(sim.0, sim.1)
        &&& TextureFramebuffer::allocatable(dye.0, dye.1)
        &&& gl.has_handles(17)
    }

    /// The pipeline as it is made, before the obstacle is set: the fields of the fluid
    /// are sampled linearly and the obstacle mask by the nearest texel, under handles from
    /// `first` on in the order velocity, pressure, scratch, dye, obstacle mask; the time
    /// of the last frame is zero and the tint black.
    pub open spec fn spec_new(
        first: u64,
        sim_resolution: Resolution,
        dye_resolution: Resolution,
        sim: (u32, u32),
        dye: (u32, u32),
        programs: Programs,
    ) -> Pipeline {
        Pipeline {
            sim_resolution,
            dye_resolution,
            copy_program: programs.copy,
            advection_program: programs.advection,
            jacobi_program: programs.jacobi,
            divergence_program: programs.divergence,
            subtraction_program: programs.subtraction,
            curl_program: programs.curl,
            vorticity_program: programs.vorticity,
            splat_program: programs.splat,
            obstacle_program: programs.obstacle,
            color_obstacle_program: programs.color_obstacle,
            velocity_buffer: RWTextureBuffer::spec_new(first, sim.0, sim.1, Filter::Linear),
            pressure_buffer: RWTextureBuffer::spec_new(
                (first + 4) as u64,
                sim.0,
                sim.1,
                Filter::Linear,
            ),
            temp_store: TextureFramebuffer::spec_new((first + 8) as u64, sim.0, sim.1),
            dye_buffer: RWTextureBuffer::spec_new(
                (first + 10) as u64,
                dye.0,
                dye.1,
                Filter::Linear,
            ),
            obstacle_store: TextureFramebuffer::spec_new((first + 14) as u64, dye.0, dye.1),
            last_time: Single { bits: 0 },
            obstacle_color: Color::spec_black(),
        }
    }

    /// The calls that make the render targets of a pipeline.
    pub open spec fn spec_create(&self) -> Seq<Command> {
        self.velocity_buffer.spec_create(TexelFormat::Rgba16f) + self.pressure_buffer.spec_create(
            TexelFormat::Rgba16f,
        ) + self.temp_store.spec_create(Filter::Linear, TexelFormat::Rgba16f)
            + self.dye_buffer.spec_create(TexelFormat::Rgba16f) + self.obstacle_store.spec_create(
            Filter::Nearest,
            TexelFormat::Rgba16f,
        )
    }

    /// The pipeline with other fields of the fluid, and all else as it is.
    pub open spec fn spec_with(
        self,
        velocity_buffer: RWTextureBuffer,
        pressure_buffer: RWTextureBuffer,
        dye_buffer: RWTextureBuffer,
    ) -> Pipeline {
        Pipeline { velocity_buffer, pressure_buffer, dye_buffer, ..self }
    }

    /// The field that a mode shows: the target that holds its current value.
    pub open spec fn spec_shown(&self, mode: Mode) -> TextureFramebuffer {
        match mode {
            Mode::DYE => self.dye_buffer.read,
            Mode::VELOCITY => self.velocity_buffer.read,
            Mode::PRESSURE => self.pressure_buffer.read,
        }
    }

    /// The calls of the draw pass: the copy program shows the field of the mode, sampled on
    /// unit 0, on the cleared canvas.
    pub open spec fn spec_draw_pass(&self, mode: Mode) -> Seq<Command> {
        self.copy_program.spec_bind() + self.copy_program.spec_uniform1f(
            Uniform::Factor,
            Renderer::spec_draw_factor(mode),
        ) + self.copy_program.spec_uniform1f(Uniform::Offset, Renderer::spec_draw_offset(mode))
            + self.copy_program.spec_sampler(Uniform::Texture, self.spec_shown(mode), 0)
            + Renderer::spec_blit(None, Some(true))
    }

    /// The calls of the divergence pass: the divergence of the velocity, sampled on unit 0
    /// with the obstacle mask on unit 1, is drawn into the scratch target.
    pub open spec fn spec_divergence(&self, sim_resolution: (u32, u32)) -> Seq<Command> {
        self.divergence_program.spec_bind() + self.divergence_program.spec_uniform1f(
            Uniform::RHalfTexelSize,
            Renderer::spec_half_texel(self.sim_resolution),
        ) + Renderer::spec_resolution(&self.divergence_program, sim_resolution)
            + self.divergence_program.spec_sampler(Uniform::Velocity, self.velocity_buffer.read, 0)
            + self.divergence_program.spec_sampler(Uniform::Obstacles, self.obstacle_store, 1)
            + Renderer::spec_blit(Some(&self.temp_store), None)
    }

    /// The calls of the pass that seeds the pressure solve: the previous pressure, sampled
    /// on unit 0, is scaled by the pressure coefficient into the pressure's other target.
    pub open spec fn spec_pressure_seed(&self, pressure: Single) -> Seq<Command> {
        self.copy_program.spec_bind() + self.copy_program.spec_uniform1f(
            Uniform::Factor,
            Scalar::of(pressure),
        ) + self.copy_program.spec_uniform1f(Uniform::Offset, Scalar::whole(0))
            + self.copy_program.spec_sampler(Uniform::Texture, self.pressure_buffer.read, 0)
            + Renderer::spec_blit(Some(&self.pressure_buffer.write), None)
    }

    /// The pressure pair after the projection's seeding pass and `iterations` Jacobi
    /// iterations.
    pub open spec fn spec_solved(&self, iterations: usize) -> RWTextureBuffer {
        self.pressure_buffer.spec_swap().spec_swaps(iterations as nat)
    }

    /// The calls of the gradient subtraction: the velocity, sampled on unit 0, less the
    /// gradient of the pressure, sampled on unit 1, with the obstacle mask on unit 2, is
    /// drawn into the velocity's other target.
    pub open spec fn spec_gradient_subtraction(&self, sim_resolution: (u32, u32)) -> Seq<Command> {
        self.subtraction_program.spec_bind() + self.subtraction_program.spec_uniform1f(
            Uniform::RHalfTexelSize,
            Renderer::spec_half_texel(self.sim_resolution),
        ) + Renderer::spec_resolution(&self.subtraction_program, sim_resolution)
            + self.subtraction_program.spec_sampler(
            Uniform::Velocity,
            self.velocity_buffer.read,
            0,
        ) + self.subtraction_program.spec_sampler(Uniform::Pressure, self.pressure_buffer.read, 1)
            + self.subtraction_program.spec_sampler(Uniform::Obstacles, self.obstacle_store, 2)
            + Renderer::spec_blit(Some(&self.velocity_buffer.write), None)
    }

    /// The calls of the pressure projection: the divergence pass, the seeding pass, the
    /// pressure solve of `iterations` Jacobi iterations on the seeded pressure with the
    /// divergence as its right-hand side, and the subtraction of the solved pressure's
    /// gradient.
    pub open spec fn spec_project_velocity(
        &self,
        sim_resolution: (u32, u32),
        iterations: usize,
        pressure: Single,
    ) -> Seq<Command> {
        self.spec_divergence(sim_resolution) + self.spec_pressure_seed(pressure)
            + Renderer::spec_pressure_solve(
            &self.jacobi_program,
            iterations,
            sim_resolution,
            Renderer::spec_alpha(self.sim_resolution),
            Renderer::spec_r_beta(),
            &self.pressure_buffer.spec_swap(),
            Some(&self.temp_store),
            &self.obstacle_store,
        ) + self.spec_with(
            self.velocity_buffer,
            self.spec_solved(iterations),
            self.dye_buffer,
        ).spec_gradient_subtraction(sim_resolution)
    }

    /// The calls of the curl pass: the curl of the velocity, sampled on unit 0, is drawn
    /// into the scratch target.
    pub open spec fn spec_curl(&self, sim_resolution: (u32, u32)) -> Seq<Command> {
        self.curl_program.spec_bind() + self.curl_program.spec_uniform1f(
            Uniform::RHalfTexelSize,
            Renderer::spec_half_texel(self.sim_resolution),
        ) + Renderer::spec_resolution(&self.curl_program, sim_resolution)
            + self.curl_program.spec_sampler(Uniform::Velocity, self.velocity_buffer.read, 0)
            + Renderer::spec_blit(Some(&self.temp_store), None)
    }

    /// The calls of the confinement pass: the velocity, sampled on unit 1, plus the force
    /// from the curl, sampled on unit 0 and scaled by the curl strength, is drawn into the
    /// velocity's other target.
    pub open spec fn spec_vorticity(
        &self,
        sim_resolution: (u32, u32),
        curl: Single,
    ) -> Seq<Command> {
        self.vorticity_program.spec_bind() + self.vorticity_program.spec_uniform1f(
            Uniform::CurlScale,
            Scalar::of(curl),
        ) + self.vorticity_program.spec_uniform1f(
            Uniform::RHalfTexelSize,
            Renderer::spec_half_texel(self.sim_resolution),
        ) + Renderer::spec_resolution(&self.vorticity_program, sim_resolution)
            + self.vorticity_program.spec_sampler(Uniform::Curl, self.temp_store, 0)
            + self.vorticity_program.spec_sampler(Uniform::Velocity, self.velocity_buffer.read, 1)
            + Renderer::spec_blit(Some(&self.velocity_buffer.write), None)
    }

    /// The calls of vorticity confinement: the curl pass, then the confinement pass.
    pub open spec fn spec_vorticity_confinement(
        &self,
        sim_resolution: (u32, u32),
        curl: Single,
    ) -> Seq<Command> {
        self.spec_curl(sim_resolution) + self.spec_vorticity(sim_resolution, curl)
    }
}

impl Renderer {
    /// The calls that prepare a context for the simulation: floating-point textures are
    /// made renderable, and blending is switched off.
    pub open spec fn spec_prepare() -> Seq<Command> {
        seq![Command::EnableColorBufferFloat, Command::DisableBlend]
    }

    /// The calls that make a simulator whose pipeline, before the obstacle is set, is
    /// `fresh`: the context is prepared, the render targets are made, the full-screen quad
    /// is set up under the handle `quad`, and the obstacle is set as none.
    pub open spec fn spec_new(fresh: Pipeline, quad: u64) -> Seq<Command> {
        Self::spec_prepare() + fresh.spec_create() + Self::spec_init_quad_buffers(quad)
            + fresh.spec_set_obstacle(None, Self::spec_origin(), true)
    }

    /// Makes a simulator on a context of the newer API generation, from the extents that
    /// the canvas gives the two resolutions and from the linked programs of the passes.
    ///
    /// It succeeds exactly when both extents can be made and the context has seventeen
    /// handles left. The simulator then holds the context, with the calls that set it up
    /// appended to the record; all its fields start from zero, there is no obstacle, and
    /// the time of the last frame is zero.
    pub fn new(
        gl: Context,
        canvas: &Canvas,
        sim_resolution: Resolution,
        dye_resolution: Resolution,
        programs: Programs,
    ) -> (result: Result<Renderer, Error>)
        ensures
            result.is_ok() <==> Pipeline::spec_creatable(
                gl,
                Self::spec_resolution_size(canvas, sim_resolution),
                Self::spec_resolution_size(canvas, dye_resolution),
            ),
            result matches Ok(renderer) ==> {
                let fresh = Pipeline::spec_new(
                    gl.next_handle,
                    sim_resolution,
                    dye_resolution,
                    Self::spec_resolution_size(canvas, sim_resolution),
                    Self::spec_resolution_size(canvas, dye_resolution),
                    programs,
                );
                &&& renderer.gl.extends(
                    gl,
                    Self::spec_new(fresh, (gl.next_handle + 16) as u64),
                    17,
                )
                &&& renderer.pipeline == fresh.spec_obstructed(Color::spec_black())
                &&& renderer.wf()
            },
            result matches Err(error) ==> error == Error::GpuResource,
    {
        let (width, height) = Renderer::resolution_size(canvas, sim_resolution);
        let (dye_width, dye_height) = Renderer::resolution_size(canvas, dye_resolution);
        if !TextureFramebuffer::can_allocate(width, height) || !TextureFramebuffer::can_allocate(
            dye_width,
            dye_height,
        ) || gl.next_handle > u64::MAX - 17 {
            return Err(Error::GpuResource);
        }
        let ghost start = gl;
        let mut gl = gl;

        gl.push(Command::EnableColorBufferFloat);
        gl.push(Command::DisableBlend);
        assert(gl@ =~= start@ + Self::spec_prepare());
        let ghost prepared = gl;

        let velocity_buffer = RWTextureBuffer::new_webgl2(
            &mut gl,
            width,
            height,
            Some(Filter::Linear),
        )?;
        let ghost first = gl;

        let pressure_buffer = RWTextureBuffer::new_webgl2(
            &mut gl,
            width,
            height,
            Some(Filter::Linear),
        )?;
        let ghost second = gl;

        let temp_store = TextureFramebuffer::new_webgl2(&mut gl, width, height, Filter::Linear)?;
        let ghost third = gl;

        let dye_buffer = RWTextureBuffer::new_webgl2(
            &mut gl,
            dye_width,
            dye_height,
            Some(Filter::Linear),
        )?;
        let ghost fourth = gl;

        let obstacle_store = TextureFramebuffer::new_webgl2(
            &mut gl,
            dye_width,
            dye_height,
            Filter::Nearest,
        )?;
        let ghost fifth = gl;

        Renderer::init_quad_buffers(&mut gl)?;
        let ghost sixth = gl;

        let mut renderer = Renderer {
            gl,
            pipeline: Pipeline {
                sim_resolution,
                dye_resolution,
                copy_program: programs.copy,
                advection_program: programs.advection,
                jacobi_program: programs.jacobi,
                divergence_program: programs.divergence,
                subtraction_program: programs.subtraction,
                curl_program: programs.curl,
                vorticity_program: programs.vorticity,
                splat_program: programs.splat,
                obstacle_program: programs.obstacle,
                color_obstacle_program: programs.color_obstacle,
                velocity_buffer,
                pressure_buffer,
                dye_buffer,
                obstacle_store,
                temp_store,
                last_time: Single::zero(),
                obstacle_color: Color::black(),
            },
        };
        let ghost fresh = renderer.pipeline;
        assert(fresh == Pipeline::spec_new(
            start.next_handle,
            sim_resolution,
            dye_resolution,
            (width, height),
            (dye_width, dye_height),
            programs,
        ));
        proof {
            let velocity_calls = velocity_buffer.spec_create(TexelFormat::Rgba16f);
            let pressure_calls = pressure_buffer.spec_create(TexelFormat::Rgba16f);
            let temp_calls = temp_store.spec_create(Filter::Linear, TexelFormat::Rgba16f);
            let dye_calls = dye_buffer.spec_create(TexelFormat::Rgba16f);
            let obstacle_calls = obstacle_store.spec_create(Filter::Nearest, TexelFormat::Rgba16f);
            lemma_extends_twice(prepared, first, second, velocity_calls, pressure_calls, 4, 4);
            lemma_extends_twice(
                prepared,
                second,
                third,
                velocity_calls + pressure_calls,
                temp_calls,
                8,
                2,
            );
            lemma_extends_twice(
                prepared,
                third,
                fourth,
                velocity_calls + pressure_calls + temp_calls,
                dye_calls,
                10,
                4,
            );
            lemma_extends_twice(
                prepared,
                fourth,
                fifth,
                velocity_calls + pressure_calls + temp_calls + dye_calls,
                obstacle_calls,
                14,
                2,
            );
            lemma_extends_twice(
                start,
                prepared,
                fifth,
                Self::spec_prepare(),
                fresh.spec_create(),
                0,
                16,
            );
            lemma_extends_twice(
                start,
                fifth,
                sixth,
                Self::spec_prepare() + fresh.spec_create(),
                Self::spec_init_quad_buffers(fifth.next_handle),
                16,
                1,
            );
        }

        let origin = [Single::zero(), Single::zero()];
        let black = [Single::zero(), Single::zero(), Single::zero()];
        assert(origin@ =~= Self::spec_origin());
        renderer.set_obstacle(None, &origin, &black, true)?;
        proof {
            lemma_extends_twice(
                start,
                sixth,
                renderer.gl,
                Self::spec_prepare() + fresh.spec_create() + Self::spec_init_quad_buffers(
                    fifth.next_handle,
                ),
                fresh.spec_set_obstacle(None, Self::spec_origin(), true),
                17,
                0,
            );
        }

        Ok(renderer)
    }

    /// The four corners of the full-screen quad, in strip order: the clip-space square from
    /// -1 to 1, each corner with its texture coordinate from 0 to 1.
    pub open spec fn spec_quad() -> (Vertex, Vertex, Vertex, Vertex) {
        (
            Vertex { x: -1 as i8, y: -1 as i8, u: 0, v: 0 },
            Vertex { x: 1, y: -1 as i8, u: 1, v: 0 },
            Vertex { x: -1 as i8, y: 1, u: 0, v: 1 },
            Vertex { x: 1, y: 1, u: 1, v: 1 },
        )
    }

    /// The calls that set the full-screen quad up in the vertex buffer `buffer`: the
    /// corners are stored, attribute 0 is the position and attribute 1 the texture
    /// coordinate, two numbers each out of the sixteen bytes of a corner.
    pub open spec fn spec_init_quad_buffers(buffer: u64) -> Seq<Command> {
        seq![
            Command::CreateBuffer { buffer },
            Command::BindBuffer { buffer },
            Command::BufferData { corners: Self::spec_quad() },
            Command::VertexAttribPointer { index: 0, size: 2, stride: 16, offset: 0 },
            Command::VertexAttribPointer { index: 1, size: 2, stride: 16, offset: 8 },
            Command::EnableVertexAttribArray { index: 0 },
            Command::EnableVertexAttribArray { index: 1 },
        ]
    }

    /// Records the set-up of the full-screen quad that every pass draws.
    ///
    /// The vertex buffer takes the next handle of the context. Without a handle left
    /// nothing is recorded.
    pub fn init_quad_buffers(gl: &mut Context) -> (result: Result<(), Error>)
        ensures
            result.is_ok() <==> old(gl).has_handles(1),
            result.is_ok() ==> final(gl).extends(
                *old(gl),
                Self::spec_init_quad_buffers(old(gl).next_handle),
                1,
            ),
            result matches Err(error) ==> error == Error::GpuResource && final(gl).same_as(
                *old(gl),
            ),
    {
        let vertex_buffer = match gl.reserve(1) {
            Some(buffer) => buffer,
            None => {
                return Err(Error::GpuResource);
            },
        };
        gl.push(Command::CreateBuffer { buffer: vertex_buffer });
        gl.push(Command::BindBuffer { buffer: vertex_buffer });

        let corners = (
            Vertex { x: -1, y: -1, u: 0, v: 0 },
            Vertex { x: 1, y: -1, u: 1, v: 0 },
            Vertex { x: -1, y: 1, u: 0, v: 1 },
            Vertex { x: 1, y: 1, u: 1, v: 1 },
        );
        gl.push(Command::BufferData { corners });

        gl.push(Command::VertexAttribPointer { index: 0, size: 2, stride: 16, offset: 0 });
        gl.push(Command::VertexAttribPointer { index: 1, size: 2, stride: 16, offset: 8 });

        gl.push(Command::EnableVertexAttribArray { index: 0 });
        gl.push(Command::EnableVertexAttribArray { index: 1 });

        assert(gl@ =~= old(gl)@ + Self::spec_init_quad_buffers(vertex_buffer));
        Ok(())
    }

    /// The calls of one full-screen pass: the target is bound with the viewport on all of
    /// it, the target is cleared to opaque black if that is asked for, and the quad is
    /// drawn as a strip of four vertices. Without a target the pass goes to the canvas.
    pub open spec fn spec_blit(
        target: Option<&TextureFramebuffer>,
        clear: Option<bool>,
    ) -> Seq<Command> {
        let bind = match target {
            Some(tfb) => seq![
                Command::Viewport { width: tfb.width, height: tfb.height },
                Command::BindFramebuffer { framebuffer: Some(tfb.framebuffer) },
            ],
            None => seq![
                Command::ViewportDrawingBuffer,
                Command::BindFramebuffer { framebuffer: None },
            ],
        };
        let wipe = if clear == Some(true) {
            seq![
                Command::ClearColor {
                    red: Scalar::whole(0),
                    green: Scalar::whole(0),
                    blue: Scalar::whole(0),
                    alpha: Scalar::whole(1),
                },
                Command::Clear,
            ]
        } else {
            Seq::<Command>::empty()
        };
        bind + wipe + seq![Command::DrawArrays { first: 0, count: 4 }]
    }

    /// Records one full-screen pass into `target`, or onto the canvas where there is none.
    pub fn blit(gl: &mut Context, target: Option<&TextureFramebuffer>, clear: Option<bool>)
        ensures
            final(gl).extends(*old(gl), Self::spec_blit(target, clear), 0),
    {
        match target {
            Some(tfb) => {
                gl.push(Command::Viewport { width: tfb.width(), height: tfb.height() });
                gl.push(Command::BindFramebuffer { framebuffer: Some(tfb.buffer()) });
            },
            None => {
                gl.push(Command::ViewportDrawingBuffer);
                gl.push(Command::BindFramebuffer { framebuffer: None });
            },
        }

        let wipe = match clear {
            Some(wipe) => wipe,
            None => false,
        };
        if wipe {
            gl.push(
                Command::ClearColor {
                    red: Scalar::integer(0),
                    green: Scalar::integer(0),
                    blue: Scalar::integer(0),
                    alpha: Scalar::integer(1),
                },
            );
            gl.push(Command::Clear);
        }

        gl.push(Command::DrawArrays { first: 0, count: 4 });
        assert(gl@ =~= old(gl)@ + Self::spec_blit(target, clear));
    }

    /// The call that tells a program the extent of the simulation.
    pub open spec fn spec_resolution(
        program: &ShaderProgram,
        sim_resolution: (u32, u32),
    ) -> Seq<Command> {
        program.spec_uniform2f(
            Uniform::Resolution,
            Scalar::whole(sim_resolution.0 as int),
            Scalar::whole(sim_resolution.1 as int),
        )
    }

    fn resolution(gl: &mut Context, program: &ShaderProgram, sim_resolution: (u32, u32))
        ensures
            final(gl).extends(*old(gl), Self::spec_resolution(program, sim_resolution), 0),
    {
        program.uniform2f(
            gl,
            Uniform::Resolution,
            Scalar::integer(sim_resolution.0 as i64),
            Scalar::integer(sim_resolution.1 as i64),
        );
    }

    /// Half of the reciprocal of a resolution's factor: `1 / (2 * factor)`.
    pub open spec fn spec_half_texel(resolution: Resolution) -> Scalar {
        Scalar::Ratio { numerator: 1, denominator: (2 * resolution.spec_factor()) as u32 }
    }

    fn half_texel(resolution: Resolution) -> (scalar: Scalar)
        ensures
            scalar == Self::spec_half_texel(resolution),
    {
        Scalar::Ratio { numerator: 1, denominator: 2 * resolution.factor() }
    }

    /// One Jacobi iteration on the pair `x`: the current value is sampled on unit 0, and
    /// the next value is drawn into the other target.
    pub open spec fn spec_jacobi_iteration(
        jacobi_program: &ShaderProgram,
        x: &RWTextureBuffer,
    ) -> Seq<Command> {
        jacobi_program.spec_sampler(Uniform::X, x.read, 0) + Self::spec_blit(Some(&x.write), None)
    }

    /// The calls of `iterations` Jacobi iterations that start from the pair `x` and
    /// exchange its roles after each.
    pub open spec fn spec_jacobi_iterations(
        jacobi_program: &ShaderProgram,
        x: RWTextureBuffer,
        iterations: nat,
    ) -> Seq<Command>
        decreases iterations,
    {
        if iterations == 0 {
            Seq::<Command>::empty()
        } else {
            Self::spec_jacobi_iterations(jacobi_program, x, (iterations - 1) as nat)
                + Self::spec_jacobi_iteration(
                jacobi_program,
                &x.spec_swaps((iterations - 1) as nat),
            )
        }
    }

    /// The calls of a pressure solve: the Jacobi program is made current and told its two
    /// coefficients and the extent; the right-hand side `b` is sampled on unit 1 (without
    /// one, the sampler is set to unit 0), the obstacle mask on unit 2; then come the
    /// iterations.
    pub open spec fn spec_pressure_solve(
        jacobi_program: &ShaderProgram,
        iterations: usize,
        resolution: (u32, u32),
        alpha: Scalar,
        r_beta: Scalar,
        x: &RWTextureBuffer,
        b: Option<&TextureFramebuffer>,
        obstacle: &TextureFramebuffer,
    ) -> Seq<Command> {
        jacobi_program.spec_bind() + jacobi_program.spec_uniform1f(Uniform::Alpha, alpha)
            + jacobi_program.spec_uniform1f(Uniform::RBeta, r_beta) + Self::spec_resolution(
            jacobi_program,
            resolution,
        ) + (match b {
            Some(b) => jacobi_program.spec_sampler(Uniform::B, *b, 1),
            None => jacobi_program.spec_uniform1i(Uniform::B, 0),
        }) + jacobi_program.spec_sampler(Uniform::Obstacles, *obstacle, 2)
            + Self::spec_jacobi_iterations(jacobi_program, *x, iterations as nat)
    }

    /// Records a pressure solve of exactly `iterations` Jacobi iterations on the pair `x`.
    ///
    /// Each iteration reads the current value of `x`, writes the next, and exchanges the
    /// roles: after the solve the roles are exchanged exactly when `iterations` is odd.
    pub fn pressure_solve(
        gl: &mut Context,
        jacobi_program: &ShaderProgram,
        iterations: usize,
        resolution: (u32, u32),
        alpha: Scalar,
        r_beta: Scalar,
        x: &mut RWTextureBuffer,
        b: Option<&TextureFramebuffer>,
        obstacle: &TextureFramebuffer,
    ) -> (result: Result<(), Error>)
        ensures
            result.is_ok(),
            final(gl).extends(
                *old(gl),
                Self::spec_pressure_solve(
                    jacobi_program,
                    iterations,
                    resolution,
                    alpha,
                    r_beta,
                    &*old(x),
                    b,
                    obstacle,
                ),
                0,
            ),
            *final(x) == old(x).spec_swaps(iterations as nat),
    {
        jacobi_program.bind(gl);

        jacobi_program.uniform1f(gl, Uniform::Alpha, alpha);
        jacobi_program.uniform1f(gl, Uniform::RBeta, r_beta);
        Self::resolution(gl, jacobi_program, resolution);
        match b {
            Some(b) => {
                jacobi_program.sampler(gl, Uniform::B, b, 1)?;
            },
            None => {
                jacobi_program.uniform1i(gl, Uniform::B, 0);
            },
        }
        jacobi_program.sampler(gl, Uniform::Obstacles, obstacle, 2)?;

        let ghost prologue = jacobi_program.spec_bind() + jacobi_program.spec_uniform1f(
            Uniform::Alpha,
            alpha,
        ) + jacobi_program.spec_uniform1f(Uniform::RBeta, r_beta) + Self::spec_resolution(
            jacobi_program,
            resolution,
        ) + (match b {
            Some(b) => jacobi_program.spec_sampler(Uniform::B, *b, 1),
            None => jacobi_program.spec_uniform1i(Uniform::B, 0),
        }) + jacobi_program.spec_sampler(Uniform::Obstacles, *obstacle, 2);
        assert(gl@ =~= old(gl)@ + prologue);

        let mut done: usize = 0;
        while done < iterations
            invariant
                done <= iterations,
                gl@ == old(gl)@ + prologue + Self::spec_jacobi_iterations(
                    jacobi_program,
                    *old(x),
                    done as nat,
                ),
                gl.next_handle == old(gl).next_handle,
                *x == old(x).spec_swaps(done as nat),
            decreases iterations - done,
        {
            let ghost before = gl@;
            jacobi_program.sampler(gl, Uniform::X, x.read(), 0)?;

            Renderer::blit(gl, Some(x.write()), None);
            assert(gl@ =~= before + Self::spec_jacobi_iteration(jacobi_program, &*x));
            x.swap();
            done += 1;
            assert(gl@ =~= old(gl)@ + prologue + Self::spec_jacobi_iterations(
                jacobi_program,
                *old(x),
                done as nat,
            ));
        }

        assert(gl@ =~= old(gl)@ + (prologue + Self::spec_jacobi_iterations(
            jacobi_program,
            *old(x),
            iterations as nat,
        )));
        Ok(())
    }

    /// The factor by which the draw pass scales a field: 1 for dye, one half for the signed
    /// fields.
    pub open spec fn spec_draw_factor(mode: Mode) -> Scalar {
        match mode {
            Mode::DYE => Scalar::whole(1),
            _ => Scalar::Ratio { numerator: 1, denominator: 2 },
        }
    }

    /// The offset that the draw pass adds to a field: 0 for dye, one half for the signed
    /// fields.
    pub open spec fn spec_draw_offset(mode: Mode) -> Scalar {
        match mode {
            Mode::DYE => Scalar::whole(0),
            _ => Scalar::Ratio { numerator: 1, denominator: 2 },
        }
    }

    /// Records the pass that draws the field of the mode onto the canvas.
    ///
    /// Dye is shown as it is. Velocity and pressure, which can be negative, are scaled and
    /// offset by one half each. No field of the fluid changes.
    pub fn draw_pass(&mut self, mode: Mode) -> (result: Result<(), Error>)
        ensures
            result.is_ok(),
            final(self).gl.extends(old(self).gl, old(self).pipeline.spec_draw_pass(mode), 0),
            final(self).pipeline == old(self).pipeline.spec_with(
                old(self).pipeline.velocity_buffer,
                old(self).pipeline.pressure_buffer,
                old(self).pipeline.dye_buffer,
            ),
    {
        self.pipeline.copy_program.bind(&mut self.gl);

        self.pipeline.copy_program.uniform1f(
            &mut self.gl,
            Uniform::Factor,
            match mode {
                Mode::DYE => Scalar::integer(1),
                _ => Scalar::Ratio { numerator: 1, denominator: 2 },
            },
        );
        self.pipeline.copy_program.uniform1f(
            &mut self.gl,
            Uniform::Offset,
            match mode {
                Mode::DYE => Scalar::integer(0),
                _ => Scalar::Ratio { numerator: 1, denominator: 2 },
            },
        );
        match mode {
            Mode::DYE => self.pipeline.copy_program.sampler(
                &mut self.gl,
                Uniform::Texture,
                self.pipeline.dye_buffer.read(),
                0,
            )?,
            Mode::VELOCITY => self.pipeline.copy_program.sampler(
                &mut self.gl,
                Uniform::Texture,
                self.pipeline.velocity_buffer.read(),
                0,
            )?,
            Mode::PRESSURE => self.pipeline.copy_program.sampler(
                &mut self.gl,
                Uniform::Texture,
                self.pipeline.pressure_buffer.read(),
                0,
            )?,
        }

        Renderer::blit(&mut self.gl, None, Some(true));
        assert(self.gl@ =~= old(self).gl@ + old(self).pipeline.spec_draw_pass(mode));

        Ok(())
    }

    /// The calls of an advection pass: the advection program is told the damping factor
    /// of `dissipation` over the time step, the time step and the extent of the
    /// simulation; it samples the carrying velocity on unit 1 (without one, the sampler is
    /// set to unit 0, where the quantity itself is), the quantity on unit 0 and the
    /// obstacle mask on unit 2; and it draws into the quantity's other target.
    pub open spec fn spec_advect(
        advection_program: &ShaderProgram,
        sim_resolution: (u32, u32),
        delta_time: TimeStep,
        dissipation: Single,
        velocity_buffer: Option<&RWTextureBuffer>,
        quantity: &RWTextureBuffer,
        obstacle: &TextureFramebuffer,
    ) -> Seq<Command> {
        advection_program.spec_bind() + advection_program.spec_uniform1f(
            Uniform::Dissipation,
            Scalar::Damping { rate: dissipation, step: delta_time },
        ) + advection_program.spec_uniform1f(Uniform::DeltaTime, Scalar::Step { step: delta_time })
            + Self::spec_resolution(advection_program, sim_resolution) + (match velocity_buffer {
            Some(b) => advection_program.spec_sampler(Uniform::Velocity, b.read, 1),
            None => advection_program.spec_uniform1i(Uniform::Velocity, 0),
        }) + advection_program.spec_sampler(Uniform::Quantity, quantity.read, 0)
            + advection_program.spec_sampler(Uniform::Obstacles, *obstacle, 2) + Self::spec_blit(
            Some(&quantity.write),
            None,
        )
    }

    /// Records the pass that carries a quantity along a velocity field over one time step
    /// and damps it, and exchanges the roles of the quantity's targets.
    ///
    /// Without a velocity pair the quantity is the velocity and carries itself.
    pub fn advect(
        gl: &mut Context,
        advection_program: &ShaderProgram,
        sim_resolution: (u32, u32),
        delta_time: TimeStep,
        dissipation: Single,
        velocity_buffer: Option<&RWTextureBuffer>,
        quantity: &mut RWTextureBuffer,
        obstacle: &TextureFramebuffer,
    ) -> (result: Result<(), Error>)
        ensures
            result.is_ok(),
            final(gl).extends(
                *old(gl),
                Self::spec_advect(
                    advection_program,
                    sim_resolution,
                    delta_time,
                    dissipation,
                    velocity_buffer,
                    &*old(quantity),
                    obstacle,
                ),
                0,
            ),
            *final(quantity) == old(quantity).spec_swap(),
    {
        advection_program.bind(gl);

        advection_program.uniform1f(
            gl,
            Uniform::Dissipation,
            Scalar::Damping { rate: dissipation, step: delta_time },
        );
        advection_program.uniform1f(gl, Uniform::DeltaTime, Scalar::Step { step: delta_time });
        Self::resolution(gl, advection_program, sim_resolution);
        match velocity_buffer {
            Some(b) => {
                advection_program.sampler(gl, Uniform::Velocity, b.read(), 1)?;
            },
            None => {
                advection_program.uniform1i(gl, Uniform::Velocity, 0);
            },
        }
        advection_program.sampler(gl, Uniform::Quantity, quantity.read(), 0)?;
        advection_program.sampler(gl, Uniform::Obstacles, obstacle, 2)?;

        Renderer::blit(gl, Some(quantity.write()), None);
        assert(gl@ =~= old(gl)@ + Self::spec_advect(
            advection_program,
            sim_resolution,
            delta_time,
            dissipation,
            velocity_buffer,
            &*old(quantity),
            obstacle,
        ));
        quantity.swap();

        Ok(())
    }

    /// The calls of the pass that forces the dye to a colour inside the obstacle: the
    /// program is told the colour; it samples the dye on unit 0 and the obstacle mask on
    /// unit 1; and it draws into the dye's other target.
    pub open spec fn spec_color_obstacle(
        color_obstacle_program: &ShaderProgram,
        obstacle: &TextureFramebuffer,
        dye: &RWTextureBuffer,
        color: &Color,
    ) -> Seq<Command> {
        color_obstacle_program.spec_bind() + color_obstacle_program.spec_uniform3f(
            Uniform::Color,
            Scalar::of(color.red),
            Scalar::of(color.green),
            Scalar::of(color.blue),
        ) + color_obstacle_program.spec_sampler(Uniform::Texture, dye.read, 0)
            + color_obstacle_program.spec_sampler(Uniform::Obstacles, *obstacle, 1)
            + Self::spec_blit(Some(&dye.write), None)
    }

    /// Records the pass that forces the dye to a colour inside the obstacle, and exchanges
    /// the roles of the dye's targets.
    pub fn color_obstacle(
        gl: &mut Context,
        color_obstacle_program: &ShaderProgram,
        obstacle: &TextureFramebuffer,
        dye: &mut RWTextureBuffer,
        color: &Color,
    ) -> (result: Result<(), Error>)
        ensures
            result.is_ok(),
            final(gl).extends(
                *old(gl),
                Self::spec_color_obstacle(color_obstacle_program, obstacle, &*old(dye), color),
                0,
            ),
            *final(dye) == old(dye).spec_swap(),
    {
        color_obstacle_program.bind(gl);

        color_obstacle_program.uniform3f(
            gl,
            Uniform::Color,
            Scalar::value(color.red),
            Scalar::value(color.green),
            Scalar::value(color.blue),
        );
        color_obstacle_program.sampler(gl, Uniform::Texture, dye.read(), 0)?;
        color_obstacle_program.sampler(gl, Uniform::Obstacles, obstacle, 1)?;

        Renderer::blit(gl, Some(dye.write()), None);
        assert(gl@ =~= old(gl)@ + Self::spec_color_obstacle(
            color_obstacle_program,
            obstacle,
            &*old(dye),
            color,
        ));
        dye.swap();

        Ok(())
    }

    /// The first coefficient of the Jacobi iteration: minus the square of the simulation's
    /// resolution factor.
    pub open spec fn spec_alpha(resolution: Resolution) -> Scalar {
        Scalar::whole(-(resolution.spec_factor() * resolution.spec_factor()))
    }

    /// The second coefficient of the Jacobi iteration: one quarter.
    pub open spec fn spec_r_beta() -> Scalar {
        Scalar::Ratio { numerator: 1, denominator: 4 }
    }

    /// Records the divergence pass.
    fn divergence(&mut self, sim_resolution: (u32, u32)) -> (result: Result<(), Error>)
        ensures
            result.is_ok(),
            final(self).gl.extends(
                old(self).gl,
                old(self).pipeline.spec_divergence(sim_resolution),
                0,
            ),
            final(self).pipeline == old(self).pipeline,
    {
        self.pipeline.divergence_program.bind(&mut self.gl);

        self.pipeline.divergence_program.uniform1f(
            &mut self.gl,
            Uniform::RHalfTexelSize,
            Self::half_texel(self.pipeline.sim_resolution),
        );
        Self::resolution(&mut self.gl, &self.pipeline.divergence_program, sim_resolution);
        self.pipeline.divergence_program.sampler(
            &mut self.gl,
            Uniform::Velocity,
            self.pipeline.velocity_buffer.read(),
            0,
        )?;
        self.pipeline.divergence_program.sampler(
            &mut self.gl,
            Uniform::Obstacles,
            &self.pipeline.obstacle_store,
            1,
        )?;

        Renderer::blit(&mut self.gl, Some(&self.pipeline.temp_store), None);
        assert(self.gl@ =~= old(self).gl@ + old(self).pipeline.spec_divergence(sim_resolution));
        Ok(())
    }

    /// Records the pass that seeds the pressure solve, and exchanges the roles of the
    /// pressure's targets.
    fn pressure_seed(&mut self, pressure: Single) -> (result: Result<(), Error>)
        ensures
            result.is_ok(),
            final(self).gl.extends(
                old(self).gl,
                old(self).pipeline.spec_pressure_seed(pressure),
                0,
            ),
            final(self).pipeline == old(self).pipeline.spec_with(
                old(self).pipeline.velocity_buffer,
                old(self).pipeline.pressure_buffer.spec_swap(),
                old(self).pipeline.dye_buffer,
            ),
    {
        self.pipeline.copy_program.bind(&mut self.gl);

        self.pipeline.copy_program.uniform1f(
            &mut self.gl,
            Uniform::Factor,
            Scalar::value(pressure),
        );
        self.pipeline.copy_program.uniform1f(&mut self.gl, Uniform::Offset, Scalar::integer(0));
        self.pipeline.copy_program.sampler(
            &mut self.gl,
            Uniform::Texture,
            self.pipeline.pressure_buffer.read(),
            0,
        )?;

        Renderer::blit(&mut self.gl, Some(self.pipeline.pressure_buffer.write()), None);
        assert(self.gl@ =~= old(self).gl@ + old(self).pipeline.spec_pressure_seed(pressure));
        self.pipeline.pressure_buffer.swap();
        Ok(())
    }

    /// Records the gradient subtraction, and exchanges the roles of the velocity's targets.
    fn gradient_subtraction(&mut self, sim_resolution: (u32, u32)) -> (result: Result< (), Error>)
        ensures
            result.is_ok(),
            final(self).gl.extends(
                old(self).gl,
                old(self).pipeline.spec_gradient_subtraction(sim_resolution),
                0,
            ),
            final(self).pipeline == old(self).pipeline.spec_with(
                old(self).pipeline.velocity_buffer.spec_swap(),
                old(self).pipeline.pressure_buffer,
                old(self).pipeline.dye_buffer,
            ),
    {
        self.pipeline.subtraction_program.bind(&mut self.gl);

        self.pipeline.subtraction_program.uniform1f(
            &mut self.gl,
            Uniform::RHalfTexelSize,
            Self::half_texel(self.pipeline.sim_resolution),
        );
        Self::resolution(&mut self.gl, &self.pipeline.subtraction_program, sim_resolution);
        self.pipeline.subtraction_program.sampler(
            &mut self.gl,
            Uniform::Velocity,
            self.pipeline.velocity_buffer.read(),
            0,
        )?;
        self.pipeline.subtraction_program.sampler(
            &mut self.gl,
            Uniform::Pressure,
            self.pipeline.pressure_buffer.read(),
            1,
        )?;
        self.pipeline.subtraction_program.sampler(
            &mut self.gl,
            Uniform::Obstacles,
            &self.pipeline.obstacle_store,
            2,
        )?;

        Renderer::blit(&mut self.gl, Some(self.pipeline.velocity_buffer.write()), None);
        assert(self.gl@ =~= old(self).gl@ + old(self).pipeline.spec_gradient_subtraction(
            sim_resolution,
        ));
        self.pipeline.velocity_buffer.swap();
        Ok(())
    }

    /// Records the pressure projection, which takes the divergent part out of the
    /// velocity.
    ///
    /// The pressure solve runs exactly `iterations` Jacobi iterations. Afterwards the roles
    /// of the velocity's targets are exchanged once, and those of the pressure's targets
    /// once for the seeding pass and once for each iteration.
    pub fn project_velocity(
        &mut self,
        sim_resolution: (u32, u32),
        iterations: usize,
        pressure: Single,
    ) -> (result: Result<(), Error>)
        ensures
            result.is_ok(),
            final(self).gl.extends(
                old(self).gl,
                old(self).pipeline.spec_project_velocity(sim_resolution, iterations, pressure),
                0,
            ),
            final(self).pipeline == old(self).pipeline.spec_with(
                old(self).pipeline.velocity_buffer.spec_swap(),
                old(self).pipeline.spec_solved(iterations),
                old(self).pipeline.dye_buffer,
            ),
    {
        let ghost before = self.pipeline;

        // DIVERGENCE
        self.divergence(sim_resolution)?;
        let ghost diverged = self.gl;

        // PRESSURE
        self.pressure_seed(pressure)?;
        let ghost seeded = self.gl;

        let factor = self.pipeline.sim_resolution.factor();
        let alpha = Scalar::integer(-((factor as i64) * (factor as i64)));
        let r_beta = Scalar::Ratio { numerator: 1, denominator: 4 };
        Renderer::pressure_solve(
            &mut self.gl,
            &self.pipeline.jacobi_program,
            iterations,
            sim_resolution,
            alpha,
            r_beta,
            &mut self.pipeline.pressure_buffer,
            Some(&self.pipeline.temp_store),
            &self.pipeline.obstacle_store,
        )?;
        let ghost solved = self.gl;

        // SUBTRACTION
        let ghost solution = self.pipeline;
        self.gradient_subtraction(sim_resolution)?;

        proof {
            let diverging = before.spec_divergence(sim_resolution);
            let seeding = before.spec_pressure_seed(pressure);
            let solving = Self::spec_pressure_solve(
                &before.jacobi_program,
                iterations,
                sim_resolution,
                Self::spec_alpha(before.sim_resolution),
                Self::spec_r_beta(),
                &before.pressure_buffer.spec_swap(),
                Some(&before.temp_store),
                &before.obstacle_store,
            );
            let subtracting = solution.spec_gradient_subtraction(sim_resolution);
            lemma_extends_twice(old(self).gl, diverged, seeded, diverging, seeding, 0, 0);
            lemma_extends_twice(old(self).gl, seeded, solved, diverging + seeding, solving, 0, 0);
            lemma_extends_twice(
                old(self).gl,
                solved,
                self.gl,
                diverging + seeding + solving,
                subtracting,
                0,
                0,
            );
        }
        Ok(())
    }

    /// Records vorticity confinement, which puts back the small-scale rotation that the
    /// other passes smooth away, and exchanges the roles of the velocity's targets.
    pub fn vorticity_confinement(
        &mut self,
        sim_resolution: (u32, u32),
        curl: Single,
    ) -> (result: Result<(), Error>)
        ensures
            result.is_ok(),
            final(self).gl.extends(
                old(self).gl,
                old(self).pipeline.spec_vorticity_confinement(sim_resolution, curl),
                0,
            ),
            final(self).pipeline == old(self).pipeline.spec_with(
                old(self).pipeline.velocity_buffer.spec_swap(),
                old(self).pipeline.pressure_buffer,
                old(self).pipeline.dye_buffer,
            ),
    {
        let r_half_texel = Self::half_texel(self.pipeline.sim_resolution);

        // CURL
        self.pipeline.curl_program.bind(&mut self.gl);

        self.pipeline.curl_program.uniform1f(&mut self.gl, Uniform::RHalfTexelSize, r_half_texel);
        Self::resolution(&mut self.gl, &self.pipeline.curl_program, sim_resolution);
        self.pipeline.curl_program.sampler(
            &mut self.gl,
            Uniform::Velocity,
            self.pipeline.velocity_buffer.read(),
            0,
        )?;

        Renderer::blit(&mut self.gl, Some(&self.pipeline.temp_store), None);
        assert(self.gl@ =~= old(self).gl@ + old(self).pipeline.spec_curl(sim_resolution));
        let ghost curled = self.gl@;

        // VORTICITY CONFINEMENT
        self.pipeline.vorticity_program.bind(&mut self.gl);

        self.pipeline.vorticity_program.uniform1f(
            &mut self.gl,
            Uniform::CurlScale,
            Scalar::value(curl),
        );
        self.pipeline.vorticity_program.uniform1f(
            &mut self.gl,
            Uniform::RHalfTexelSize,
            r_half_texel,
        );
        Self::resolution(&mut self.gl, &self.pipeline.vorticity_program, sim_resolution);
        self.pipeline.vorticity_program.sampler(
            &mut self.gl,
            Uniform::Curl,
            &self.pipeline.temp_store,
            0,
        )?;
        self.pipeline.vorticity_program.sampler(
            &mut self.gl,
            Uniform::Velocity,
            self.pipeline.velocity_buffer.read(),
            1,
        )?;

        Renderer::blit(&mut self.gl, Some(self.pipeline.velocity_buffer.write()), None);
        assert(self.gl@ =~= curled + old(self).pipeline.spec_vorticity(sim_resolution, curl));
        self.pipeline.velocity_buffer.swap();

        assert(self.gl@ =~= old(self).gl@ + old(self).pipeline.spec_vorticity_confinement(
            sim_resolution,
            curl,
        ));

        Ok(())
    }

    /// The extent of a field at a resolution: the canvas's pixel size divided, side by
    /// side, by the resolution's factor.
    pub open spec fn spec_resolution_size(canvas: &Canvas, resolution: Resolution) -> (u32, u32) {
        (canvas.width / resolution.spec_factor(), canvas.height / resolution.spec_factor())
    }

    /// The extent of a field at a resolution: the canvas's pixel size divided, side by
    /// side, by the resolution's factor.
    pub fn resolution_size(canvas: &Canvas, resolution: Resolution) -> (size: (u32, u32))
        ensures
            size == Self::spec_resolution_size(canvas, resolution),
    {
        let factor = resolution.factor();
        (canvas.width / factor, canvas.height / factor)
    }
}

} // verus!
