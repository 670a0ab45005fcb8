//! The core of a fluid simulation that runs on the GPU: the render targets, the shader
//! programs, and the passes of each frame, recorded as calls for a GPU context.
//!
//! The core does not talk to a GPU. Each operation appends the calls that it wants made to
//! the record of a [`context::Context`]; the owner of a real context takes the record and
//! plays it back in order. Numbers are carried in their bit encoding and described rather
//! than computed ([`context::Scalar`]): whoever plays a record back evaluates them.
//!
//! [`state`] says what a record means to a context, [`safety`] that a context accepts what
//! the core records, and [`laws`] what else holds of the operations taken together.

pub mod context;
pub mod error;
pub mod laws;
pub mod renderer;
pub mod safety;
pub mod shader_program;
pub mod shaders;
pub mod state;
pub mod textures;

use vstd::prelude::*;
use crate::context::{
    lemma_extends_twice, Color, Command, Context, Filter, Scalar, Single, TexelFormat, TimeStep,
};
use crate::error::Error;
use crate::shader_program::ShaderProgram;
use crate::shaders::Uniform;
use crate::textures::{RWTextureBuffer, TextureFramebuffer};

verus! {

/// The factor by which a field of the simulation is coarser than the canvas.
#[derive(Clone, Copy, Debug, PartialEq, Eq)]
pub enum Resolution {
    ONE,
    TWO,
    FOUR,
    EIGHT,
    SIXTEEN,
}

impl Resolution {
    /// The factor as a number.
    pub open spec fn spec_factor(self) -> u32 {
        match self {
            Resolution::ONE => 1,
            Resolution::TWO => 2,
            Resolution::FOUR => 4,
            Resolution::EIGHT => 8,
            Resolution::SIXTEEN => 16,
        }
    }

    /// The factor as a number: 1, 2, 4, 8 or 16.
    pub fn factor(self) -> (factor: u32)
        ensures
            factor == self.spec_factor(),
            1 <= factor <= 16,
    {
        match self {
            Resolution::ONE => 1,
            Resolution::TWO => 2,
            Resolution::FOUR => 4,
            Resolution::EIGHT => 8,
            Resolution::SIXTEEN => 16,
        }
    }
}

/// The field that the draw pass shows.
#[derive(Clone, Copy, Debug, PartialEq, Eq)]
pub enum Mode {
    DYE,
    VELOCITY,
    PRESSURE,
}

/// The pixel size of the canvas, as its owner last read it.
#[derive(Clone, Copy, Debug, PartialEq, Eq)]
pub struct Canvas {
    pub width: u32,
    pub height: u32,
}

/// The linked programs of the simulation's passes.
pub struct Programs {
    pub copy: ShaderProgram,
    pub advection: ShaderProgram,
    pub jacobi: ShaderProgram,
    pub divergence: ShaderProgram,
    pub subtraction: ShaderProgram,
    pub curl: ShaderProgram,
    pub vorticity: ShaderProgram,
    pub splat: ShaderProgram,
    pub obstacle: ShaderProgram,
    pub color_obstacle: ShaderProgram,
}

/// What the passes of a frame work with: the resolutions, the programs, the fields of the
/// fluid with the scratch target and the obstacle mask, the time of the last frame and
/// the obstacle's tint.
pub struct Pipeline {
    pub sim_resolution: Resolution,
    pub dye_resolution: Resolution,
    pub copy_program: ShaderProgram,
    pub advection_program: ShaderProgram,
    pub jacobi_program: ShaderProgram,
    pub divergence_program: ShaderProgram,
    pub subtraction_program: ShaderProgram,
    pub curl_program: ShaderProgram,
    pub vorticity_program: ShaderProgram,
    pub splat_program: ShaderProgram,
    pub obstacle_program: ShaderProgram,
    pub color_obstacle_program: ShaderProgram,
    pub velocity_buffer: RWTextureBuffer,
    pub pressure_buffer: RWTextureBuffer,
    pub dye_buffer: RWTextureBuffer,
    pub obstacle_store: TextureFramebuffer,
    pub temp_store: TextureFramebuffer,
    pub last_time: Single,
    pub obstacle_color: Color,
}

/// The simulator: the context that it records on, and its pipeline.
pub struct Renderer {
    pub gl: Context,
    pub pipeline: Pipeline,
}

/// The fewest Jacobi iterations that a frame's pressure solve runs. Below this the
/// pressure field is visibly wrong.
pub const MIN_PRESSURE_ITERATIONS: usize = 20;

impl Pipeline {
    /// Whether every render target is valid and below `next`, and no two share a handle.
    pub open spec fn spec_handles_ok(&self, next: u64) -> bool {
        &&& self.velocity_buffer.wf()
        &&& self.pressure_buffer.wf()
        &&& self.dye_buffer.wf()
        &&& self.obstacle_store.wf()
        &&& self.temp_store.wf()
        &&& self.velocity_buffer.apart_from(&self.pressure_buffer)
        &&& self.velocity_buffer.apart_from(&self.dye_buffer)
        &&& self.pressure_buffer.apart_from(&self.dye_buffer)
        &&& self.velocity_buffer.apart(&self.obstacle_store)
        &&& self.velocity_buffer.apart(&self.temp_store)
        &&& self.pressure_buffer.apart(&self.obstacle_store)
        &&& self.pressure_buffer.apart(&self.temp_store)
        &&& self.dye_buffer.apart(&self.obstacle_store)
        &&& self.dye_buffer.apart(&self.temp_store)
        &&& self.obstacle_store.apart(&self.temp_store)
        &&& self.velocity_buffer.below(next)
        &&& self.pressure_buffer.below(next)
        &&& self.dye_buffer.below(next)
        &&& self.obstacle_store.below(next)
        &&& self.temp_store.below(next)
    }

    /// Whether velocity, pressure and the scratch target share one extent, and dye and the
    /// obstacle mask another.
    pub open spec fn spec_extents_ok(&self) -> bool {
        &&& self.pressure_buffer.extent() == self.velocity_buffer.extent()
        &&& self.temp_store.extent() == self.velocity_buffer.extent()
        &&& self.obstacle_store.extent() == self.dye_buffer.extent()
    }

    /// Whether the pipeline is valid on a context that gives out `next` next: its render
    /// targets are valid; velocity, pressure and the scratch target share one extent, dye
    /// and the obstacle mask another; no two targets share a handle; and the context has
    /// given out every handle in use.
    pub open spec fn wf(&self, next: u64) -> bool {
        self.spec_handles_ok(next) && self.spec_extents_ok()
    }

    /// The pipeline with another time of the last frame, and all else as it is.
    pub open spec fn spec_at(self, last_time: Single) -> Pipeline {
        Pipeline { last_time, ..self }
    }

    /// The calls that advance the fluid by one frame: vorticity confinement; the advection
    /// of the velocity along itself, damped by the viscosity; the pressure projection;
    /// and of the dye, the clearing of the obstacle's tint, the advection along the new
    /// velocity, damped by the dissipation, and the tinting of the obstacle.
    pub open spec fn spec_simulate(
        &self,
        sim_resolution: (u32, u32),
        delta_time: TimeStep,
        iterations: usize,
        viscosity: Single,
        dissipation: Single,
        curl: Single,
        pressure: Single,
    ) -> Seq<Command> {
        self.spec_vorticity_confinement(sim_resolution, curl) + Renderer::spec_advect(
            &self.advection_program,
            sim_resolution,
            delta_time,
            viscosity,
            None,
            &self.velocity_buffer.spec_swap(),
            &self.obstacle_store,
        ) + self.spec_project_velocity(
            sim_resolution,
            Renderer::spec_iterations(iterations),
            pressure,
        )
            + Renderer::spec_color_obstacle(
            &self.color_obstacle_program,
            &self.obstacle_store,
            &self.dye_buffer,
            &Color::spec_black(),
        ) + Renderer::spec_advect(
            &self.advection_program,
            sim_resolution,
            delta_time,
            dissipation,
            Some(&self.velocity_buffer.spec_swap()),
            &self.dye_buffer.spec_swap(),
            &self.obstacle_store,
        ) + Renderer::spec_color_obstacle(
            &self.color_obstacle_program,
            &self.obstacle_store,
            &self.dye_buffer,
            &self.obstacle_color,
        )
    }

    /// The pipeline after the fluid was advanced by one frame: the roles of the velocity's
    /// and of the dye's targets are exchanged, and the pressure is the solved one.
    pub open spec fn spec_simulated(self, iterations: usize) -> Pipeline {
        self.spec_with(
            self.velocity_buffer.spec_swap(),
            self.spec_solved(Renderer::spec_iterations(iterations)),
            self.dye_buffer.spec_swap(),
        )
    }

    /// The calls of one frame: unless the simulation is paused, those that advance the
    /// fluid, over the time step from the last frame's time to `time`; then the draw pass.
    pub open spec fn spec_update(
        &self,
        canvas: &Canvas,
        pause: bool,
        time: Single,
        mode: Mode,
        iterations: usize,
        viscosity: Single,
        dissipation: Single,
        curl: Single,
        pressure: Single,
    ) -> Seq<Command> {
        if pause {
            self.spec_draw_pass(mode)
        } else {
            self.spec_simulate(
                Renderer::spec_resolution_size(canvas, self.sim_resolution),
                TimeStep { now: time, last: self.last_time },
                iterations,
                viscosity,
                dissipation,
                curl,
                pressure,
            ) + self.spec_simulated(iterations).spec_draw_pass(mode)
        }
    }

    /// The calls that splat a force into the velocity: the splat program is told the
    /// squared radius and the position in the units of the simulation, and as its colour
    /// the velocity in those units; it samples the velocity on unit 0 and the obstacle mask
    /// on unit 1; and it draws into the velocity's other target.
    pub open spec fn spec_splat_force(
        &self,
        radius: Single,
        position: Seq<Single>,
        velocity: Seq<Single>,
    ) -> Seq<Command> {
        self.splat_program.spec_uniform1f(
            Uniform::ScaledRadius,
            Renderer::spec_scaled_square(radius, self.sim_resolution),
        ) + self.splat_program.spec_uniform2f(
            Uniform::Position,
            Renderer::spec_scaled(position[0], self.sim_resolution),
            Renderer::spec_scaled(position[1], self.sim_resolution),
        ) + self.splat_program.spec_uniform3f(
            Uniform::Color,
            Renderer::spec_scaled(velocity[0], self.sim_resolution),
            Renderer::spec_scaled(velocity[1], self.sim_resolution),
            Scalar::whole(0),
        ) + self.splat_program.spec_sampler(Uniform::Texture, self.velocity_buffer.read, 0)
            + self.splat_program.spec_sampler(Uniform::Obstacles, self.obstacle_store, 1)
            + Renderer::spec_blit(Some(&self.velocity_buffer.write), None)
    }

    /// The calls that splat a colour into the dye: the splat program is told the squared
    /// radius and the position in the units of the dye, and the colour as it is; it
    /// samples the dye on unit 0; and it draws into the dye's other target.
    pub open spec fn spec_splat_color(
        &self,
        radius: Single,
        position: Seq<Single>,
        color: Seq<Single>,
    ) -> Seq<Command> {
        self.splat_program.spec_uniform1f(
            Uniform::ScaledRadius,
            Renderer::spec_scaled_square(radius, self.dye_resolution),
        ) + self.splat_program.spec_uniform2f(
            Uniform::Position,
            Renderer::spec_scaled(position[0], self.dye_resolution),
            Renderer::spec_scaled(position[1], self.dye_resolution),
        ) + self.splat_program.spec_uniform3f(
            Uniform::Color,
            Scalar::of(color[0]),
            Scalar::of(color[1]),
            Scalar::of(color[2]),
        ) + self.splat_program.spec_sampler(Uniform::Texture, self.dye_buffer.read, 0)
            + Renderer::spec_blit(Some(&self.dye_buffer.write), None)
    }

    /// The calls of a splat: with the splat program current, the force goes into the
    /// velocity and the colour into the dye.
    pub open spec fn spec_splat(
        &self,
        radius: Single,
        position: Seq<Single>,
        velocity: Seq<Single>,
        color: Seq<Single>,
    ) -> Seq<Command> {
        self.splat_program.spec_bind() + self.spec_splat_force(radius, position, velocity)
            + self.spec_splat_color(radius, position, color)
    }

    /// The threshold that the obstacle pass compares squared distances with: the squared
    /// radius in the units of the dye, or, where there is no obstacle, -10, which no
    /// squared distance is below.
    pub open spec fn spec_threshold(&self, radius: Option<Single>) -> Scalar {
        match radius {
            Some(r) => Renderer::spec_scaled_square(r, self.dye_resolution),
            None => Scalar::whole(-10),
        }
    }

    /// The calls that write the obstacle mask: the obstacle program is told the shape, the
    /// threshold and the position in the units of the dye, samples nothing, and draws
    /// into all of the mask.
    pub open spec fn spec_obstacle_mask(
        &self,
        radius: Option<Single>,
        position: Seq<Single>,
        is_circle: bool,
    ) -> Seq<Command> {
        self.obstacle_program.spec_bind() + self.obstacle_program.spec_uniform1i(
            Uniform::IsCircle,
            if is_circle {
                1i32
            } else {
                0i32
            },
        ) + self.obstacle_program.spec_uniform1f(
            Uniform::ScaledRadiusSqr,
            self.spec_threshold(radius),
        ) + self.obstacle_program.spec_uniform2f(
            Uniform::Position,
            Renderer::spec_scaled(position[0], self.dye_resolution),
            Renderer::spec_scaled(position[1], self.dye_resolution),
        ) + Renderer::spec_blit(Some(&self.obstacle_store), None)
    }

    /// The calls that set an obstacle: the tint of the previous obstacle is cleared from
    /// the dye, then the mask is written anew.
    pub open spec fn spec_set_obstacle(
        &self,
        radius: Option<Single>,
        position: Seq<Single>,
        is_circle: bool,
    ) -> Seq<Command> {
        Renderer::spec_color_obstacle(
            &self.color_obstacle_program,
            &self.obstacle_store,
            &self.dye_buffer,
            &Color::spec_black(),
        ) + self.spec_obstacle_mask(radius, position, is_circle)
    }

    /// The pipeline after an obstacle of the given tint was set: the roles of the dye's
    /// targets are exchanged, and the tint is kept for the frames to come.
    pub open spec fn spec_obstructed(self, color: Color) -> Pipeline {
        Pipeline { dye_buffer: self.dye_buffer.spec_swap(), obstacle_color: color, ..self }
    }

    /// The handles that a resize takes: four for each pair and two for each scratch target
    /// that gets a new extent.
    pub open spec fn spec_resize_handles(&self, sim: (u32, u32), dye: (u32, u32)) -> nat {
        self.velocity_buffer.spec_resize_handles(sim.0, sim.1)
            + self.pressure_buffer.spec_resize_handles(sim.0, sim.1)
            + self.temp_store.spec_replace_handles(sim.0, sim.1)
            + self.dye_buffer.spec_resize_handles(dye.0, dye.1)
            + self.obstacle_store.spec_replace_handles(dye.0, dye.1)
    }

    /// Whether each extent that a target must newly get in a resize can be made.
    pub open spec fn spec_allocatable(&self, sim: (u32, u32), dye: (u32, u32)) -> bool {
        &&& self.velocity_buffer.spec_resize_handles(sim.0, sim.1)
            + self.pressure_buffer.spec_resize_handles(sim.0, sim.1)
            + self.temp_store.spec_replace_handles(sim.0, sim.1) > 0
            ==> TextureFramebuffer::allocatable(sim.0, sim.1)
        &&& self.dye_buffer.spec_resize_handles(dye.0, dye.1)
            + self.obstacle_store.spec_replace_handles(dye.0, dye.1) > 0
            ==> TextureFramebuffer::allocatable(dye.0, dye.1)
    }

    /// Whether a resize can be done on a context: each extent that a target must newly
    /// get can be made, and the context has the handles that the resize takes.
    pub open spec fn spec_resizable(&self, gl: Context, sim: (u32, u32), dye: (u32, u32)) -> bool {
        self.spec_allocatable(sim, dye) && gl.has_handles(self.spec_resize_handles(sim, dye))
    }

    /// The pipeline with the fields that a resize gives it, before the obstacle is set
    /// anew: each pair and scratch target that has its extent stays, the others are new,
    /// under handles from `first` on in the order velocity, pressure, scratch, dye,
    /// obstacle mask.
    pub open spec fn spec_resized(
        self,
        first: u64,
        sim_resolution: Resolution,
        dye_resolution: Resolution,
        sim: (u32, u32),
        dye: (u32, u32),
    ) -> Pipeline {
        let second = first + self.velocity_buffer.spec_resize_handles(sim.0, sim.1);
        let third = second + self.pressure_buffer.spec_resize_handles(sim.0, sim.1);
        let fourth = third + self.temp_store.spec_replace_handles(sim.0, sim.1);
        let fifth = fourth + self.dye_buffer.spec_resize_handles(dye.0, dye.1);
        Pipeline {
            sim_resolution,
            dye_resolution,
            velocity_buffer: self.velocity_buffer.spec_resized(first, sim.0, sim.1),
            pressure_buffer: self.pressure_buffer.spec_resized(second as u64, sim.0, sim.1),
            temp_store: self.temp_store.spec_replaced(third as u64, sim.0, sim.1),
            dye_buffer: self.dye_buffer.spec_resized(fourth as u64, dye.0, dye.1),
            obstacle_store: self.obstacle_store.spec_replaced(fifth as u64, dye.0, dye.1),
            ..self
        }
    }

    /// The calls that give the fields their extents in a resize: velocity, pressure and
    /// dye are resized, each with the copy program, so that what they hold is carried
    /// over; the scratch target and the obstacle mask are replaced where their extent
    /// changes.
    pub open spec fn spec_resize_targets(
        &self,
        first: u64,
        sim: (u32, u32),
        dye: (u32, u32),
    ) -> Seq<Command> {
        let second = first + self.velocity_buffer.spec_resize_handles(sim.0, sim.1);
        let third = second + self.pressure_buffer.spec_resize_handles(sim.0, sim.1);
        let fourth = third + self.temp_store.spec_replace_handles(sim.0, sim.1);
        let fifth = fourth + self.dye_buffer.spec_resize_handles(dye.0, dye.1);
        self.velocity_buffer.spec_resize_to(
            first,
            Some(&self.copy_program),
            sim.0,
            sim.1,
            TexelFormat::Rgba16f,
        ) + self.pressure_buffer.spec_resize_to(
            second as u64,
            Some(&self.copy_program),
            sim.0,
            sim.1,
            TexelFormat::Rgba16f,
        ) + self.temp_store.spec_replace(
            third as u64,
            sim.0,
            sim.1,
            Filter::Linear,
            TexelFormat::Rgba16f,
        ) + self.dye_buffer.spec_resize_to(
            fourth as u64,
            Some(&self.copy_program),
            dye.0,
            dye.1,
            TexelFormat::Rgba16f,
        ) + self.obstacle_store.spec_replace(
            fifth as u64,
            dye.0,
            dye.1,
            Filter::Nearest,
            TexelFormat::Rgba16f,
        )
    }

    /// The calls of a resize: the fields are given their extents; and where the obstacle
    /// mask was replaced, the obstacle is set anew as none.
    pub open spec fn spec_resize(
        &self,
        first: u64,
        sim_resolution: Resolution,
        dye_resolution: Resolution,
        sim: (u32, u32),
        dye: (u32, u32),
    ) -> Seq<Command> {
        self.spec_resize_targets(first, sim, dye) + (if self.obstacle_store.extent() == dye {
            Seq::<Command>::empty()
        } else {
            self.spec_resized(first, sim_resolution, dye_resolution, sim, dye).spec_set_obstacle(
                None,
                Renderer::spec_origin(),
                true,
            )
        })
    }

    /// A valid pipeline stays valid in its handles when its velocity is resized.
    pub proof fn lemma_velocity_resized(self, next: u64, width: u32, height: u32)
        requires
            self.spec_handles_ok(next),
            self.velocity_buffer.spec_keeps(width, height) || (TextureFramebuffer::allocatable(
                width,
                height,
            ) && next + 4 <= u64::MAX),
        ensures
            (Pipeline {
                velocity_buffer: self.velocity_buffer.spec_resized(next, width, height),
                ..self
            }).spec_handles_ok(
                (next + self.velocity_buffer.spec_resize_handles(width, height)) as u64,
            ),
    {
    }

    /// A valid pipeline stays valid in its handles when its pressure is resized.
    pub proof fn lemma_pressure_resized(self, next: u64, width: u32, height: u32)
        requires
            self.spec_handles_ok(next),
            self.pressure_buffer.spec_keeps(width, height) || (TextureFramebuffer::allocatable(
                width,
                height,
            ) && next + 4 <= u64::MAX),
        ensures
            (Pipeline {
                pressure_buffer: self.pressure_buffer.spec_resized(next, width, height),
                ..self
            }).spec_handles_ok(
                (next + self.pressure_buffer.spec_resize_handles(width, height)) as u64,
            ),
    {
    }

    /// A valid pipeline stays valid in its handles when its dye is resized.
    pub proof fn lemma_dye_resized(self, next: u64, width: u32, height: u32)
        requires
            self.spec_handles_ok(next),
            self.dye_buffer.spec_keeps(width, height) || (TextureFramebuffer::allocatable(
                width,
                height,
            ) && next + 4 <= u64::MAX),
        ensures
            (Pipeline {
                dye_buffer: self.dye_buffer.spec_resized(next, width, height),
                ..self
            }).spec_handles_ok((next + self.dye_buffer.spec_resize_handles(width, height)) as u64),
    {
    }

    /// A valid pipeline stays valid in its handles when its scratch target is replaced.
    pub proof fn lemma_temp_replaced(self, next: u64, width: u32, height: u32)
        requires
            self.spec_handles_ok(next),
            self.temp_store.extent() == (width, height) || (TextureFramebuffer::allocatable(
                width,
                height,
            ) && next + 2 <= u64::MAX),
        ensures
            (Pipeline {
                temp_store: self.temp_store.spec_replaced(next, width, height),
                ..self
            }).spec_handles_ok((next + self.temp_store.spec_replace_handles(width, height)) as u64),
    {
    }

    /// A valid pipeline stays valid in its handles when its obstacle mask is replaced.
    pub proof fn lemma_obstacle_replaced(self, next: u64, width: u32, height: u32)
        requires
            self.spec_handles_ok(next),
            self.obstacle_store.extent() == (width, height) || (TextureFramebuffer::allocatable(
                width,
                height,
            ) && next + 2 <= u64::MAX),
        ensures
            (Pipeline {
                obstacle_store: self.obstacle_store.spec_replaced(next, width, height),
                ..self
            }).spec_handles_ok(
                (next + self.obstacle_store.spec_replace_handles(width, height)) as u64,
            ),
    {
    }

    /// A resize that can be done keeps a valid pipeline valid, on a context that has given
    /// out the handles that the resize takes.
    pub proof fn lemma_resized_wf(
        self,
        next: u64,
        sim_resolution: Resolution,
        dye_resolution: Resolution,
        sim: (u32, u32),
        dye: (u32, u32),
    )
        requires
            self.wf(next),
            self.spec_allocatable(sim, dye),
            next + self.spec_resize_handles(sim, dye) <= u64::MAX,
        ensures
            self.spec_resized(next, sim_resolution, dye_resolution, sim, dye).wf(
                (next + self.spec_resize_handles(sim, dye)) as u64,
            ),
            self.spec_resized(next, sim_resolution, dye_resolution, sim, dye).spec_obstructed(
                Color::spec_black(),
            ).wf((next + self.spec_resize_handles(sim, dye)) as u64),
    {
        let second = (next + self.velocity_buffer.spec_resize_handles(sim.0, sim.1)) as u64;
        let third = (second + self.pressure_buffer.spec_resize_handles(sim.0, sim.1)) as u64;
        let fourth = (third + self.temp_store.spec_replace_handles(sim.0, sim.1)) as u64;
        let fifth = (fourth + self.dye_buffer.spec_resize_handles(dye.0, dye.1)) as u64;
        let first_step = Pipeline {
            velocity_buffer: self.velocity_buffer.spec_resized(next, sim.0, sim.1),
            ..self
        };
        let second_step = Pipeline {
            pressure_buffer: self.pressure_buffer.spec_resized(second, sim.0, sim.1),
            ..first_step
        };
        let third_step = Pipeline {
            temp_store: self.temp_store.spec_replaced(third, sim.0, sim.1),
            ..second_step
        };
        let fourth_step = Pipeline {
            dye_buffer: self.dye_buffer.spec_resized(fourth, dye.0, dye.1),
            ..third_step
        };
        self.lemma_velocity_resized(next, sim.0, sim.1);
        first_step.lemma_pressure_resized(second, sim.0, sim.1);
        second_step.lemma_temp_replaced(third, sim.0, sim.1);
        third_step.lemma_dye_resized(fourth, dye.0, dye.1);
        fourth_step.lemma_obstacle_replaced(fifth, dye.0, dye.1);
    }
}

impl Renderer {
    /// Whether the simulator is valid: its pipeline is valid on its context.
    pub open spec fn wf(&self) -> bool {
        self.pipeline.wf(self.gl.next_handle)
    }

    /// The number of Jacobi iterations that a frame runs when `iterations` are asked for:
    /// as many, but never fewer than [`MIN_PRESSURE_ITERATIONS`].
    pub open spec fn spec_iterations(iterations: usize) -> usize {
        if iterations < MIN_PRESSURE_ITERATIONS {
            MIN_PRESSURE_ITERATIONS
        } else {
            iterations
        }
    }

    /// Records the passes that advance the fluid by one frame.
    fn simulate(
        &mut self,
        sim_resolution: (u32, u32),
        delta_time: TimeStep,
        iterations: usize,
        viscosity: Single,
        dissipation: Single,
        curl: Single,
        pressure: Single,
    ) -> (result: Result<(), Error>)
        ensures
            result.is_ok(),
            final(self).gl.extends(
                old(self).gl,
                old(self).pipeline.spec_simulate(
                    sim_resolution,
                    delta_time,
                    iterations,
                    viscosity,
                    dissipation,
                    curl,
                    pressure,
                ),
                0,
            ),
            final(self).pipeline == old(self).pipeline.spec_simulated(iterations),
    {
        let ghost before = self.pipeline;
        let ghost start = self.gl;

        // UPDATE VELOCITY
        self.vorticity_confinement(sim_resolution, curl)?;
        let ghost confined = self.gl;

        Renderer::advect(
            &mut self.gl,
            &self.pipeline.advection_program,
            sim_resolution,
            delta_time,
            viscosity,
            None,
            &mut self.pipeline.velocity_buffer,
            &self.pipeline.obstacle_store,
        )?;
        let ghost advected = self.gl;
        assert(self.pipeline == before);

        self.project_velocity(
            sim_resolution,
            if iterations < MIN_PRESSURE_ITERATIONS {
                MIN_PRESSURE_ITERATIONS
            } else {
                iterations
            },
            pressure,
        )?;
        let ghost projected = self.gl;

        // UPDATE DYE
        let black = Color::black();
        Renderer::color_obstacle(
            &mut self.gl,
            &self.pipeline.color_obstacle_program,
            &self.pipeline.obstacle_store,
            &mut self.pipeline.dye_buffer,
            &black,
        )?;
        let ghost cleared = self.gl;

        Renderer::advect(
            &mut self.gl,
            &self.pipeline.advection_program,
            sim_resolution,
            delta_time,
            dissipation,
            Some(&self.pipeline.velocity_buffer),
            &mut self.pipeline.dye_buffer,
            &self.pipeline.obstacle_store,
        )?;
        let ghost carried = self.gl;

        Renderer::color_obstacle(
            &mut self.gl,
            &self.pipeline.color_obstacle_program,
            &self.pipeline.obstacle_store,
            &mut self.pipeline.dye_buffer,
            &self.pipeline.obstacle_color,
        )?;

        proof {
            let confining = before.spec_vorticity_confinement(sim_resolution, curl);
            let advecting = Self::spec_advect(
                &before.advection_program,
                sim_resolution,
                delta_time,
                viscosity,
                None,
                &before.velocity_buffer.spec_swap(),
                &before.obstacle_store,
            );
            let projecting = before.spec_project_velocity(
                sim_resolution,
                Self::spec_iterations(iterations),
                pressure,
            );
            let clearing = Self::spec_color_obstacle(
                &before.color_obstacle_program,
                &before.obstacle_store,
                &before.dye_buffer,
                &Color::spec_black(),
            );
            let carrying = Self::spec_advect(
                &before.advection_program,
                sim_resolution,
                delta_time,
                dissipation,
                Some(&before.velocity_buffer.spec_swap()),
                &before.dye_buffer.spec_swap(),
                &before.obstacle_store,
            );
            let tinting = Self::spec_color_obstacle(
                &before.color_obstacle_program,
                &before.obstacle_store,
                &before.dye_buffer,
                &before.obstacle_color,
            );
            lemma_extends_twice(start, confined, advected, confining, advecting, 0, 0);
            lemma_extends_twice(
                start,
                advected,
                projected,
                confining + advecting,
                projecting,
                0,
                0,
            );
            lemma_extends_twice(
                start,
                projected,
                cleared,
                confining + advecting + projecting,
                clearing,
                0,
                0,
            );
            lemma_extends_twice(
                start,
                cleared,
                carried,
                confining + advecting + projecting + clearing,
                carrying,
                0,
                0,
            );
            lemma_extends_twice(
                start,
                carried,
                self.gl,
                confining + advecting + projecting + clearing + carrying,
                tinting,
                0,
                0,
            );
        }
        Ok(())
    }

    /// Records one frame.
    ///
    /// `time` becomes the time of the last frame, paused or not. Unless paused, the
    /// fluid is advanced over the time step from the previous frame's time to `time`, at
    /// the extent that the canvas gives the simulation now, with a pressure solve of
    /// `iterations` Jacobi iterations but never fewer than
    /// [`MIN_PRESSURE_ITERATIONS`]. Then the field of `mode` is drawn onto the canvas.
    pub fn update(
        &mut self,
        canvas: &Canvas,
        pause: bool,
        time: Single,
        mode: Mode,
        iterations: usize,
        viscosity: Single,
        dissipation: Single,
        curl: Single,
        pressure: Single,
    ) -> (result: Result<(), Error>)
        ensures
            result.is_ok(),
            final(self).gl.extends(
                old(self).gl,
                old(self).pipeline.spec_update(
                    canvas,
                    pause,
                    time,
                    mode,
                    iterations,
                    viscosity,
                    dissipation,
                    curl,
                    pressure,
                ),
                0,
            ),
            pause ==> final(self).pipeline == old(self).pipeline.spec_at(time),
            !pause ==> final(self).pipeline == old(self).pipeline.spec_simulated(
                iterations,
            ).spec_at(time),
            old(self).wf() ==> final(self).wf(),
    {
        let delta_time = TimeStep { now: time, last: self.pipeline.last_time };

        let sim_resolution = Renderer::resolution_size(canvas, self.pipeline.sim_resolution);

        // SIMULATION
        if !pause {
            self.simulate(
                sim_resolution,
                delta_time,
                iterations,
                viscosity,
                dissipation,
                curl,
                pressure,
            )?;
        }
        let ghost simulated = *self;

        // RENDER
        // DRAW TO CANVAS
        self.draw_pass(mode)?;
        proof {
            if !pause {
                lemma_extends_twice(
                    old(self).gl,
                    simulated.gl,
                    self.gl,
                    old(self).pipeline.spec_simulate(
                        sim_resolution,
                        delta_time,
                        iterations,
                        viscosity,
                        dissipation,
                        curl,
                        pressure,
                    ),
                    simulated.pipeline.spec_draw_pass(mode),
                    0,
                    0,
                );
            }
        }
        self.pipeline.last_time = time;

        Ok(())
    }

    /// A caller's length or speed in the units of a field at a resolution: `value / factor`.
    pub open spec fn spec_scaled(value: Single, resolution: Resolution) -> Scalar {
        Scalar::Quotient { value, divisor: resolution.spec_factor() }
    }

    /// The square of a caller's radius in the units of a field at a resolution:
    /// `radius * radius / (factor * factor)`.
    pub open spec fn spec_scaled_square(radius: Single, resolution: Resolution) -> Scalar {
        Scalar::SquareQuotient {
            value: radius,
            divisor: (resolution.spec_factor() * resolution.spec_factor()) as u32,
        }
    }

    fn scaled(value: Single, resolution: Resolution) -> (scalar: Scalar)
        ensures
            scalar == Self::spec_scaled(value, resolution),
    {
        Scalar::Quotient { value, divisor: resolution.factor() }
    }

    fn scaled_square(radius: Single, resolution: Resolution) -> (scalar: Scalar)
        ensures
            scalar == Self::spec_scaled_square(radius, resolution),
    {
        let factor = resolution.factor();
        Scalar::SquareQuotient { value: radius, divisor: factor * factor }
    }

    /// Records a splat: a blob of force and of colour around a position.
    ///
    /// `radius` and `position` are in canvas pixels. The first two numbers of `position`
    /// and of `velocity` and the first three of `color` count. The roles of the
    /// velocity's and of the dye's targets are exchanged.
    pub fn splat(
        &mut self,
        radius: Single,
        position: &[Single],
        velocity: &[Single],
        color: &[Single],
    ) -> (result: Result<(), Error>)
        requires
            position@.len() >= 2,
            velocity@.len() >= 2,
            color@.len() >= 3,
        ensures
            result.is_ok(),
            final(self).gl.extends(
                old(self).gl,
                old(self).pipeline.spec_splat(radius, position@, velocity@, color@),
                0,
            ),
            final(self).pipeline == old(self).pipeline.spec_with(
                old(self).pipeline.velocity_buffer.spec_swap(),
                old(self).pipeline.pressure_buffer,
                old(self).pipeline.dye_buffer.spec_swap(),
            ),
            old(self).wf() ==> final(self).wf(),
    {
        self.pipeline.splat_program.bind(&mut self.gl);
        let ghost bound = self.gl@;

        // APPLY FORCE
        self.pipeline.splat_program.uniform1f(
            &mut self.gl,
            Uniform::ScaledRadius,
            Self::scaled_square(radius, self.pipeline.sim_resolution),
        );
        self.pipeline.splat_program.uniform2f(
            &mut self.gl,
            Uniform::Position,
            Self::scaled(position[0], self.pipeline.sim_resolution),
            Self::scaled(position[1], self.pipeline.sim_resolution),
        );
        self.pipeline.splat_program.uniform3f(
            &mut self.gl,
            Uniform::Color,
            Self::scaled(velocity[0], self.pipeline.sim_resolution),
            Self::scaled(velocity[1], self.pipeline.sim_resolution),
            Scalar::integer(0),
        );
        self.pipeline.splat_program.sampler(
            &mut self.gl,
            Uniform::Texture,
            self.pipeline.velocity_buffer.read(),
            0,
        )?;
        self.pipeline.splat_program.sampler(
            &mut self.gl,
            Uniform::Obstacles,
            &self.pipeline.obstacle_store,
            1,
        )?;

        Renderer::blit(&mut self.gl, Some(self.pipeline.velocity_buffer.write()), None);
        assert(self.gl@ =~= bound + old(self).pipeline.spec_splat_force(
            radius,
            position@,
            velocity@,
        ));
        self.pipeline.velocity_buffer.swap();
        let ghost forced = self.gl@;

        // APPLY COLOR
        self.pipeline.splat_program.uniform1f(
            &mut self.gl,
            Uniform::ScaledRadius,
            Self::scaled_square(radius, self.pipeline.dye_resolution),
        );
        self.pipeline.splat_program.uniform2f(
            &mut self.gl,
            Uniform::Position,
            Self::scaled(position[0], self.pipeline.dye_resolution),
            Self::scaled(position[1], self.pipeline.dye_resolution),
        );
        self.pipeline.splat_program.uniform3f(
            &mut self.gl,
            Uniform::Color,
            Scalar::value(color[0]),
            Scalar::value(color[1]),
            Scalar::value(color[2]),
        );
        self.pipeline.splat_program.sampler(
            &mut self.gl,
            Uniform::Texture,
            self.pipeline.dye_buffer.read(),
            0,
        )?;

        Renderer::blit(&mut self.gl, Some(self.pipeline.dye_buffer.write()), None);
        assert(self.gl@ =~= forced + old(self).pipeline.spec_splat_color(
            radius,
            position@,
            color@,
        ));
        self.pipeline.dye_buffer.swap();

        assert(self.gl@ =~= old(self).gl@ + old(self).pipeline.spec_splat(
            radius,
            position@,
            velocity@,
            color@,
        ));
        Ok(())
    }

    /// Records the setting of the obstacle: a circle, or a square of half the side
    /// `radius`, around a position, or with no radius no obstacle at all.
    ///
    /// `radius` and `position` are in canvas pixels. The first two numbers of `position`
    /// and the first three of `color` count. The previous obstacle's tint is cleared from
    /// the dye, the mask is written anew as a whole, and `color` is kept as the tint that
    /// the coming frames give the obstacle.
    pub fn set_obstacle(
        &mut self,
        radius: Option<Single>,
        position: &[Single],
        color: &[Single],
        is_circle: bool,
    ) -> (result: Result<(), Error>)
        requires
            position@.len() >= 2,
            color@.len() >= 3,
        ensures
            result.is_ok(),
            final(self).gl.extends(
                old(self).gl,
                old(self).pipeline.spec_set_obstacle(radius, position@, is_circle),
                0,
            ),
            final(self).pipeline == old(self).pipeline.spec_obstructed(Color::spec_of(color@)),
            old(self).wf() ==> final(self).wf(),
    {
        let black = Color::black();
        Renderer::color_obstacle(
            &mut self.gl,
            &self.pipeline.color_obstacle_program,
            &self.pipeline.obstacle_store,
            &mut self.pipeline.dye_buffer,
            &black,
        )?;
        let ghost cleared = self.gl@;

        self.pipeline.obstacle_program.bind(&mut self.gl);

        // SET OBSTACLE
        self.pipeline.obstacle_program.uniform1i(
            &mut self.gl,
            Uniform::IsCircle,
            if is_circle {
                1
            } else {
                0
            },
        );
        self.pipeline.obstacle_program.uniform1f(
            &mut self.gl,
            Uniform::ScaledRadiusSqr,
            match radius {
                Some(r) => Self::scaled_square(r, self.pipeline.dye_resolution),
                None => Scalar::integer(-10),
            },
        );
        self.pipeline.obstacle_program.uniform2f(
            &mut self.gl,
            Uniform::Position,
            Self::scaled(position[0], self.pipeline.dye_resolution),
            Self::scaled(position[1], self.pipeline.dye_resolution),
        );

        Renderer::blit(&mut self.gl, Some(&self.pipeline.obstacle_store), None);
        assert(self.gl@ =~= cleared + old(self).pipeline.spec_obstacle_mask(
            radius,
            position@,
            is_circle,
        ));

        // SET COLOR
        self.pipeline.obstacle_color = Color { red: color[0], green: color[1], blue: color[2] };

        assert(self.gl@ =~= old(self).gl@ + old(self).pipeline.spec_set_obstacle(
            radius,
            position@,
            is_circle,
        ));
        Ok(())
    }

    /// The position that an obstacle is set at where there is none: the origin.
    pub open spec fn spec_origin() -> Seq<Single> {
        seq![Single { bits: 0 }, Single { bits: 0 }]
    }

    /// Records a resize to the extents that the canvas gives the two resolutions.
    ///
    /// The resize is done as a whole or not at all. It is done exactly when each extent
    /// that a target must newly get can be made and the context has the handles for it.
    /// Then the resolutions are the given ones; velocity, pressure and dye keep what they
    /// hold; the scratch target and the obstacle mask start from zero where their extent
    /// changes; and with a new mask there is no obstacle and the tint is black.
    pub fn resize(
        &mut self,
        canvas: &Canvas,
        sim_resolution: Resolution,
        dye_resolution: Resolution,
    ) -> (result: Result<(), Error>)
        ensures
            result.is_ok() <==> old(self).pipeline.spec_resizable(
                old(self).gl,
                Self::spec_resolution_size(canvas, sim_resolution),
                Self::spec_resolution_size(canvas, dye_resolution),
            ),
            result.is_ok() ==> {
                let sim = Self::spec_resolution_size(canvas, sim_resolution);
                let dye = Self::spec_resolution_size(canvas, dye_resolution);
                let resized = old(self).pipeline.spec_resized(
                    old(self).gl.next_handle,
                    sim_resolution,
                    dye_resolution,
                    sim,
                    dye,
                );
                &&& final(self).gl.extends(
                    old(self).gl,
                    old(self).pipeline.spec_resize(
                        old(self).gl.next_handle,
                        sim_resolution,
                        dye_resolution,
                        sim,
                        dye,
                    ),
                    old(self).pipeline.spec_resize_handles(sim, dye),
                )
                &&& final(self).pipeline == if old(self).pipeline.obstacle_store.extent() == dye {
                    resized
                } else {
                    resized.spec_obstructed(Color::spec_black())
                }
            },
            result matches Err(error) ==> error == Error::GpuResource && *final(self) == *old(
                self,
            ),
            old(self).wf() && result.is_ok() ==> final(self).wf(),
    {
        // SIMULATION
        let (width, height) = Renderer::resolution_size(canvas, sim_resolution);
        // DYE
        let (dye_width, dye_height) = Renderer::resolution_size(canvas, dye_resolution);

        let handles = match self.resize_handles(width, height, dye_width, dye_height) {
            Some(handles) => handles,
            None => {
                return Err(Error::GpuResource);
            },
        };
        if handles > u64::MAX - self.gl.next_handle {
            return Err(Error::GpuResource);
        }
        self.pipeline.sim_resolution = sim_resolution;
        self.pipeline.dye_resolution = dye_resolution;

        let reset = dye_width != self.pipeline.obstacle_store.width() || dye_height
            != self.pipeline.obstacle_store.height();
        self.resize_targets(width, height, dye_width, dye_height);
        let ghost resized = *self;

        if reset {
            let origin = [Single::zero(), Single::zero()];
            let black = [Single::zero(), Single::zero(), Single::zero()];
            assert(origin@ =~= Self::spec_origin());
            self.set_obstacle(None, &origin, &black, true)?;
            proof {
                lemma_extends_twice(
                    old(self).gl,
                    resized.gl,
                    self.gl,
                    old(self).pipeline.spec_resize_targets(
                        old(self).gl.next_handle,
                        (width, height),
                        (dye_width, dye_height),
                    ),
                    resized.pipeline.spec_set_obstacle(None, Self::spec_origin(), true),
                    old(self).pipeline.spec_resize_handles(
                        (width, height),
                        (dye_width, dye_height),
                    ),
                    0,
                );
            }
        } else {
            assert(self.gl@ =~= old(self).gl@ + old(self).pipeline.spec_resize(
                old(self).gl.next_handle,
                sim_resolution,
                dye_resolution,
                (width, height),
                (dye_width, dye_height),
            ));
        }

        Ok(())
    }

    /// Counts the handles that a resize to the two extents takes, where each extent that a
    /// target must newly get can be made.
    fn resize_handles(&self, width: u32, height: u32, dye_width: u32, dye_height: u32) -> (handles:
        Option<u64>)
        ensures
            handles.is_some() <==> self.pipeline.spec_allocatable(
                (width, height),
                (dye_width, dye_height),
            ),
            handles matches Some(count) ==> count == self.pipeline.spec_resize_handles(
                (width, height),
                (dye_width, dye_height),
            ),
    {
        let mut sim_handles: u64 = 0;
        if width != self.pipeline.velocity_buffer.read().width() || height
            != self.pipeline.velocity_buffer.read().height() {
            sim_handles += 4;
        }
        if width != self.pipeline.pressure_buffer.read().width() || height
            != self.pipeline.pressure_buffer.read().height() {
            sim_handles += 4;
        }
        if width != self.pipeline.temp_store.width() || height
            != self.pipeline.temp_store.height() {
            sim_handles += 2;
        }
        let mut dye_handles: u64 = 0;
        if dye_width != self.pipeline.dye_buffer.read().width() || dye_height
            != self.pipeline.dye_buffer.read().height() {
            dye_handles += 4;
        }
        if dye_width != self.pipeline.obstacle_store.width() || dye_height
            != self.pipeline.obstacle_store.height() {
            dye_handles += 2;
        }
        if sim_handles > 0 && !TextureFramebuffer::can_allocate(width, height) {
            return None;
        }
        if dye_handles > 0 && !TextureFramebuffer::can_allocate(dye_width, dye_height) {
            return None;
        }
        Some(sim_handles + dye_handles)
    }

    /// Gives the fields, the scratch target and the obstacle mask their extents, where
    /// that can be done.
    fn resize_targets(&mut self, width: u32, height: u32, dye_width: u32, dye_height: u32)
        requires
            old(self).pipeline.spec_allocatable((width, height), (dye_width, dye_height)),
            old(self).gl.has_handles(
                old(self).pipeline.spec_resize_handles((width, height), (dye_width, dye_height)),
            ),
        ensures
            final(self).gl.extends(
                old(self).gl,
                old(self).pipeline.spec_resize_targets(
                    old(self).gl.next_handle,
                    (width, height),
                    (dye_width, dye_height),
                ),
                old(self).pipeline.spec_resize_handles((width, height), (dye_width, dye_height)),
            ),
            final(self).pipeline == old(self).pipeline.spec_resized(
                old(self).gl.next_handle,
                old(self).pipeline.sim_resolution,
                old(self).pipeline.dye_resolution,
                (width, height),
                (dye_width, dye_height),
            ),
            old(self).wf() ==> final(self).wf(),
    {
        let ghost start = self.gl;
        let ghost next = start.next_handle;
        let ghost before = self.pipeline;
        let result = self.pipeline.velocity_buffer.resize(
            &mut self.gl,
            Some(&self.pipeline.copy_program),
            width,
            height,
            TexelFormat::Rgba16f,
        );
        assert(result.is_ok());
        let ghost first = self.gl;
        proof {
            if old(self).wf() {
                before.lemma_velocity_resized(next, width, height);
            }
        }

        let ghost before = self.pipeline;
        let result = self.pipeline.pressure_buffer.resize(
            &mut self.gl,
            Some(&self.pipeline.copy_program),
            width,
            height,
            TexelFormat::Rgba16f,
        );
        assert(result.is_ok());
        let ghost second = self.gl;
        proof {
            if old(self).wf() {
                before.lemma_pressure_resized(first.next_handle, width, height);
            }
        }

        let ghost before = self.pipeline;
        let result = self.pipeline.temp_store.replace(
            &mut self.gl,
            width,
            height,
            Filter::Linear,
            TexelFormat::Rgba16f,
        );
        assert(result.is_ok());
        let ghost third = self.gl;
        proof {
            if old(self).wf() {
                before.lemma_temp_replaced(second.next_handle, width, height);
            }
        }

        let ghost before = self.pipeline;
        let result = self.pipeline.dye_buffer.resize(
            &mut self.gl,
            Some(&self.pipeline.copy_program),
            dye_width,
            dye_height,
            TexelFormat::Rgba16f,
        );
        assert(result.is_ok());
        let ghost fourth = self.gl;
        proof {
            if old(self).wf() {
                before.lemma_dye_resized(third.next_handle, dye_width, dye_height);
            }
        }

        let ghost before = self.pipeline;
        let result = self.pipeline.obstacle_store.replace(
            &mut self.gl,
            dye_width,
            dye_height,
            Filter::Nearest,
            TexelFormat::Rgba16f,
        );
        assert(result.is_ok());
        proof {
            if old(self).wf() {
                before.lemma_obstacle_replaced(fourth.next_handle, dye_width, dye_height);
            }
        }

        let ghost velocity_calls = old(self).pipeline.velocity_buffer.spec_resize_to(
            start.next_handle,
            Some(&self.pipeline.copy_program),
            width,
            height,
            TexelFormat::Rgba16f,
        );
        let ghost pressure_calls = old(self).pipeline.pressure_buffer.spec_resize_to(
            first.next_handle,
            Some(&self.pipeline.copy_program),
            width,
            height,
            TexelFormat::Rgba16f,
        );
        let ghost temp_calls = old(self).pipeline.temp_store.spec_replace(
            second.next_handle,
            width,
            height,
            Filter::Linear,
            TexelFormat::Rgba16f,
        );
        let ghost dye_calls = old(self).pipeline.dye_buffer.spec_resize_to(
            third.next_handle,
            Some(&self.pipeline.copy_program),
            dye_width,
            dye_height,
            TexelFormat::Rgba16f,
        );
        let ghost obstacle_calls = old(self).pipeline.obstacle_store.spec_replace(
            fourth.next_handle,
            dye_width,
            dye_height,
            Filter::Nearest,
            TexelFormat::Rgba16f,
        );
        let ghost velocity_handles = old(self).pipeline.velocity_buffer.spec_resize_handles(
            width,
            height,
        );
        let ghost pressure_handles = old(self).pipeline.pressure_buffer.spec_resize_handles(
            width,
            height,
        );
        let ghost temp_handles = old(self).pipeline.temp_store.spec_replace_handles(width, height);
        let ghost dye_handles = old(self).pipeline.dye_buffer.spec_resize_handles(
            dye_width,
            dye_height,
        );
        let ghost obstacle_handles = old(self).pipeline.obstacle_store.spec_replace_handles(
            dye_width,
            dye_height,
        );
        proof {
            lemma_extends_twice(
                start,
                first,
                second,
                velocity_calls,
                pressure_calls,
                velocity_handles,
                pressure_handles,
            );
            lemma_extends_twice(
                start,
                second,
                third,
                velocity_calls + pressure_calls,
                temp_calls,
                velocity_handles + pressure_handles,
                temp_handles,
            );
            lemma_extends_twice(
                start,
                third,
                fourth,
                velocity_calls + pressure_calls + temp_calls,
                dye_calls,
                velocity_handles + pressure_handles + temp_handles,
                dye_handles,
            );
            lemma_extends_twice(
                start,
                fourth,
                self.gl,
                velocity_calls + pressure_calls + temp_calls + dye_calls,
                obstacle_calls,
                velocity_handles + pressure_handles + temp_handles + dye_handles,
                obstacle_handles,
            );
        }
    }
}

} // verus!
