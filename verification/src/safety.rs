//! That a GPU context accepts what the simulation core records, and what state that
//! leaves the context in.

use vstd::prelude::*;
use crate::context::{
    Color, Command, Filter, Scalar, Single, TexParameter, TexelFormat, TimeStep,
};
use crate::shader_program::ShaderProgram;
use crate::shaders::Uniform;
use crate::state::{lemma_accepts_add, lemma_accepts_one, Pointer, State};
use crate::textures::{RWTextureBuffer, TextureFramebuffer, TEXTURE_UNITS};
use crate::{Canvas, Mode, Pipeline, Programs, Renderer, Resolution};

verus! {

/// The state after a program was made current: no unit has been read by a pass of it.
pub open spec fn spec_current(state: State, program: ShaderProgram) -> State {
    State { program: Some(program.program), read: Set::empty(), ..state }
}

/// Making a program current is always accepted, and changes the current program only.
pub proof fn lemma_bind_runs(state: State, program: ShaderProgram)
    ensures
        state.spec_accepts(program.spec_bind()),
        state.spec_after(program.spec_bind()) == spec_current(state, program),
{
    lemma_accepts_one(state, Command::UseProgram { program: program.program });
}

/// Setting a uniform is accepted exactly when a program is current and the numbers that
/// it is set to have values, and changes nothing of the state.
pub proof fn lemma_uniform_runs(
    state: State,
    program: ShaderProgram,
    uniform: Uniform,
    x: Scalar,
    y: Scalar,
    z: Scalar,
    value: i32,
)
    ensures
        state.spec_accepts(program.spec_uniform1i(uniform, value)) == state.program.is_some(),
        state.spec_accepts(program.spec_uniform1f(uniform, x)) == (state.program.is_some()
            && x.spec_defined()),
        state.spec_accepts(program.spec_uniform2f(uniform, x, y)) == (state.program.is_some()
            && x.spec_defined() && y.spec_defined()),
        state.spec_accepts(program.spec_uniform3f(uniform, x, y, z)) == (state.program.is_some()
            && x.spec_defined() && y.spec_defined() && z.spec_defined()),
        state.spec_after(program.spec_uniform1i(uniform, value)) == state,
        state.spec_after(program.spec_uniform1f(uniform, x)) == state,
        state.spec_after(program.spec_uniform2f(uniform, x, y)) == state,
        state.spec_after(program.spec_uniform3f(uniform, x, y, z)) == state,
{
    let location = program.spec_location(uniform);
    lemma_accepts_one(state, Command::Uniform1i { location, value });
    lemma_accepts_one(state, Command::Uniform1f { location, value: x });
    lemma_accepts_one(state, Command::Uniform2f { location, x, y });
    lemma_accepts_one(state, Command::Uniform3f { location, x, y, z });
}

/// The state after a texture was bound to a unit: the unit is active, holds the texture,
/// and is read by the pass of the current program.
pub open spec fn spec_bound(state: State, texture: TextureFramebuffer, unit: u32) -> State {
    State {
        active: unit,
        units: state.units.insert(unit, texture.texture),
        read: state.read.insert(unit),
        ..state
    }
}

/// Binding a texture to a unit is accepted exactly when the unit is below 32 and the
/// texture is live.
pub proof fn lemma_texture_bind_runs(state: State, texture: TextureFramebuffer, unit: u32)
    ensures
        state.spec_accepts(texture.spec_bind(unit)) == (unit < TEXTURE_UNITS
            && state.textures.contains_key(texture.texture)),
        state.spec_after(texture.spec_bind(unit)) == spec_bound(state, texture, unit),
{
    let activate = Command::ActiveTexture { unit };
    let bind = Command::BindTexture { texture: texture.texture };
    lemma_accepts_one(state, activate);
    lemma_accepts_one(state.spec_after_one(activate), bind);
    lemma_accepts_add(state, seq![activate], seq![bind]);
    assert(texture.spec_bind(unit) =~= seq![activate] + seq![bind]);
}

/// Letting a sampler read a texture through a unit is accepted exactly when the unit is
/// below 32, the texture is live, and a program is current. It leaves the texture bound to
/// the unit.
pub proof fn lemma_sampler_runs(
    state: State,
    program: ShaderProgram,
    uniform: Uniform,
    texture: TextureFramebuffer,
    unit: u32,
)
    ensures
        state.spec_accepts(program.spec_sampler(uniform, texture, unit)) == (unit < TEXTURE_UNITS
            && state.textures.contains_key(texture.texture) && state.program.is_some()),
        state.spec_after(program.spec_sampler(uniform, texture, unit)) == spec_bound(
            state,
            texture,
            unit,
        ),
{
    lemma_texture_bind_runs(state, texture, unit);
    lemma_uniform_runs(
        spec_bound(state, texture, unit),
        program,
        uniform,
        Scalar::whole(0),
        Scalar::whole(0),
        Scalar::whole(0),
        unit as i32,
    );
    lemma_accepts_add(state, texture.spec_bind(unit), program.spec_uniform1i(uniform, unit as i32));
}

/// The state after a full-screen pass into a target, or onto the canvas: the target is
/// bound, with the viewport on all of it.
pub open spec fn spec_aimed(state: State, target: Option<&TextureFramebuffer>) -> State {
    match target {
        Some(tfb) => State {
            viewport: Some((tfb.width, tfb.height)),
            target: Some(tfb.framebuffer),
            ..state
        },
        None => State { viewport: None, target: None, ..state },
    }
}

/// Whether a full-screen pass can be drawn into a target, or onto the canvas: a program is
/// current and the quad is set up; and a target is as it was made and not empty, on a
/// context that can render to it, and no unit that the pass reads holds its texture.
pub open spec fn spec_drawable(state: State, target: Option<&TextureFramebuffer>) -> bool {
    &&& state.program.is_some()
    &&& state.spec_quad_ready()
    &&& target matches Some(tfb) ==> {
        &&& state.color_buffer_float
        &&& state.spec_has(*tfb)
        &&& tfb.width > 0
        &&& tfb.height > 0
        &&& state.spec_reads_apart(tfb.texture)
    }
}

/// A full-screen pass binds its target with the viewport on all of it, and is accepted
/// where it can be drawn.
pub proof fn lemma_blit_runs(state: State, target: Option<&TextureFramebuffer>, clear: Option<bool>)
    ensures
        spec_drawable(state, target) ==> state.spec_accepts(Renderer::spec_blit(target, clear)),
        state.spec_after(Renderer::spec_blit(target, clear)) == spec_aimed(state, target),
{
    reveal_with_fuel(State::spec_accepts, 6);
    reveal_with_fuel(State::spec_after, 6);
}

/// The numbers that the passes scale by a resolution have values: no resolution has the
/// factor zero.
pub proof fn lemma_scaled_defined(value: Single, resolution: Resolution)
    ensures
        Renderer::spec_scaled(value, resolution).spec_defined(),
        Renderer::spec_scaled_square(value, resolution).spec_defined(),
        Renderer::spec_half_texel(resolution).spec_defined(),
        Renderer::spec_alpha(resolution).spec_defined(),
        Renderer::spec_r_beta().spec_defined(),
{
    match resolution {
        Resolution::ONE => {},
        Resolution::TWO => {},
        Resolution::FOUR => {},
        Resolution::EIGHT => {},
        Resolution::SIXTEEN => {},
    }
}

/// How the context takes the calls that a pass is made of, for every state, program,
/// uniform and texture.
pub proof fn lemma_parts_run()
    ensures
        forall|value: Single, resolution: Resolution| #[trigger]
            Renderer::spec_scaled(value, resolution).spec_defined(),
        forall|value: Single, resolution: Resolution| #[trigger]
            Renderer::spec_scaled_square(value, resolution).spec_defined(),
        forall|resolution: Resolution| #[trigger]
            Renderer::spec_half_texel(resolution).spec_defined(),
        forall|state: State, head: Seq<Command>, tail: Seq<Command>| #[trigger]
            state.spec_accepts(head + tail) == (state.spec_accepts(head) && state.spec_after(
                head,
            ).spec_accepts(tail)),
        forall|state: State, head: Seq<Command>, tail: Seq<Command>| #[trigger]
            state.spec_after(head + tail) == state.spec_after(head).spec_after(tail),
        forall|state: State, program: ShaderProgram| #[trigger]
            state.spec_accepts(program.spec_bind()),
        forall|state: State, program: ShaderProgram| #[trigger]
            state.spec_after(program.spec_bind()) == spec_current(state, program),
        forall|state: State, program: ShaderProgram, uniform: Uniform, value: i32| #[trigger]
            state.spec_accepts(program.spec_uniform1i(uniform, value)) == state.program.is_some(),
        forall|state: State, program: ShaderProgram, uniform: Uniform, value: i32| #[trigger]
            state.spec_after(program.spec_uniform1i(uniform, value)) == state,
        forall|state: State, program: ShaderProgram, uniform: Uniform, value: Scalar| #[trigger]
            state.spec_accepts(program.spec_uniform1f(uniform, value)) == (state.program.is_some()
                && value.spec_defined()),
        forall|state: State, program: ShaderProgram, uniform: Uniform, value: Scalar| #[trigger]
            state.spec_after(program.spec_uniform1f(uniform, value)) == state,
        forall|state: State, program: ShaderProgram, uniform: Uniform, x: Scalar, y: Scalar|
            #[trigger]
            state.spec_accepts(program.spec_uniform2f(uniform, x, y)) == (state.program.is_some()
                && x.spec_defined() && y.spec_defined()),
        forall|state: State, program: ShaderProgram, uniform: Uniform, x: Scalar, y: Scalar|
            #[trigger]
            state.spec_after(program.spec_uniform2f(uniform, x, y)) == state,
        forall|
            state: State,
            program: ShaderProgram,
            uniform: Uniform,
            x: Scalar,
            y: Scalar,
            z: Scalar,
        | #[trigger]
            state.spec_accepts(program.spec_uniform3f(uniform, x, y, z)) == (
            state.program.is_some() && x.spec_defined() && y.spec_defined() && z.spec_defined()),
        forall|
            state: State,
            program: ShaderProgram,
            uniform: Uniform,
            x: Scalar,
            y: Scalar,
            z: Scalar,
        | #[trigger]
            state.spec_after(program.spec_uniform3f(uniform, x, y, z)) == state,
        forall|
            state: State,
            program: ShaderProgram,
            uniform: Uniform,
            texture: TextureFramebuffer,
            unit: u32,
        | #[trigger]
            state.spec_accepts(program.spec_sampler(uniform, texture, unit)) == (unit
                < TEXTURE_UNITS && state.textures.contains_key(texture.texture)
                && state.program.is_some()),
        forall|
            state: State,
            program: ShaderProgram,
            uniform: Uniform,
            texture: TextureFramebuffer,
            unit: u32,
        | #[trigger]
            state.spec_after(program.spec_sampler(uniform, texture, unit)) == spec_bound(
                state,
                texture,
                unit,
            ),
        forall|state: State, target: Option<&TextureFramebuffer>, clear: Option<bool>|
            spec_drawable(state, target) ==> #[trigger] state.spec_accepts(
                Renderer::spec_blit(target, clear),
            ),
        forall|state: State, target: Option<&TextureFramebuffer>, clear: Option<bool>| #[trigger]
            state.spec_after(Renderer::spec_blit(target, clear)) == spec_aimed(state, target),
{
    assert forall|value: Single, resolution: Resolution| #[trigger]
        Renderer::spec_scaled(value, resolution).spec_defined() by {
        lemma_scaled_defined(value, resolution);
    }
    assert forall|value: Single, resolution: Resolution| #[trigger]
        Renderer::spec_scaled_square(value, resolution).spec_defined() by {
        lemma_scaled_defined(value, resolution);
    }
    assert forall|resolution: Resolution| #[trigger]
        Renderer::spec_half_texel(resolution).spec_defined() by {
        lemma_scaled_defined(Single { bits: 0 }, resolution);
    }
    assert forall|state: State, head: Seq<Command>, tail: Seq<Command>| #[trigger]
        state.spec_accepts(head + tail) == (state.spec_accepts(head) && state.spec_after(
            head,
        ).spec_accepts(tail)) by {
        lemma_accepts_add(state, head, tail);
    }
    assert forall|state: State, head: Seq<Command>, tail: Seq<Command>| #[trigger]
        state.spec_after(head + tail) == state.spec_after(head).spec_after(tail) by {
        lemma_accepts_add(state, head, tail);
    }
    assert forall|state: State, program: ShaderProgram| #[trigger]
        state.spec_accepts(program.spec_bind()) by {
        lemma_bind_runs(state, program);
    }
    assert forall|state: State, program: ShaderProgram| #[trigger]
        state.spec_after(program.spec_bind()) == spec_current(state, program) by {
        lemma_bind_runs(state, program);
    }
    let zero = Scalar::whole(0);
    assert forall|state: State, program: ShaderProgram, uniform: Uniform, value: i32| #[trigger]
        state.spec_accepts(program.spec_uniform1i(uniform, value))
            == state.program.is_some() by {
        lemma_uniform_runs(state, program, uniform, zero, zero, zero, value);
    }
    assert forall|state: State, program: ShaderProgram, uniform: Uniform, value: i32| #[trigger]
        state.spec_after(program.spec_uniform1i(uniform, value)) == state by {
        lemma_uniform_runs(state, program, uniform, zero, zero, zero, value);
    }
    assert forall|state: State, program: ShaderProgram, uniform: Uniform, value: Scalar| #[trigger]
        state.spec_accepts(program.spec_uniform1f(uniform, value)) == (state.program.is_some()
            && value.spec_defined()) by {
        lemma_uniform_runs(state, program, uniform, value, zero, zero, 0);
    }
    assert forall|state: State, program: ShaderProgram, uniform: Uniform, value: Scalar| #[trigger]
        state.spec_after(program.spec_uniform1f(uniform, value)) == state by {
        lemma_uniform_runs(state, program, uniform, value, zero, zero, 0);
    }
    assert forall|state: State, program: ShaderProgram, uniform: Uniform, x: Scalar, y: Scalar|
        #[trigger]
        state.spec_accepts(program.spec_uniform2f(uniform, x, y)) == (state.program.is_some()
            && x.spec_defined() && y.spec_defined()) by {
        lemma_uniform_runs(state, program, uniform, x, y, zero, 0);
    }
    assert forall|state: State, program: ShaderProgram, uniform: Uniform, x: Scalar, y: Scalar|
        #[trigger]
        state.spec_after(program.spec_uniform2f(uniform, x, y)) == state by {
        lemma_uniform_runs(state, program, uniform, x, y, zero, 0);
    }
    assert forall|
        state: State,
        program: ShaderProgram,
        uniform: Uniform,
        x: Scalar,
        y: Scalar,
        z: Scalar,
    | #[trigger]
        state.spec_accepts(program.spec_uniform3f(uniform, x, y, z)) == (state.program.is_some()
            && x.spec_defined() && y.spec_defined() && z.spec_defined()) by {
        lemma_uniform_runs(state, program, uniform, x, y, z, 0);
    }
    assert forall|
        state: State,
        program: ShaderProgram,
        uniform: Uniform,
        x: Scalar,
        y: Scalar,
        z: Scalar,
    | #[trigger]
        state.spec_after(program.spec_uniform3f(uniform, x, y, z)) == state by {
        lemma_uniform_runs(state, program, uniform, x, y, z, 0);
    }
    assert forall|
        state: State,
        program: ShaderProgram,
        uniform: Uniform,
        texture: TextureFramebuffer,
        unit: u32,
    | #[trigger]
        state.spec_accepts(program.spec_sampler(uniform, texture, unit)) == (unit < TEXTURE_UNITS
            && state.textures.contains_key(texture.texture) && state.program.is_some()) by {
        lemma_sampler_runs(state, program, uniform, texture, unit);
    }
    assert forall|
        state: State,
        program: ShaderProgram,
        uniform: Uniform,
        texture: TextureFramebuffer,
        unit: u32,
    | #[trigger]
        state.spec_after(program.spec_sampler(uniform, texture, unit)) == spec_bound(
            state,
            texture,
            unit,
        ) by {
        lemma_sampler_runs(state, program, uniform, texture, unit);
    }
    assert forall|state: State, target: Option<&TextureFramebuffer>, clear: Option<bool>|
        spec_drawable(state, target) implies #[trigger] state.spec_accepts(
        Renderer::spec_blit(target, clear),
    ) by {
        lemma_blit_runs(state, target, clear);
    }
    assert forall|state: State, target: Option<&TextureFramebuffer>, clear: Option<bool>| #[trigger]
        state.spec_after(Renderer::spec_blit(target, clear)) == spec_aimed(state, target) by {
        lemma_blit_runs(state, target, clear);
    }
}

/// The calls that make a render target are accepted where its two handles are not in use
/// and its extent can be made. Afterwards the target is on the context as it was made.
pub proof fn lemma_create_runs(
    state: State,
    target: TextureFramebuffer,
    param: Filter,
    format: TexelFormat,
)
    requires
        target.wf(),
        !state.textures.contains_key(target.texture),
        !state.framebuffers.contains_key(target.framebuffer),
    ensures
        state.spec_accepts(target.spec_create(param, format)),
        state.spec_after(target.spec_create(param, format)).spec_made(state, target),
        state.spec_after(target.spec_create(param, format)).spec_has(target),
{
    let texture = seq![
        Command::ActiveTexture { unit: 0 },
        Command::CreateTexture { texture: target.texture },
        Command::BindTexture { texture: target.texture },
    ];
    let parameters = seq![
        Command::TexParameter { parameter: TexParameter::MinFilter(param) },
        Command::TexParameter { parameter: TexParameter::MagFilter(param) },
        Command::TexParameter { parameter: TexParameter::WrapSClampToEdge },
        Command::TexParameter { parameter: TexParameter::WrapTClampToEdge },
    ];
    let storage = seq![
        Command::TexImage2D {
            format,
            width: target.width,
            height: target.height,
            components: (target.width * target.height * 4) as u32,
        },
    ];
    let framebuffer = seq![
        Command::CreateFramebuffer { framebuffer: target.framebuffer },
        Command::BindFramebuffer { framebuffer: Some(target.framebuffer) },
        Command::FramebufferTexture2D { texture: target.texture },
    ];
    assert(target.spec_create(param, format) =~= texture + parameters + storage + framebuffer);
    let bound = state.spec_after(texture);
    let set = bound.spec_after(parameters);
    let stored = set.spec_after(storage);
    assert(state.spec_accepts(texture) && bound == (State {
        active: 0,
        textures: state.textures.insert(target.texture, (0, 0)),
        units: state.units.insert(0, target.texture),
        read: state.read.insert(0),
        ..state
    })) by {
        reveal_with_fuel(State::spec_accepts, 4);
        reveal_with_fuel(State::spec_after, 4);
    }
    assert(bound.spec_accepts(parameters) && set == bound) by {
        reveal_with_fuel(State::spec_accepts, 5);
        reveal_with_fuel(State::spec_after, 5);
    }
    assert(set.spec_accepts(storage) && stored == (State {
        textures: set.textures.insert(target.texture, (target.width, target.height)),
        ..set
    })) by {
        lemma_accepts_one(set, storage[0]);
    }
    assert(stored.spec_accepts(framebuffer) && stored.spec_after(framebuffer) == (State {
        framebuffers: stored.framebuffers.insert(target.framebuffer, None).insert(
            target.framebuffer,
            Some(target.texture),
        ),
        target: Some(target.framebuffer),
        ..stored
    })) by {
        reveal_with_fuel(State::spec_accepts, 4);
        reveal_with_fuel(State::spec_after, 4);
    }
    lemma_accepts_add(state, texture, parameters);
    lemma_accepts_add(state, texture + parameters, storage);
    lemma_accepts_add(state, texture + parameters + storage, framebuffer);
}

/// The calls that release a render target are accepted where the target is on the
/// context. Afterwards its texture and its framebuffer are gone.
pub proof fn lemma_delete_runs(state: State, target: TextureFramebuffer)
    requires
        state.textures.contains_key(target.texture),
        state.framebuffers.contains_key(target.framebuffer),
    ensures
        state.spec_accepts(target.spec_delete()),
        state.spec_after(target.spec_delete()).spec_released(state, target),
{
    reveal_with_fuel(State::spec_accepts, 3);
    reveal_with_fuel(State::spec_after, 3);
}

/// The calls that set the full-screen quad up are accepted where the buffer's handle is
/// not in use. Afterwards the quad is set up, and nothing else has changed of the
/// textures and framebuffers.
pub proof fn lemma_init_quad_buffers_runs(state: State, buffer: u64)
    requires
        !state.buffers.contains_key(buffer),
    ensures
        state.spec_accepts(Renderer::spec_init_quad_buffers(buffer)),
        state.spec_after(Renderer::spec_init_quad_buffers(buffer)).spec_quad_ready(),
        state.spec_after(Renderer::spec_init_quad_buffers(buffer)).textures == state.textures,
        state.spec_after(Renderer::spec_init_quad_buffers(buffer)).framebuffers
            == state.framebuffers,
        state.spec_after(Renderer::spec_init_quad_buffers(buffer)).color_buffer_float
            == state.color_buffer_float,
{
    let storing = seq![
        Command::CreateBuffer { buffer },
        Command::BindBuffer { buffer },
        Command::BufferData { corners: Renderer::spec_quad() },
    ];
    let describing = seq![
        Command::VertexAttribPointer { index: 0, size: 2, stride: 16, offset: 0 },
        Command::VertexAttribPointer { index: 1, size: 2, stride: 16, offset: 8 },
    ];
    let enabling = seq![
        Command::EnableVertexAttribArray { index: 0 },
        Command::EnableVertexAttribArray { index: 1 },
    ];
    assert(Renderer::spec_init_quad_buffers(buffer) =~= storing + describing + enabling);
    let stored = state.spec_after(storing);
    let described = stored.spec_after(describing);
    assert(state.spec_accepts(storing) && stored == (State {
        buffers: state.buffers.insert(buffer, None).insert(buffer, Some(Renderer::spec_quad())),
        array_buffer: Some(buffer),
        ..state
    })) by {
        reveal_with_fuel(State::spec_accepts, 4);
        reveal_with_fuel(State::spec_after, 4);
    }
    let position = Pointer { buffer, size: 2, stride: 16, offset: 0 };
    let coordinate = Pointer { buffer, size: 2, stride: 16, offset: 8 };
    assert(stored.spec_accepts(describing) && described == (State {
        pointers: stored.pointers.insert(0, position).insert(1, coordinate),
        ..stored
    })) by {
        reveal_with_fuel(State::spec_accepts, 3);
        reveal_with_fuel(State::spec_after, 3);
    }
    assert(described.spec_accepts(enabling) && described.spec_after(enabling) == (State {
        enabled: described.enabled.insert(0).insert(1),
        ..described
    })) by {
        reveal_with_fuel(State::spec_accepts, 3);
        reveal_with_fuel(State::spec_after, 3);
    }
    lemma_accepts_add(state, storing, describing);
    lemma_accepts_add(state, storing + describing, enabling);
}

/// The calls that prepare a context are always accepted. Afterwards floating-point
/// textures can be rendered to, and no object has changed.
pub proof fn lemma_prepare_runs(state: State)
    ensures
        state.spec_accepts(Renderer::spec_prepare()),
        state.spec_after(Renderer::spec_prepare()) == (State {
            color_buffer_float: true,
            ..state
        }),
{
    reveal_with_fuel(State::spec_accepts, 3);
    reveal_with_fuel(State::spec_after, 3);
}

/// An advection pass is accepted by a context that is ready to draw and on which the
/// quantity's two targets, the carrying velocity and the obstacle mask are as they were
/// made, where the target that is written is none of those that are read. It changes no
/// object.
pub proof fn lemma_advect_runs(
    state: State,
    advection_program: &ShaderProgram,
    sim_resolution: (u32, u32),
    delta_time: TimeStep,
    dissipation: Single,
    velocity_buffer: Option<&RWTextureBuffer>,
    quantity: &RWTextureBuffer,
    obstacle: &TextureFramebuffer,
)
    requires
        state.spec_ready(),
        quantity.wf(),
        state.spec_has(quantity.read),
        state.spec_has(quantity.write),
        state.spec_has(*obstacle),
        quantity.write.texture != obstacle.texture,
        velocity_buffer matches Some(velocity) ==> state.spec_has(velocity.read)
            && quantity.write.texture != velocity.read.texture,
    ensures
        state.spec_accepts(
            Renderer::spec_advect(
                advection_program,
                sim_resolution,
                delta_time,
                dissipation,
                velocity_buffer,
                quantity,
                obstacle,
            ),
        ),
        state.spec_after(
            Renderer::spec_advect(
                advection_program,
                sim_resolution,
                delta_time,
                dissipation,
                velocity_buffer,
                quantity,
                obstacle,
            ),
        ).spec_same_objects(state),
{
    lemma_parts_run();
}

/// The pass that forces the dye to a colour inside the obstacle is accepted by a context
/// that is ready to draw and on which the dye's two targets and the obstacle mask are as
/// they were made, where the mask is not the target that is written. It changes no
/// object.
pub proof fn lemma_color_obstacle_runs(
    state: State,
    color_obstacle_program: &ShaderProgram,
    obstacle: &TextureFramebuffer,
    dye: &RWTextureBuffer,
    color: &Color,
)
    requires
        state.spec_ready(),
        dye.wf(),
        state.spec_has(dye.read),
        state.spec_has(dye.write),
        state.spec_has(*obstacle),
        dye.write.texture != obstacle.texture,
    ensures
        state.spec_accepts(
            Renderer::spec_color_obstacle(color_obstacle_program, obstacle, dye, color),
        ),
        state.spec_after(
            Renderer::spec_color_obstacle(color_obstacle_program, obstacle, dye, color),
        ).spec_same_objects(state),
{
    lemma_parts_run();
}

/// Jacobi iterations are accepted by a context that is ready to draw, on which a program
/// is current and the two targets of the pair are as they were made, where no unit but
/// unit 0 that the program's pass reads holds a texture of the pair. They change no
/// object and leave a program current.
pub proof fn lemma_jacobi_iterations_run(
    state: State,
    jacobi_program: &ShaderProgram,
    x: RWTextureBuffer,
    iterations: nat,
)
    requires
        state.spec_ready(),
        state.program.is_some(),
        x.wf(),
        state.spec_has(x.read),
        state.spec_has(x.write),
        state.spec_reads_apart_but(0, x.read.texture),
        state.spec_reads_apart_but(0, x.write.texture),
    ensures
        state.spec_accepts(Renderer::spec_jacobi_iterations(jacobi_program, x, iterations)),
        state.spec_after(
            Renderer::spec_jacobi_iterations(jacobi_program, x, iterations),
        ).spec_same_objects(state),
        state.spec_after(
            Renderer::spec_jacobi_iterations(jacobi_program, x, iterations),
        ).program.is_some(),
        state.spec_after(
            Renderer::spec_jacobi_iterations(jacobi_program, x, iterations),
        ).spec_reads_apart_but(0, x.read.texture),
        state.spec_after(
            Renderer::spec_jacobi_iterations(jacobi_program, x, iterations),
        ).spec_reads_apart_but(0, x.write.texture),
    decreases iterations,
{
    lemma_parts_run();
    if iterations > 0 {
        lemma_jacobi_iterations_run(state, jacobi_program, x, (iterations - 1) as nat);
    }
}

/// The calls that open a pressure solve, before its iterations.
pub open spec fn spec_pressure_solve_opening(
    jacobi_program: &ShaderProgram,
    resolution: (u32, u32),
    alpha: Scalar,
    r_beta: Scalar,
    b: Option<&TextureFramebuffer>,
    obstacle: &TextureFramebuffer,
) -> Seq<Command> {
    jacobi_program.spec_bind() + jacobi_program.spec_uniform1f(Uniform::Alpha, alpha)
        + jacobi_program.spec_uniform1f(Uniform::RBeta, r_beta) + Renderer::spec_resolution(
        jacobi_program,
        resolution,
    ) + (match b {
        Some(b) => jacobi_program.spec_sampler(Uniform::B, *b, 1),
        None => jacobi_program.spec_uniform1i(Uniform::B, 0),
    }) + jacobi_program.spec_sampler(Uniform::Obstacles, *obstacle, 2)
}

/// The calls that open a pressure solve are accepted by a context on which the
/// right-hand side and the obstacle mask are live, where the two coefficients have
/// values. They change no object and leave a program current, whose pass so far reads
/// the right-hand side and the obstacle mask only.
pub proof fn lemma_pressure_solve_opening_runs(
    state: State,
    jacobi_program: &ShaderProgram,
    resolution: (u32, u32),
    alpha: Scalar,
    r_beta: Scalar,
    b: Option<&TextureFramebuffer>,
    obstacle: &TextureFramebuffer,
)
    requires
        alpha.spec_defined(),
        r_beta.spec_defined(),
        state.spec_has(*obstacle),
        b matches Some(right) ==> state.spec_has(*right),
    ensures
        state.spec_accepts(
            spec_pressure_solve_opening(jacobi_program, resolution, alpha, r_beta, b, obstacle),
        ),
        state.spec_after(
            spec_pressure_solve_opening(jacobi_program, resolution, alpha, r_beta, b, obstacle),
        ).spec_same_objects(state),
        state.spec_after(
            spec_pressure_solve_opening(jacobi_program, resolution, alpha, r_beta, b, obstacle),
        ).program.is_some(),
        forall|texture: u64|
            texture != obstacle.texture && (b matches Some(right) ==> texture != right.texture)
                ==> #[trigger] state.spec_after(
                spec_pressure_solve_opening(
                    jacobi_program,
                    resolution,
                    alpha,
                    r_beta,
                    b,
                    obstacle,
                ),
            ).spec_reads_apart_but(0, texture),
{
    lemma_parts_run();
}

/// A pressure solve is accepted by a context that is ready to draw and on which the two
/// targets of the pair, the right-hand side and the obstacle mask are as they were made,
/// where the two coefficients have values and the pair shares no handle with the
/// right-hand side and the mask. It changes no object.
pub proof fn lemma_pressure_solve_runs(
    state: State,
    jacobi_program: &ShaderProgram,
    iterations: usize,
    resolution: (u32, u32),
    alpha: Scalar,
    r_beta: Scalar,
    x: &RWTextureBuffer,
    b: Option<&TextureFramebuffer>,
    obstacle: &TextureFramebuffer,
)
    requires
        state.spec_ready(),
        alpha.spec_defined(),
        r_beta.spec_defined(),
        x.wf(),
        state.spec_has(x.read),
        state.spec_has(x.write),
        state.spec_has(*obstacle),
        x.apart(obstacle),
        b matches Some(right) ==> state.spec_has(*right) && x.apart(right),
    ensures
        state.spec_accepts(
            Renderer::spec_pressure_solve(
                jacobi_program,
                iterations,
                resolution,
                alpha,
                r_beta,
                x,
                b,
                obstacle,
            ),
        ),
        state.spec_after(
            Renderer::spec_pressure_solve(
                jacobi_program,
                iterations,
                resolution,
                alpha,
                r_beta,
                x,
                b,
                obstacle,
            ),
        ).spec_same_objects(state),
{
    let opening = spec_pressure_solve_opening(
        jacobi_program,
        resolution,
        alpha,
        r_beta,
        b,
        obstacle,
    );
    let iterating = Renderer::spec_jacobi_iterations(jacobi_program, *x, iterations as nat);
    lemma_pressure_solve_opening_runs(
        state,
        jacobi_program,
        resolution,
        alpha,
        r_beta,
        b,
        obstacle,
    );
    lemma_jacobi_iterations_run(state.spec_after(opening), jacobi_program, *x, iterations as nat);
    lemma_accepts_add(state, opening, iterating);
}

/// The calls that make a pair of render targets are accepted where its four handles are
/// not in use. Afterwards both targets are on the context as they were made, and all
/// other objects are as they were.
pub proof fn lemma_pair_create_runs(state: State, buffer: RWTextureBuffer, format: TexelFormat)
    requires
        buffer.wf(),
        !state.textures.contains_key(buffer.read.texture),
        !state.textures.contains_key(buffer.write.texture),
        !state.framebuffers.contains_key(buffer.read.framebuffer),
        !state.framebuffers.contains_key(buffer.write.framebuffer),
    ensures
        state.spec_accepts(buffer.spec_create(format)),
        state.spec_after(buffer.spec_create(format)).spec_has(buffer.read),
        state.spec_after(buffer.spec_create(format)).spec_has(buffer.write),
        state.spec_after(buffer.spec_create(format)).textures =~= state.textures.insert(
            buffer.read.texture,
            buffer.extent(),
        ).insert(buffer.write.texture, buffer.extent()),
        state.spec_after(buffer.spec_create(format)).framebuffers =~= state.framebuffers.insert(
            buffer.read.framebuffer,
            Some(buffer.read.texture),
        ).insert(buffer.write.framebuffer, Some(buffer.write.texture)),
        state.spec_after(buffer.spec_create(format)).color_buffer_float
            == state.color_buffer_float,
        state.spec_after(buffer.spec_create(format)).buffers == state.buffers,
        state.spec_after(buffer.spec_create(format)).pointers == state.pointers,
        state.spec_after(buffer.spec_create(format)).enabled == state.enabled,
{
    let first = state.spec_after(buffer.read.spec_create(buffer.param, format));
    lemma_create_runs(state, buffer.read, buffer.param, format);
    lemma_create_runs(first, buffer.write, buffer.param, format);
    lemma_accepts_add(
        state,
        buffer.read.spec_create(buffer.param, format),
        buffer.write.spec_create(buffer.param, format),
    );
}

/// The pass that carries a field over into a new target is accepted by a context that is
/// ready to draw and on which both targets, which are not one, are as they were made. It
/// changes no object.
pub proof fn lemma_copy_runs(
    state: State,
    copy_program: &ShaderProgram,
    source: &TextureFramebuffer,
    target: &TextureFramebuffer,
)
    requires
        state.spec_ready(),
        target.wf(),
        state.spec_has(*source),
        state.spec_has(*target),
        source.texture != target.texture,
    ensures
        state.spec_accepts(RWTextureBuffer::spec_copy(copy_program, source, target)),
        state.spec_after(
            RWTextureBuffer::spec_copy(copy_program, source, target),
        ).spec_same_objects(state),
{
    lemma_parts_run();
}

/// Giving a scratch target a new extent is accepted by a context on which the target is
/// as it was made and the handles of the new one are not in use. Afterwards the new
/// target is on the context in place of the old one.
pub proof fn lemma_replace_runs(
    state: State,
    target: TextureFramebuffer,
    first: u64,
    width: u32,
    height: u32,
    param: Filter,
    format: TexelFormat,
)
    requires
        target.extent() != (width, height),
        TextureFramebuffer::allocatable(width, height),
        first + 2 <= u64::MAX,
        state.spec_has(target),
        !state.textures.contains_key(first),
        !state.framebuffers.contains_key((first + 1) as u64),
    ensures
        state.spec_accepts(target.spec_replace(first, width, height, param, format)),
        state.spec_after(target.spec_replace(first, width, height, param, format)).spec_exchanged(
            state,
            target,
            TextureFramebuffer::spec_new(first, width, height),
        ),
        state.spec_after(target.spec_replace(first, width, height, param, format)).spec_has(
            TextureFramebuffer::spec_new(first, width, height),
        ),
{
    let fresh = TextureFramebuffer::spec_new(first, width, height);
    let released = state.spec_after(target.spec_delete());
    lemma_delete_runs(state, target);
    lemma_create_runs(released, fresh, param, format);
    lemma_accepts_add(state, target.spec_delete(), fresh.spec_create(param, format));
}

/// The state after a pair of render targets took the place of another: the two new
/// targets are on the context, the two old ones are gone, and all other objects are as
/// they were.
pub open spec fn spec_pair_exchanged(
    after: State,
    before: State,
    old: RWTextureBuffer,
    fresh: RWTextureBuffer,
) -> bool {
    &&& after.color_buffer_float == before.color_buffer_float
    &&& after.textures =~= before.textures.remove(old.read.texture).remove(
        old.write.texture,
    ).insert(fresh.read.texture, fresh.extent()).insert(fresh.write.texture, fresh.extent())
    &&& after.framebuffers =~= before.framebuffers.remove(old.read.framebuffer).remove(
        old.write.framebuffer,
    ).insert(fresh.read.framebuffer, Some(fresh.read.texture)).insert(
        fresh.write.framebuffer,
        Some(fresh.write.texture),
    )
    &&& after.buffers == before.buffers
    &&& after.pointers == before.pointers
    &&& after.enabled == before.enabled
}

/// A resize that replaces a pair is accepted by a context that is ready to draw, on which
/// the pair's targets are as they were made and the handles of the new pair are not in
/// use. Afterwards the new pair is on the context in place of the old one.
pub proof fn lemma_pair_resize_runs(
    state: State,
    buffer: RWTextureBuffer,
    fresh: RWTextureBuffer,
    copy_program: Option<&ShaderProgram>,
    format: TexelFormat,
)
    requires
        state.spec_ready(),
        buffer.wf(),
        fresh.wf(),
        state.spec_has(buffer.read),
        state.spec_has(buffer.write),
        !state.textures.contains_key(fresh.read.texture),
        !state.textures.contains_key(fresh.write.texture),
        !state.framebuffers.contains_key(fresh.read.framebuffer),
        !state.framebuffers.contains_key(fresh.write.framebuffer),
    ensures
        state.spec_accepts(buffer.spec_resize(fresh, copy_program, format)),
        spec_pair_exchanged(
            state.spec_after(buffer.spec_resize(fresh, copy_program, format)),
            state,
            buffer,
            fresh,
        ),
{
    let making_read = fresh.read.spec_create(fresh.param, format);
    let making_write = fresh.write.spec_create(fresh.param, format);
    let copying = match copy_program {
        Some(copy_program) => RWTextureBuffer::spec_copy(copy_program, &buffer.read, &fresh.read),
        None => Seq::<Command>::empty(),
    };
    let first = state.spec_after(making_read);
    let second = first.spec_after(making_write);
    let third = second.spec_after(copying);
    let fourth = third.spec_after(buffer.read.spec_delete());

    lemma_create_runs(state, fresh.read, fresh.param, format);
    lemma_create_runs(first, fresh.write, fresh.param, format);
    match copy_program {
        Some(copy_program) => {
            lemma_copy_runs(second, copy_program, &buffer.read, &fresh.read);
        },
        None => {},
    }
    assert(third.spec_same_objects(second));
    lemma_delete_runs(third, buffer.read);
    lemma_delete_runs(fourth, buffer.write);

    lemma_accepts_add(state, making_read, making_write);
    lemma_accepts_add(state, making_read + making_write, copying);
    lemma_accepts_add(state, making_read + making_write + copying, buffer.read.spec_delete());
    lemma_accepts_add(
        state,
        making_read + making_write + copying + buffer.read.spec_delete(),
        buffer.write.spec_delete(),
    );
}

impl Pipeline {
    /// The textures of the pipeline's render targets.
    pub open spec fn spec_textures(&self) -> Set<u64> {
        set![
            self.velocity_buffer.read.texture,
            self.velocity_buffer.write.texture,
            self.pressure_buffer.read.texture,
            self.pressure_buffer.write.texture,
            self.dye_buffer.read.texture,
            self.dye_buffer.write.texture,
            self.obstacle_store.texture,
            self.temp_store.texture,
        ]
    }

    /// The framebuffers of the pipeline's render targets.
    pub open spec fn spec_framebuffers(&self) -> Set<u64> {
        set![
            self.velocity_buffer.read.framebuffer,
            self.velocity_buffer.write.framebuffer,
            self.pressure_buffer.read.framebuffer,
            self.pressure_buffer.write.framebuffer,
            self.dye_buffer.read.framebuffer,
            self.dye_buffer.write.framebuffer,
            self.obstacle_store.framebuffer,
            self.temp_store.framebuffer,
        ]
    }

    /// Whether every render target of the pipeline is, on the context, as it was made.
    pub open spec fn spec_targets_on(&self, state: State) -> bool {
        &&& state.spec_has(self.velocity_buffer.read)
        &&& state.spec_has(self.velocity_buffer.write)
        &&& state.spec_has(self.pressure_buffer.read)
        &&& state.spec_has(self.pressure_buffer.write)
        &&& state.spec_has(self.dye_buffer.read)
        &&& state.spec_has(self.dye_buffer.write)
        &&& state.spec_has(self.obstacle_store)
        &&& state.spec_has(self.temp_store)
    }

    /// Whether the context is in a state that goes with the pipeline: it is ready to
    /// draw; every render target of the pipeline is on it as it was made; and it holds no
    /// texture and no framebuffer but those of the pipeline.
    pub open spec fn spec_holds(&self, state: State) -> bool {
        &&& state.spec_ready()
        &&& self.spec_targets_on(state)
        &&& state.textures.dom() == self.spec_textures()
        &&& state.framebuffers.dom() == self.spec_framebuffers()
    }

    /// A state that goes with a pipeline goes with it whatever is bound and current, and
    /// whichever roles the targets of its pairs have.
    pub proof fn lemma_holds_on_same_objects(self, other: Pipeline, state: State, after: State)
        requires
            self.spec_holds(state),
            after.spec_same_objects(state),
            other.velocity_buffer == self.velocity_buffer || other.velocity_buffer
                == self.velocity_buffer.spec_swap(),
            other.pressure_buffer == self.pressure_buffer || other.pressure_buffer
                == self.pressure_buffer.spec_swap(),
            other.dye_buffer == self.dye_buffer || other.dye_buffer == self.dye_buffer.spec_swap(),
            other.obstacle_store == self.obstacle_store,
            other.temp_store == self.temp_store,
        ensures
            other.spec_holds(after),
    {
        assert(other.spec_textures() =~= self.spec_textures());
        assert(other.spec_framebuffers() =~= self.spec_framebuffers());
    }

    /// The draw pass is accepted by a context that goes with the pipeline, and changes no
    /// object.
    pub proof fn lemma_draw_pass_runs(
        self,
        state: State,
        next: u64,
        mode: Mode,
    )
        requires
            self.wf(next),
            self.spec_holds(state),
        ensures
            state.spec_accepts(self.spec_draw_pass(mode)),
            state.spec_after(self.spec_draw_pass(mode)).spec_same_objects(state),
    {
        lemma_parts_run();
    }

    /// The divergence pass is accepted by a context that goes with the pipeline, and
    /// changes no object.
    pub proof fn lemma_divergence_runs(
        self,
        state: State,
        next: u64,
        sim_resolution: (u32, u32),
    )
        requires
            self.wf(next),
            self.spec_holds(state),
        ensures
            state.spec_accepts(self.spec_divergence(sim_resolution)),
            state.spec_after(self.spec_divergence(sim_resolution)).spec_same_objects(state),
    {
        lemma_parts_run();
    }

    /// The pass that seeds the pressure solve is accepted by a context that goes with the
    /// pipeline, and changes no object.
    pub proof fn lemma_pressure_seed_runs(
        self,
        state: State,
        next: u64,
        pressure: Single,
    )
        requires
            self.wf(next),
            self.spec_holds(state),
        ensures
            state.spec_accepts(self.spec_pressure_seed(pressure)),
            state.spec_after(self.spec_pressure_seed(pressure)).spec_same_objects(state),
    {
        lemma_parts_run();
    }

    /// The gradient subtraction is accepted by a context that goes with the pipeline, and
    /// changes no object.
    pub proof fn lemma_gradient_subtraction_runs(
        self,
        state: State,
        next: u64,
        sim_resolution: (u32, u32),
    )
        requires
            self.wf(next),
            self.spec_holds(state),
        ensures
            state.spec_accepts(self.spec_gradient_subtraction(sim_resolution)),
            state.spec_after(self.spec_gradient_subtraction(sim_resolution)).spec_same_objects(
                state,
            ),
    {
        lemma_parts_run();
    }

    /// The curl pass is accepted by a context that goes with the pipeline, and changes no
    /// object.
    pub proof fn lemma_curl_runs(
        self,
        state: State,
        next: u64,
        sim_resolution: (u32, u32),
    )
        requires
            self.wf(next),
            self.spec_holds(state),
        ensures
            state.spec_accepts(self.spec_curl(sim_resolution)),
            state.spec_after(self.spec_curl(sim_resolution)).spec_same_objects(state),
    {
        lemma_parts_run();
    }

    /// The confinement pass is accepted by a context that goes with the pipeline, and
    /// changes no object.
    pub proof fn lemma_vorticity_runs(
        self,
        state: State,
        next: u64,
        sim_resolution: (u32, u32),
        curl: Single,
    )
        requires
            self.wf(next),
            self.spec_holds(state),
        ensures
            state.spec_accepts(self.spec_vorticity(sim_resolution, curl)),
            state.spec_after(self.spec_vorticity(sim_resolution, curl)).spec_same_objects(state),
    {
        lemma_parts_run();
    }

    /// The pass that writes the obstacle mask is accepted by a context that goes with the
    /// pipeline, and changes no object.
    pub proof fn lemma_obstacle_mask_runs(
        self,
        state: State,
        next: u64,
        radius: Option<Single>,
        position: Seq<Single>,
        is_circle: bool,
    )
        requires
            self.wf(next),
            self.spec_holds(state),
        ensures
            state.spec_accepts(self.spec_obstacle_mask(radius, position, is_circle)),
            state.spec_after(
                self.spec_obstacle_mask(radius, position, is_circle),
            ).spec_same_objects(state),
    {
        lemma_parts_run();
    }

    /// Vorticity confinement is accepted by a context that goes with the pipeline, and
    /// changes no object.
    pub proof fn lemma_vorticity_confinement_runs(
        self,
        state: State,
        next: u64,
        sim_resolution: (u32, u32),
        curl: Single,
    )
        requires
            self.wf(next),
            self.spec_holds(state),
        ensures
            state.spec_accepts(self.spec_vorticity_confinement(sim_resolution, curl)),
            state.spec_after(
                self.spec_vorticity_confinement(sim_resolution, curl),
            ).spec_same_objects(state),
    {
        let curled = state.spec_after(self.spec_curl(sim_resolution));
        self.lemma_curl_runs(state, next, sim_resolution);
        self.lemma_holds_on_same_objects(self, state, curled);
        self.lemma_vorticity_runs(curled, next, sim_resolution, curl);
        lemma_accepts_add(
            state,
            self.spec_curl(sim_resolution),
            self.spec_vorticity(sim_resolution, curl),
        );
    }

    /// The pressure projection is accepted by a context that goes with the pipeline, and
    /// changes no object.
    pub proof fn lemma_project_velocity_runs(
        self,
        state: State,
        next: u64,
        sim_resolution: (u32, u32),
        iterations: usize,
        pressure: Single,
    )
        requires
            self.wf(next),
            self.spec_holds(state),
        ensures
            state.spec_accepts(self.spec_project_velocity(sim_resolution, iterations, pressure)),
            state.spec_after(
                self.spec_project_velocity(sim_resolution, iterations, pressure),
            ).spec_same_objects(state),
    {
        let diverging = self.spec_divergence(sim_resolution);
        let seeding = self.spec_pressure_seed(pressure);
        let solving = Renderer::spec_pressure_solve(
            &self.jacobi_program,
            iterations,
            sim_resolution,
            Renderer::spec_alpha(self.sim_resolution),
            Renderer::spec_r_beta(),
            &self.pressure_buffer.spec_swap(),
            Some(&self.temp_store),
            &self.obstacle_store,
        );
        let solution = self.spec_with(
            self.velocity_buffer,
            self.spec_solved(iterations),
            self.dye_buffer,
        );
        let subtracting = solution.spec_gradient_subtraction(sim_resolution);
        let diverged = state.spec_after(diverging);
        let seeded = diverged.spec_after(seeding);
        let solved = seeded.spec_after(solving);

        lemma_scaled_defined(pressure, self.sim_resolution);
        self.lemma_divergence_runs(state, next, sim_resolution);
        self.lemma_holds_on_same_objects(self, state, diverged);
        self.lemma_pressure_seed_runs(diverged, next, pressure);
        self.lemma_holds_on_same_objects(self, diverged, seeded);
        lemma_pressure_solve_runs(
            seeded,
            &self.jacobi_program,
            iterations,
            sim_resolution,
            Renderer::spec_alpha(self.sim_resolution),
            Renderer::spec_r_beta(),
            &self.pressure_buffer.spec_swap(),
            Some(&self.temp_store),
            &self.obstacle_store,
        );
        self.lemma_holds_on_same_objects(solution, seeded, solved);
        solution.lemma_gradient_subtraction_runs(solved, next, sim_resolution);

        lemma_accepts_add(state, diverging, seeding);
        lemma_accepts_add(state, diverging + seeding, solving);
        lemma_accepts_add(state, diverging + seeding + solving, subtracting);
    }

    /// The calls that advance the fluid by one frame are accepted by a context that goes
    /// with the pipeline, and change no object.
    pub proof fn lemma_simulate_runs(
        self,
        state: State,
        next: u64,
        sim_resolution: (u32, u32),
        delta_time: TimeStep,
        iterations: usize,
        viscosity: Single,
        dissipation: Single,
        curl: Single,
        pressure: Single,
    )
        requires
            self.wf(next),
            self.spec_holds(state),
        ensures
            state.spec_accepts(
                self.spec_simulate(
                    sim_resolution,
                    delta_time,
                    iterations,
                    viscosity,
                    dissipation,
                    curl,
                    pressure,
                ),
            ),
            state.spec_after(
                self.spec_simulate(
                    sim_resolution,
                    delta_time,
                    iterations,
                    viscosity,
                    dissipation,
                    curl,
                    pressure,
                ),
            ).spec_same_objects(state),
    {
        let confining = self.spec_vorticity_confinement(sim_resolution, curl);
        let advecting = Renderer::spec_advect(
            &self.advection_program,
            sim_resolution,
            delta_time,
            viscosity,
            None,
            &self.velocity_buffer.spec_swap(),
            &self.obstacle_store,
        );
        let projecting = self.spec_project_velocity(
            sim_resolution,
            Renderer::spec_iterations(iterations),
            pressure,
        );
        let clearing = Renderer::spec_color_obstacle(
            &self.color_obstacle_program,
            &self.obstacle_store,
            &self.dye_buffer,
            &Color::spec_black(),
        );
        let carrying = Renderer::spec_advect(
            &self.advection_program,
            sim_resolution,
            delta_time,
            dissipation,
            Some(&self.velocity_buffer.spec_swap()),
            &self.dye_buffer.spec_swap(),
            &self.obstacle_store,
        );
        let tinting = Renderer::spec_color_obstacle(
            &self.color_obstacle_program,
            &self.obstacle_store,
            &self.dye_buffer,
            &self.obstacle_color,
        );
        let confined = state.spec_after(confining);
        let advected = confined.spec_after(advecting);
        let projected = advected.spec_after(projecting);
        let cleared = projected.spec_after(clearing);
        let carried = cleared.spec_after(carrying);

        self.lemma_vorticity_confinement_runs(state, next, sim_resolution, curl);
        lemma_advect_runs(
            confined,
            &self.advection_program,
            sim_resolution,
            delta_time,
            viscosity,
            None,
            &self.velocity_buffer.spec_swap(),
            &self.obstacle_store,
        );
        self.lemma_holds_on_same_objects(self, state, advected);
        self.lemma_project_velocity_runs(
            advected,
            next,
            sim_resolution,
            Renderer::spec_iterations(iterations),
            pressure,
        );
        lemma_color_obstacle_runs(
            projected,
            &self.color_obstacle_program,
            &self.obstacle_store,
            &self.dye_buffer,
            &Color::spec_black(),
        );
        lemma_advect_runs(
            cleared,
            &self.advection_program,
            sim_resolution,
            delta_time,
            dissipation,
            Some(&self.velocity_buffer.spec_swap()),
            &self.dye_buffer.spec_swap(),
            &self.obstacle_store,
        );
        lemma_color_obstacle_runs(
            carried,
            &self.color_obstacle_program,
            &self.obstacle_store,
            &self.dye_buffer,
            &self.obstacle_color,
        );

        lemma_accepts_add(state, confining, advecting);
        lemma_accepts_add(state, confining + advecting, projecting);
        lemma_accepts_add(state, confining + advecting + projecting, clearing);
        lemma_accepts_add(state, confining + advecting + projecting + clearing, carrying);
        lemma_accepts_add(
            state,
            confining + advecting + projecting + clearing + carrying,
            tinting,
        );
    }

    /// A context that goes with a valid pipeline accepts every call of a frame, and goes
    /// with the pipeline after the frame: no render target is made, released or lost.
    pub proof fn lemma_update_is_accepted(
        self,
        state: State,
        next: u64,
        canvas: &Canvas,
        pause: bool,
        time: Single,
        mode: Mode,
        iterations: usize,
        viscosity: Single,
        dissipation: Single,
        curl: Single,
        pressure: Single,
    )
        requires
            self.wf(next),
            self.spec_holds(state),
        ensures
            state.spec_accepts(
                self.spec_update(
                    canvas,
                    pause,
                    time,
                    mode,
                    iterations,
                    viscosity,
                    dissipation,
                    curl,
                    pressure,
                ),
            ),
            pause ==> self.spec_at(time).spec_holds(
                state.spec_after(
                    self.spec_update(
                        canvas,
                        pause,
                        time,
                        mode,
                        iterations,
                        viscosity,
                        dissipation,
                        curl,
                        pressure,
                    ),
                ),
            ),
            !pause ==> self.spec_simulated(iterations).spec_at(time).spec_holds(
                state.spec_after(
                    self.spec_update(
                        canvas,
                        pause,
                        time,
                        mode,
                        iterations,
                        viscosity,
                        dissipation,
                        curl,
                        pressure,
                    ),
                ),
            ),
    {
        if pause {
            self.lemma_draw_pass_runs(state, next, mode);
            self.lemma_holds_on_same_objects(
                self.spec_at(time),
                state,
                state.spec_after(self.spec_draw_pass(mode)),
            );
        } else {
            let simulating = self.spec_simulate(
                Renderer::spec_resolution_size(canvas, self.sim_resolution),
                TimeStep { now: time, last: self.last_time },
                iterations,
                viscosity,
                dissipation,
                curl,
                pressure,
            );
            let simulated = self.spec_simulated(iterations);
            let between = state.spec_after(simulating);
            self.lemma_simulate_runs(
                state,
                next,
                Renderer::spec_resolution_size(canvas, self.sim_resolution),
                TimeStep { now: time, last: self.last_time },
                iterations,
                viscosity,
                dissipation,
                curl,
                pressure,
            );
            self.lemma_holds_on_same_objects(simulated, state, between);
            simulated.lemma_draw_pass_runs(between, next, mode);
            simulated.lemma_holds_on_same_objects(
                simulated.spec_at(time),
                between,
                between.spec_after(simulated.spec_draw_pass(mode)),
            );
            lemma_accepts_add(state, simulating, simulated.spec_draw_pass(mode));
        }
    }

    /// The calls that splat a force into the velocity are accepted by a context that goes
    /// with the pipeline and on which a program has just been made current. They change
    /// no object and leave the program current, whose pass so far reads, but for unit 0,
    /// nothing that the splat of the colour writes.
    pub proof fn lemma_splat_force_runs(
        self,
        state: State,
        next: u64,
        radius: Single,
        position: Seq<Single>,
        velocity: Seq<Single>,
    )
        requires
            self.wf(next),
            self.spec_holds(state),
            state.program.is_some(),
            state.read =~= Set::<u32>::empty(),
        ensures
            state.spec_accepts(self.spec_splat_force(radius, position, velocity)),
            state.spec_after(
                self.spec_splat_force(radius, position, velocity),
            ).spec_same_objects(state),
            state.spec_after(self.spec_splat_force(radius, position, velocity)).program.is_some(),
            state.spec_after(
                self.spec_splat_force(radius, position, velocity),
            ).spec_reads_apart_but(0, self.dye_buffer.write.texture),
    {
        lemma_parts_run();
    }

    /// The calls that splat a colour into the dye are accepted by a context that goes with
    /// the pipeline and on which a program is current whose pass so far reads, but for
    /// unit 0, nothing that the splat writes. They change no object.
    pub proof fn lemma_splat_color_runs(
        self,
        state: State,
        next: u64,
        radius: Single,
        position: Seq<Single>,
        color: Seq<Single>,
    )
        requires
            self.wf(next),
            self.spec_holds(state),
            state.program.is_some(),
            state.spec_reads_apart_but(0, self.dye_buffer.write.texture),
        ensures
            state.spec_accepts(self.spec_splat_color(radius, position, color)),
            state.spec_after(self.spec_splat_color(radius, position, color)).spec_same_objects(
                state,
            ),
    {
        lemma_parts_run();
    }

    /// A context that goes with a valid pipeline accepts every call of a splat, and goes
    /// with the pipeline after the splat.
    pub proof fn lemma_splat_is_accepted(
        self,
        state: State,
        next: u64,
        radius: Single,
        position: Seq<Single>,
        velocity: Seq<Single>,
        color: Seq<Single>,
    )
        requires
            self.wf(next),
            self.spec_holds(state),
        ensures
            state.spec_accepts(self.spec_splat(radius, position, velocity, color)),
            self.spec_with(
                self.velocity_buffer.spec_swap(),
                self.pressure_buffer,
                self.dye_buffer.spec_swap(),
            ).spec_holds(state.spec_after(self.spec_splat(radius, position, velocity, color))),
    {
        let binding = self.splat_program.spec_bind();
        let forcing = self.spec_splat_force(radius, position, velocity);
        let colouring = self.spec_splat_color(radius, position, color);
        let bound = state.spec_after(binding);
        let forced = bound.spec_after(forcing);
        let forceful = self.spec_with(
            self.velocity_buffer.spec_swap(),
            self.pressure_buffer,
            self.dye_buffer,
        );
        lemma_bind_runs(state, self.splat_program);
        self.lemma_holds_on_same_objects(self, state, bound);
        self.lemma_splat_force_runs(bound, next, radius, position, velocity);
        self.lemma_holds_on_same_objects(self, bound, forced);
        self.lemma_splat_color_runs(forced, next, radius, position, color);
        lemma_accepts_add(state, binding, forcing);
        lemma_accepts_add(state, binding + forcing, colouring);
        self.lemma_holds_on_same_objects(
            self.spec_with(
                self.velocity_buffer.spec_swap(),
                self.pressure_buffer,
                self.dye_buffer.spec_swap(),
            ),
            state,
            forced.spec_after(colouring),
        );
    }

    /// A context that goes with a valid pipeline accepts every call that sets an obstacle,
    /// and goes with the pipeline afterwards.
    pub proof fn lemma_set_obstacle_is_accepted(
        self,
        state: State,
        next: u64,
        radius: Option<Single>,
        position: Seq<Single>,
        color: Color,
        is_circle: bool,
    )
        requires
            self.wf(next),
            self.spec_holds(state),
        ensures
            state.spec_accepts(self.spec_set_obstacle(radius, position, is_circle)),
            self.spec_obstructed(color).spec_holds(
                state.spec_after(self.spec_set_obstacle(radius, position, is_circle)),
            ),
    {
        let clearing = Renderer::spec_color_obstacle(
            &self.color_obstacle_program,
            &self.obstacle_store,
            &self.dye_buffer,
            &Color::spec_black(),
        );
        let masking = self.spec_obstacle_mask(radius, position, is_circle);
        let cleared = state.spec_after(clearing);
        lemma_color_obstacle_runs(
            state,
            &self.color_obstacle_program,
            &self.obstacle_store,
            &self.dye_buffer,
            &Color::spec_black(),
        );
        self.lemma_holds_on_same_objects(self, state, cleared);
        self.lemma_obstacle_mask_runs(cleared, next, radius, position, is_circle);
        lemma_accepts_add(state, clearing, masking);
        self.lemma_holds_on_same_objects(
            self.spec_obstructed(color),
            state,
            cleared.spec_after(masking),
        );
    }

    /// A context that goes with a pipeline accepts the resize of its velocity, and goes with the
    /// pipeline that has the resized velocity.
    pub proof fn lemma_velocity_resize_runs(self, state: State, next: u64, width: u32, height: u32)
        requires
            self.spec_handles_ok(next),
            self.spec_holds(state),
            self.velocity_buffer.spec_keeps(width, height) || (TextureFramebuffer::allocatable(
                width,
                height,
            ) && next + 4 <= u64::MAX),
        ensures
            state.spec_accepts(
                self.velocity_buffer.spec_resize_to(
                    next,
                    Some(&self.copy_program),
                    width,
                    height,
                    TexelFormat::Rgba16f,
                ),
            ),
            (Pipeline {
                velocity_buffer: self.velocity_buffer.spec_resized(next, width, height),
                ..self
            }).spec_holds(
                state.spec_after(
                    self.velocity_buffer.spec_resize_to(
                        next,
                        Some(&self.copy_program),
                        width,
                        height,
                        TexelFormat::Rgba16f,
                    ),
                ),
            ),
    {
        if !self.velocity_buffer.spec_keeps(width, height) {
            let fresh = RWTextureBuffer::spec_new(next, width, height, self.velocity_buffer.param);
            let resized = Pipeline { velocity_buffer: fresh, ..self };
            lemma_pair_resize_runs(
                state,
                self.velocity_buffer,
                fresh,
                Some(&self.copy_program),
                TexelFormat::Rgba16f,
            );
            let after = state.spec_after(
                self.velocity_buffer.spec_resize(
                    fresh,
                    Some(&self.copy_program),
                    TexelFormat::Rgba16f,
                ),
            );
            assert(after.textures.dom() =~= resized.spec_textures());
            assert(after.framebuffers.dom() =~= resized.spec_framebuffers());
        }
    }

    /// A context that goes with a pipeline accepts the resize of its pressure, and goes with the
    /// pipeline that has the resized pressure.
    pub proof fn lemma_pressure_resize_runs(self, state: State, next: u64, width: u32, height: u32)
        requires
            self.spec_handles_ok(next),
            self.spec_holds(state),
            self.pressure_buffer.spec_keeps(width, height) || (TextureFramebuffer::allocatable(
                width,
                height,
            ) && next + 4 <= u64::MAX),
        ensures
            state.spec_accepts(
                self.pressure_buffer.spec_resize_to(
                    next,
                    Some(&self.copy_program),
                    width,
                    height,
                    TexelFormat::Rgba16f,
                ),
            ),
            (Pipeline {
                pressure_buffer: self.pressure_buffer.spec_resized(next, width, height),
                ..self
            }).spec_holds(
                state.spec_after(
                    self.pressure_buffer.spec_resize_to(
                        next,
                        Some(&self.copy_program),
                        width,
                        height,
                        TexelFormat::Rgba16f,
                    ),
                ),
            ),
    {
        if !self.pressure_buffer.spec_keeps(width, height) {
            let fresh = RWTextureBuffer::spec_new(next, width, height, self.pressure_buffer.param);
            let resized = Pipeline { pressure_buffer: fresh, ..self };
            lemma_pair_resize_runs(
                state,
                self.pressure_buffer,
                fresh,
                Some(&self.copy_program),
                TexelFormat::Rgba16f,
            );
            let after = state.spec_after(
                self.pressure_buffer.spec_resize(
                    fresh,
                    Some(&self.copy_program),
                    TexelFormat::Rgba16f,
                ),
            );
            assert(after.textures.dom() =~= resized.spec_textures());
            assert(after.framebuffers.dom() =~= resized.spec_framebuffers());
        }
    }

    /// A context that goes with a pipeline accepts the resize of its dye, and goes with the
    /// pipeline that has the resized dye.
    pub proof fn lemma_dye_resize_runs(self, state: State, next: u64, width: u32, height: u32)
        requires
            self.spec_handles_ok(next),
            self.spec_holds(state),
            self.dye_buffer.spec_keeps(width, height) || (TextureFramebuffer::allocatable(
                width,
                height,
            ) && next + 4 <= u64::MAX),
        ensures
            state.spec_accepts(
                self.dye_buffer.spec_resize_to(
                    next,
                    Some(&self.copy_program),
                    width,
                    height,
                    TexelFormat::Rgba16f,
                ),
            ),
            (Pipeline {
                dye_buffer: self.dye_buffer.spec_resized(next, width, height),
                ..self
            }).spec_holds(
                state.spec_after(
                    self.dye_buffer.spec_resize_to(
                        next,
                        Some(&self.copy_program),
                        width,
                        height,
                        TexelFormat::Rgba16f,
                    ),
                ),
            ),
    {
        if !self.dye_buffer.spec_keeps(width, height) {
            let fresh = RWTextureBuffer::spec_new(next, width, height, self.dye_buffer.param);
            let resized = Pipeline { dye_buffer: fresh, ..self };
            lemma_pair_resize_runs(
                state,
                self.dye_buffer,
                fresh,
                Some(&self.copy_program),
                TexelFormat::Rgba16f,
            );
            let after = state.spec_after(
                self.dye_buffer.spec_resize(fresh, Some(&self.copy_program), TexelFormat::Rgba16f),
            );
            assert(after.textures.dom() =~= resized.spec_textures());
            assert(after.framebuffers.dom() =~= resized.spec_framebuffers());
        }
    }

    /// A context that goes with a pipeline accepts the replacing of its scratch target, and goes
    /// with the pipeline that has the new one.
    pub proof fn lemma_temp_store_replace_runs(
        self,
        state: State,
        next: u64,
        width: u32,
        height: u32,
    )
        requires
            self.spec_handles_ok(next),
            self.spec_holds(state),
            self.temp_store.extent() == (width, height) || (TextureFramebuffer::allocatable(
                width,
                height,
            ) && next + 2 <= u64::MAX),
        ensures
            state.spec_accepts(
                self.temp_store.spec_replace(
                    next,
                    width,
                    height,
                    Filter::Linear,
                    TexelFormat::Rgba16f,
                ),
            ),
            (Pipeline {
                temp_store: self.temp_store.spec_replaced(next, width, height),
                ..self
            }).spec_holds(
                state.spec_after(
                    self.temp_store.spec_replace(
                        next,
                        width,
                        height,
                        Filter::Linear,
                        TexelFormat::Rgba16f,
                    ),
                ),
            ),
    {
        if self.temp_store.extent() != (width, height) {
            let fresh = TextureFramebuffer::spec_new(next, width, height);
            let replaced = Pipeline { temp_store: fresh, ..self };
            lemma_replace_runs(
                state,
                self.temp_store,
                next,
                width,
                height,
                Filter::Linear,
                TexelFormat::Rgba16f,
            );
            let after = state.spec_after(
                self.temp_store.spec_replace(
                    next,
                    width,
                    height,
                    Filter::Linear,
                    TexelFormat::Rgba16f,
                ),
            );
            assert(after.textures.dom() =~= replaced.spec_textures());
            assert(after.framebuffers.dom() =~= replaced.spec_framebuffers());
        }
    }

    /// A context that goes with a pipeline accepts the replacing of its obstacle mask, and goes
    /// with the pipeline that has the new one.
    pub proof fn lemma_obstacle_store_replace_runs(
        self,
        state: State,
        next: u64,
        width: u32,
        height: u32,
    )
        requires
            self.spec_handles_ok(next),
            self.spec_holds(state),
            self.obstacle_store.extent() == (width, height) || (TextureFramebuffer::allocatable(
                width,
                height,
            ) && next + 2 <= u64::MAX),
        ensures
            state.spec_accepts(
                self.obstacle_store.spec_replace(
                    next,
                    width,
                    height,
                    Filter::Nearest,
                    TexelFormat::Rgba16f,
                ),
            ),
            (Pipeline {
                obstacle_store: self.obstacle_store.spec_replaced(next, width, height),
                ..self
            }).spec_holds(
                state.spec_after(
                    self.obstacle_store.spec_replace(
                        next,
                        width,
                        height,
                        Filter::Nearest,
                        TexelFormat::Rgba16f,
                    ),
                ),
            ),
    {
        if self.obstacle_store.extent() != (width, height) {
            let fresh = TextureFramebuffer::spec_new(next, width, height);
            let replaced = Pipeline { obstacle_store: fresh, ..self };
            lemma_replace_runs(
                state,
                self.obstacle_store,
                next,
                width,
                height,
                Filter::Nearest,
                TexelFormat::Rgba16f,
            );
            let after = state.spec_after(
                self.obstacle_store.spec_replace(
                    next,
                    width,
                    height,
                    Filter::Nearest,
                    TexelFormat::Rgba16f,
                ),
            );
            assert(after.textures.dom() =~= replaced.spec_textures());
            assert(after.framebuffers.dom() =~= replaced.spec_framebuffers());
        }
    }

    /// A context that goes with a valid pipeline accepts the calls that give the fields
    /// their extents in a resize that can be done, and goes with the pipeline of the
    /// resized targets afterwards.
    pub proof fn lemma_resize_targets_runs(
        self,
        state: State,
        next: u64,
        sim_resolution: Resolution,
        dye_resolution: Resolution,
        sim: (u32, u32),
        dye: (u32, u32),
    )
        requires
            self.wf(next),
            self.spec_holds(state),
            self.spec_allocatable(sim, dye),
            next + self.spec_resize_handles(sim, dye) <= u64::MAX,
        ensures
            state.spec_accepts(self.spec_resize_targets(next, sim, dye)),
            self.spec_resized(next, sim_resolution, dye_resolution, sim, dye).spec_holds(
                state.spec_after(self.spec_resize_targets(next, sim, dye)),
            ),
    {
        let format = TexelFormat::Rgba16f;
        let copy = Some(&self.copy_program);
        let second = (next + self.velocity_buffer.spec_resize_handles(sim.0, sim.1)) as u64;
        let third = (second + self.pressure_buffer.spec_resize_handles(sim.0, sim.1)) as u64;
        let fourth = (third + self.temp_store.spec_replace_handles(sim.0, sim.1)) as u64;
        let fifth = (fourth + self.dye_buffer.spec_resize_handles(dye.0, dye.1)) as u64;
        let first_step = Pipeline {
            velocity_buffer: self.velocity_buffer.spec_resized(next, sim.0, sim.1),
            ..self
        };
        let second_step = Pipeline {
            pressure_buffer: self.pressure_buffer.spec_resized(second, sim.0, sim.1),
            ..first_step
        };
        let third_step = Pipeline {
            temp_store: self.temp_store.spec_replaced(third, sim.0, sim.1),
            ..second_step
        };
        let fourth_step = Pipeline {
            dye_buffer: self.dye_buffer.spec_resized(fourth, dye.0, dye.1),
            ..third_step
        };
        let fifth_step = Pipeline {
            obstacle_store: self.obstacle_store.spec_replaced(fifth, dye.0, dye.1),
            ..fourth_step
        };
        let resized = self.spec_resized(next, sim_resolution, dye_resolution, sim, dye);
        let velocity_calls = self.velocity_buffer.spec_resize_to(next, copy, sim.0, sim.1, format);
        let pressure_calls = self.pressure_buffer.spec_resize_to(
            second,
            copy,
            sim.0,
            sim.1,
            format,
        );
        let temp_calls = self.temp_store.spec_replace(
            third,
            sim.0,
            sim.1,
            Filter::Linear,
            format,
        );
        let dye_calls = self.dye_buffer.spec_resize_to(fourth, copy, dye.0, dye.1, format);
        let obstacle_calls = self.obstacle_store.spec_replace(
            fifth,
            dye.0,
            dye.1,
            Filter::Nearest,
            format,
        );
        let first_state = state.spec_after(velocity_calls);
        let second_state = first_state.spec_after(pressure_calls);
        let third_state = second_state.spec_after(temp_calls);
        let fourth_state = third_state.spec_after(dye_calls);
        let fifth_state = fourth_state.spec_after(obstacle_calls);

        self.lemma_velocity_resize_runs(state, next, sim.0, sim.1);
        self.lemma_velocity_resized(next, sim.0, sim.1);
        first_step.lemma_pressure_resize_runs(first_state, second, sim.0, sim.1);
        first_step.lemma_pressure_resized(second, sim.0, sim.1);
        second_step.lemma_temp_store_replace_runs(second_state, third, sim.0, sim.1);
        second_step.lemma_temp_replaced(third, sim.0, sim.1);
        third_step.lemma_dye_resize_runs(third_state, fourth, dye.0, dye.1);
        third_step.lemma_dye_resized(fourth, dye.0, dye.1);
        fourth_step.lemma_obstacle_store_replace_runs(fourth_state, fifth, dye.0, dye.1);

        lemma_accepts_add(state, velocity_calls, pressure_calls);
        lemma_accepts_add(state, velocity_calls + pressure_calls, temp_calls);
        lemma_accepts_add(state, velocity_calls + pressure_calls + temp_calls, dye_calls);
        lemma_accepts_add(
            state,
            velocity_calls + pressure_calls + temp_calls + dye_calls,
            obstacle_calls,
        );
        assert(fifth_step.spec_holds(fifth_state));
        fifth_step.lemma_holds_on_same_objects(resized, fifth_state, fifth_state);
    }

    /// A context that goes with a valid pipeline accepts every call of a resize that can
    /// be done, and goes with the resized pipeline afterwards: every target that was
    /// replaced is released, and every new one is on the context as it was made.
    pub proof fn lemma_resize_is_accepted(
        self,
        state: State,
        next: u64,
        sim_resolution: Resolution,
        dye_resolution: Resolution,
        sim: (u32, u32),
        dye: (u32, u32),
    )
        requires
            self.wf(next),
            self.spec_holds(state),
            self.spec_allocatable(sim, dye),
            next + self.spec_resize_handles(sim, dye) <= u64::MAX,
        ensures
            state.spec_accepts(
                self.spec_resize(next, sim_resolution, dye_resolution, sim, dye),
            ),
            (if self.obstacle_store.extent() == dye {
                self.spec_resized(next, sim_resolution, dye_resolution, sim, dye)
            } else {
                self.spec_resized(next, sim_resolution, dye_resolution, sim, dye).spec_obstructed(
                    Color::spec_black(),
                )
            }).spec_holds(
                state.spec_after(self.spec_resize(next, sim_resolution, dye_resolution, sim, dye)),
            ),
    {
        let resized = self.spec_resized(next, sim_resolution, dye_resolution, sim, dye);
        let resizing = self.spec_resize_targets(next, sim, dye);
        let between = state.spec_after(resizing);
        self.lemma_resize_targets_runs(state, next, sim_resolution, dye_resolution, sim, dye);
        if self.obstacle_store.extent() == dye {
            lemma_accepts_add(state, resizing, Seq::<Command>::empty());
        } else {
            self.lemma_resized_wf(next, sim_resolution, dye_resolution, sim, dye);
            resized.lemma_set_obstacle_is_accepted(
                between,
                (next + self.spec_resize_handles(sim, dye)) as u64,
                None,
                Renderer::spec_origin(),
                Color::spec_black(),
                true,
            );
            lemma_accepts_add(
                state,
                resizing,
                resized.spec_set_obstacle(None, Renderer::spec_origin(), true),
            );
        }
    }

    /// The calls that make the render targets of a pipeline are accepted by a context that
    /// holds no texture and no framebuffer. Afterwards the targets are on the context as
    /// they were made, nothing else is, and all other objects are as they were.
    pub proof fn lemma_create_runs(self, state: State, next: u64)
        requires
            self.spec_handles_ok(next),
            state.textures.dom() =~= Set::<u64>::empty(),
            state.framebuffers.dom() =~= Set::<u64>::empty(),
        ensures
            state.spec_accepts(self.spec_create()),
            self.spec_targets_on(state.spec_after(self.spec_create())),
            state.spec_after(self.spec_create()).textures.dom() == self.spec_textures(),
            state.spec_after(self.spec_create()).framebuffers.dom() == self.spec_framebuffers(),
            state.spec_after(self.spec_create()).color_buffer_float == state.color_buffer_float,
            state.spec_after(self.spec_create()).buffers == state.buffers,
            state.spec_after(self.spec_create()).pointers == state.pointers,
            state.spec_after(self.spec_create()).enabled == state.enabled,
    {
        let format = TexelFormat::Rgba16f;
        let velocity = self.velocity_buffer;
        let pressure = self.pressure_buffer;
        let dye = self.dye_buffer;
        let s2 = state.spec_after(velocity.spec_create(format));
        let s4 = s2.spec_after(pressure.spec_create(format));
        let s5 = s4.spec_after(self.temp_store.spec_create(Filter::Linear, format));
        let s7 = s5.spec_after(dye.spec_create(format));
        let s8 = s7.spec_after(self.obstacle_store.spec_create(Filter::Nearest, format));
        lemma_pair_create_runs(state, velocity, format);
        lemma_pair_create_runs(s2, pressure, format);
        lemma_create_runs(s4, self.temp_store, Filter::Linear, format);
        lemma_pair_create_runs(s5, dye, format);
        lemma_create_runs(s7, self.obstacle_store, Filter::Nearest, format);

        lemma_accepts_add(state, velocity.spec_create(format), pressure.spec_create(format));
        lemma_accepts_add(
            state,
            velocity.spec_create(format) + pressure.spec_create(format),
            self.temp_store.spec_create(Filter::Linear, format),
        );
        lemma_accepts_add(
            state,
            velocity.spec_create(format) + pressure.spec_create(format)
                + self.temp_store.spec_create(Filter::Linear, format),
            dye.spec_create(format),
        );
        lemma_accepts_add(
            state,
            velocity.spec_create(format) + pressure.spec_create(format)
                + self.temp_store.spec_create(Filter::Linear, format) + dye.spec_create(format),
            self.obstacle_store.spec_create(Filter::Nearest, format),
        );
        assert(s8.textures.dom() =~= self.spec_textures());
        assert(s8.framebuffers.dom() =~= self.spec_framebuffers());
    }

    /// A context on which no call has been made accepts every call that makes a
    /// simulator, and goes with the simulator's pipeline afterwards: its eight render
    /// targets are on the context as they were made, and nothing else is.
    pub proof fn lemma_new_is_accepted(
        first: u64,
        sim_resolution: Resolution,
        dye_resolution: Resolution,
        sim: (u32, u32),
        dye: (u32, u32),
        programs: Programs,
    )
        requires
            TextureFramebuffer::allocatable(sim.0, sim.1),
            TextureFramebuffer::allocatable(dye.0, dye.1),
            first + 17 <= u64::MAX,
        ensures
            ({
                let fresh = Pipeline::spec_new(
                    first,
                    sim_resolution,
                    dye_resolution,
                    sim,
                    dye,
                    programs,
                );
                let calls = Renderer::spec_new(fresh, (first + 16) as u64);
                &&& fresh.wf((first + 17) as u64)
                &&& State::spec_initial().spec_accepts(calls)
                &&& fresh.spec_obstructed(Color::spec_black()).spec_holds(
                    State::spec_initial().spec_after(calls),
                )
            }),
    {
        let fresh = Pipeline::spec_new(first, sim_resolution, dye_resolution, sim, dye, programs);
        let quad = (first + 16) as u64;
        let preparing = Renderer::spec_prepare();
        let making = fresh.spec_create();
        let setting_up = Renderer::spec_init_quad_buffers(quad);
        let start = State::spec_initial();
        let prepared = start.spec_after(preparing);
        let made = prepared.spec_after(making);
        let set_up = made.spec_after(setting_up);

        lemma_prepare_runs(start);
        fresh.lemma_create_runs(prepared, (first + 17) as u64);
        lemma_init_quad_buffers_runs(made, quad);
        assert(fresh.spec_holds(set_up));
        fresh.lemma_set_obstacle_is_accepted(
            set_up,
            (first + 17) as u64,
            None,
            Renderer::spec_origin(),
            Color::spec_black(),
            true,
        );

        lemma_accepts_add(start, preparing, making);
        lemma_accepts_add(start, preparing + making, setting_up);
        lemma_accepts_add(
            start,
            preparing + making + setting_up,
            fresh.spec_set_obstacle(None, Renderer::spec_origin(), true),
        );
    }
}

} // verus!
