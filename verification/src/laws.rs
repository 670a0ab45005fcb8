//! What holds of the simulation core as a whole: statements about several of its
//! operations, proved from the descriptions that their contracts use.

use vstd::prelude::*;
use crate::context::{Color, Command, Filter, Scalar, Single, TexelFormat};
use crate::shader_program::ShaderProgram;
use crate::shaders::Uniform;
use crate::textures::{RWTextureBuffer, TextureFramebuffer};
use crate::{Canvas, Mode, Pipeline, Renderer, Resolution, MIN_PRESSURE_ITERATIONS};

verus! {

/// How many full-screen passes a record draws.
pub open spec fn spec_draws(commands: Seq<Command>) -> nat
    decreases commands.len(),
{
    if commands.len() == 0 {
        0
    } else {
        spec_draws(commands.drop_last()) + if commands.last() is DrawArrays {
            1nat
        } else {
            0nat
        }
    }
}

/// The passes of two records in a row are those of the first and those of the second.
pub proof fn lemma_draws_add(head: Seq<Command>, tail: Seq<Command>)
    ensures
        spec_draws(head + tail) == spec_draws(head) + spec_draws(tail),
    decreases tail.len(),
{
    if tail.len() == 0 {
        assert(head + tail =~= head);
    } else {
        assert((head + tail).drop_last() =~= head + tail.drop_last());
        lemma_draws_add(head, tail.drop_last());
    }
}

/// A record of one call draws a pass exactly when the call is a draw.
pub proof fn lemma_draws_one(command: Command)
    ensures
        spec_draws(seq![command]) == if command is DrawArrays {
            1nat
        } else {
            0nat
        },
{
    reveal_with_fuel(spec_draws, 2);
    assert(seq![command].drop_last() =~= Seq::<Command>::empty());
}

/// Exchanging the roles of a pair's targets twice gives the pair back: the same target
/// is read, the same is written.
pub proof fn lemma_swap_twice(buffer: RWTextureBuffer)
    ensures
        buffer.spec_swap().spec_swap() == buffer,
        buffer.spec_swap().read == buffer.write,
        buffer.spec_swap().write == buffer.read,
{
}

/// Exchanging the roles of a pair's targets any number of times gives the pair or the
/// exchanged pair, by whether the number is even or odd.
pub proof fn lemma_swaps(buffer: RWTextureBuffer, count: nat)
    ensures
        buffer.spec_swaps(count + 1) == buffer.spec_swaps(count).spec_swap(),
        buffer.spec_swaps(count + 2) == buffer.spec_swaps(count),
{
}

/// A pair that was resized to an extent is left alone by a second resize to that extent:
/// it keeps its targets and their handles, no handle is taken, and no call is recorded.
pub proof fn lemma_resize_twice(
    buffer: RWTextureBuffer,
    first: u64,
    second: u64,
    copy_program: Option<&ShaderProgram>,
    width: u32,
    height: u32,
    format: TexelFormat,
)
    ensures
        buffer.spec_resized(first, width, height).spec_keeps(width, height),
        buffer.spec_resized(first, width, height).spec_resized(second, width, height)
            == buffer.spec_resized(first, width, height),
        buffer.spec_resized(first, width, height).spec_resize_handles(width, height) == 0,
        buffer.spec_resized(first, width, height).spec_resize_to(
            second,
            copy_program,
            width,
            height,
            format,
        ) == Seq::<Command>::empty(),
{
}

/// A valid pipeline that was resized for a canvas and two resolutions is left alone by a
/// second resize for them: every target keeps its handles, no handle is taken, and no
/// call is recorded.
pub proof fn lemma_pipeline_resize_twice(
    pipeline: Pipeline,
    first: u64,
    second: u64,
    sim_resolution: Resolution,
    dye_resolution: Resolution,
    sim: (u32, u32),
    dye: (u32, u32),
)
    requires
        pipeline.wf(first),
    ensures
        ({
            let resized = pipeline.spec_resized(first, sim_resolution, dye_resolution, sim, dye);
            let once = if pipeline.obstacle_store.extent() == dye {
                resized
            } else {
                resized.spec_obstructed(Color::spec_black())
            };
            &&& once.spec_resize_handles(sim, dye) == 0
            &&& once.spec_resized(second, sim_resolution, dye_resolution, sim, dye) == once
            &&& once.spec_resize(second, sim_resolution, dye_resolution, sim, dye) == Seq::<
                Command,
            >::empty()
        }),
{
    let resized = pipeline.spec_resized(first, sim_resolution, dye_resolution, sim, dye);
    let once = if pipeline.obstacle_store.extent() == dye {
        resized
    } else {
        resized.spec_obstructed(Color::spec_black())
    };
    assert(once.spec_resize_targets(second, sim, dye) =~= Seq::<Command>::empty());
    assert(once.spec_resize(second, sim_resolution, dye_resolution, sim, dye) =~= Seq::<
        Command,
    >::empty());
}

/// A frame never runs fewer than the least number of Jacobi iterations: with fewer asked
/// for it runs exactly the least number, else as many as asked for.
pub proof fn lemma_iterations_floor(iterations: usize)
    ensures
        Renderer::spec_iterations(iterations) >= MIN_PRESSURE_ITERATIONS,
        iterations < MIN_PRESSURE_ITERATIONS ==> Renderer::spec_iterations(iterations)
            == MIN_PRESSURE_ITERATIONS,
        iterations >= MIN_PRESSURE_ITERATIONS ==> Renderer::spec_iterations(iterations)
            == iterations,
{
}

/// Making a program current draws no pass.
pub proof fn lemma_bind_draws(program: ShaderProgram)
    ensures
        spec_draws(program.spec_bind()) == 0,
{
    lemma_draws_one(Command::UseProgram { program: program.program });
}

/// Setting a uniform draws no pass.
pub proof fn lemma_uniform_draws(
    program: ShaderProgram,
    uniform: Uniform,
    x: Scalar,
    y: Scalar,
    z: Scalar,
    value: i32,
)
    ensures
        spec_draws(program.spec_uniform1i(uniform, value)) == 0,
        spec_draws(program.spec_uniform1f(uniform, x)) == 0,
        spec_draws(program.spec_uniform2f(uniform, x, y)) == 0,
        spec_draws(program.spec_uniform3f(uniform, x, y, z)) == 0,
{
    lemma_draws_one(Command::Uniform1i { location: program.spec_location(uniform), value });
    lemma_draws_one(Command::Uniform1f { location: program.spec_location(uniform), value: x });
    lemma_draws_one(Command::Uniform2f { location: program.spec_location(uniform), x, y });
    lemma_draws_one(Command::Uniform3f { location: program.spec_location(uniform), x, y, z });
}

/// Binding a texture to a unit draws no pass.
pub proof fn lemma_texture_bind_draws(texture: TextureFramebuffer, unit: u32)
    ensures
        spec_draws(texture.spec_bind(unit)) == 0,
{
    lemma_draws_one(Command::ActiveTexture { unit });
    lemma_draws_one(Command::BindTexture { texture: texture.texture });
    lemma_draws_add(
        seq![Command::ActiveTexture { unit }],
        seq![Command::BindTexture { texture: texture.texture }],
    );
    assert(texture.spec_bind(unit) =~= seq![Command::ActiveTexture { unit }] + seq![
        Command::BindTexture { texture: texture.texture },
    ]);
}

/// Letting a sampler read a texture draws no pass.
pub proof fn lemma_sampler_draws(
    program: ShaderProgram,
    uniform: Uniform,
    texture: TextureFramebuffer,
    unit: u32,
)
    ensures
        spec_draws(program.spec_sampler(uniform, texture, unit)) == 0,
{
    lemma_texture_bind_draws(texture, unit);
    lemma_uniform_draws(
        program,
        uniform,
        Scalar::whole(0),
        Scalar::whole(0),
        Scalar::whole(0),
        unit as i32,
    );
    lemma_draws_add(texture.spec_bind(unit), program.spec_uniform1i(uniform, unit as i32));
}

/// A full-screen blit draws one pass.
pub proof fn lemma_blit_draws(target: Option<&TextureFramebuffer>, clear: Option<bool>)
    ensures
        spec_draws(Renderer::spec_blit(target, clear)) == 1,
{
    reveal_with_fuel(spec_draws, 6);
}

/// Releasing a render target draws no pass.
pub proof fn lemma_delete_draws(target: TextureFramebuffer)
    ensures
        spec_draws(target.spec_delete()) == 0,
{
    reveal_with_fuel(spec_draws, 3);
}

/// Making a render target draws no pass.
pub proof fn lemma_create_draws(target: TextureFramebuffer, param: Filter, format: TexelFormat)
    ensures
        spec_draws(target.spec_create(param, format)) == 0,
{
    reveal_with_fuel(spec_draws, 12);
}

/// What the calls that a pass is made of draw: a full-screen blit draws one pass, and
/// making a program current, setting a uniform, letting a sampler read a texture, and
/// making or releasing a render target draw none. The passes of records in a row add up.
pub proof fn lemma_parts_draw()
    ensures
        forall|head: Seq<Command>, tail: Seq<Command>| #[trigger]
            spec_draws(head + tail) == spec_draws(head) + spec_draws(tail),
        spec_draws(Seq::<Command>::empty()) == 0,
        forall|program: ShaderProgram| spec_draws(#[trigger] program.spec_bind()) == 0,
        forall|program: ShaderProgram, uniform: Uniform, value: i32|
            spec_draws(#[trigger] program.spec_uniform1i(uniform, value)) == 0,
        forall|program: ShaderProgram, uniform: Uniform, value: Scalar|
            spec_draws(#[trigger] program.spec_uniform1f(uniform, value)) == 0,
        forall|program: ShaderProgram, uniform: Uniform, x: Scalar, y: Scalar|
            spec_draws(#[trigger] program.spec_uniform2f(uniform, x, y)) == 0,
        forall|program: ShaderProgram, uniform: Uniform, x: Scalar, y: Scalar, z: Scalar|
            spec_draws(#[trigger] program.spec_uniform3f(uniform, x, y, z)) == 0,
        forall|program: ShaderProgram, uniform: Uniform, texture: TextureFramebuffer, unit: u32|
            spec_draws(#[trigger] program.spec_sampler(uniform, texture, unit)) == 0,
        forall|target: Option<&TextureFramebuffer>, clear: Option<bool>|
            spec_draws(#[trigger] Renderer::spec_blit(target, clear)) == 1,
        forall|target: TextureFramebuffer, param: Filter, format: TexelFormat|
            spec_draws(#[trigger] target.spec_create(param, format)) == 0,
        forall|target: TextureFramebuffer| spec_draws(#[trigger] target.spec_delete()) == 0,
{
    assert forall|head: Seq<Command>, tail: Seq<Command>| #[trigger]
        spec_draws(head + tail) == spec_draws(head) + spec_draws(tail) by {
        lemma_draws_add(head, tail);
    }
    assert forall|program: ShaderProgram| spec_draws(#[trigger] program.spec_bind()) == 0 by {
        lemma_bind_draws(program);
    }
    assert forall|program: ShaderProgram, uniform: Uniform, value: i32|
        spec_draws(#[trigger] program.spec_uniform1i(uniform, value)) == 0 by {
        lemma_uniform_draws(
            program,
            uniform,
            Scalar::whole(0),
            Scalar::whole(0),
            Scalar::whole(0),
            value,
        );
    }
    assert forall|program: ShaderProgram, uniform: Uniform, value: Scalar|
        spec_draws(#[trigger] program.spec_uniform1f(uniform, value)) == 0 by {
        lemma_uniform_draws(program, uniform, value, value, value, 0);
    }
    assert forall|program: ShaderProgram, uniform: Uniform, x: Scalar, y: Scalar|
        spec_draws(#[trigger] program.spec_uniform2f(uniform, x, y)) == 0 by {
        lemma_uniform_draws(program, uniform, x, y, y, 0);
    }
    assert forall|program: ShaderProgram, uniform: Uniform, x: Scalar, y: Scalar, z: Scalar|
        spec_draws(#[trigger] program.spec_uniform3f(uniform, x, y, z)) == 0 by {
        lemma_uniform_draws(program, uniform, x, y, z, 0);
    }
    assert forall|program: ShaderProgram, uniform: Uniform, texture: TextureFramebuffer, unit: u32|
        spec_draws(#[trigger] program.spec_sampler(uniform, texture, unit)) == 0 by {
        lemma_sampler_draws(program, uniform, texture, unit);
    }
    assert forall|target: Option<&TextureFramebuffer>, clear: Option<bool>|
        spec_draws(#[trigger] Renderer::spec_blit(target, clear)) == 1 by {
        lemma_blit_draws(target, clear);
    }
    assert forall|target: TextureFramebuffer, param: Filter, format: TexelFormat|
        spec_draws(#[trigger] target.spec_create(param, format)) == 0 by {
        lemma_create_draws(target, param, format);
    }
    assert forall|target: TextureFramebuffer| spec_draws(#[trigger] target.spec_delete()) == 0 by {
        lemma_delete_draws(target);
    }
}

/// A pressure solve draws one pass for each Jacobi iteration, and none besides.
pub proof fn lemma_pressure_solve_draws(
    jacobi_program: &ShaderProgram,
    iterations: usize,
    resolution: (u32, u32),
    alpha: Scalar,
    r_beta: Scalar,
    x: &RWTextureBuffer,
    b: Option<&TextureFramebuffer>,
    obstacle: &TextureFramebuffer,
)
    ensures
        spec_draws(
            Renderer::spec_pressure_solve(
                jacobi_program,
                iterations,
                resolution,
                alpha,
                r_beta,
                x,
                b,
                obstacle,
            ),
        ) == iterations,
{
    lemma_parts_draw();
    lemma_jacobi_iterations_draw(jacobi_program, *x, iterations as nat);
}

/// Jacobi iterations draw one pass each.
pub proof fn lemma_jacobi_iterations_draw(
    jacobi_program: &ShaderProgram,
    x: RWTextureBuffer,
    iterations: nat,
)
    ensures
        spec_draws(Renderer::spec_jacobi_iterations(jacobi_program, x, iterations)) == iterations,
    decreases iterations,
{
    lemma_parts_draw();
    if iterations > 0 {
        lemma_jacobi_iterations_draw(jacobi_program, x, (iterations - 1) as nat);
    }
}

/// A frame that is paused draws one pass, the field onto the canvas. A frame that is not
/// draws ten passes and one more for each Jacobi iteration of its pressure solve, of
/// which it runs as many as were asked for but never fewer than the least number.
pub proof fn lemma_frame_draws(
    pipeline: Pipeline,
    canvas: &Canvas,
    pause: bool,
    time: Single,
    mode: Mode,
    iterations: usize,
    viscosity: Single,
    dissipation: Single,
    curl: Single,
    pressure: Single,
)
    ensures
        pause ==> spec_draws(
            pipeline.spec_update(
                canvas,
                pause,
                time,
                mode,
                iterations,
                viscosity,
                dissipation,
                curl,
                pressure,
            ),
        ) == 1,
        !pause ==> spec_draws(
            pipeline.spec_update(
                canvas,
                pause,
                time,
                mode,
                iterations,
                viscosity,
                dissipation,
                curl,
                pressure,
            ),
        ) == 10 + Renderer::spec_iterations(iterations),
        Renderer::spec_iterations(iterations) >= MIN_PRESSURE_ITERATIONS,
{
    lemma_parts_draw();
    let sim = Renderer::spec_resolution_size(canvas, pipeline.sim_resolution);
    lemma_pressure_solve_draws(
        &pipeline.jacobi_program,
        Renderer::spec_iterations(iterations),
        sim,
        Renderer::spec_alpha(pipeline.sim_resolution),
        Renderer::spec_r_beta(),
        &pipeline.pressure_buffer.spec_swap(),
        Some(&pipeline.temp_store),
        &pipeline.obstacle_store,
    );
}

/// A resize that replaces a pair draws one pass where a copy program carries the old
/// content over, into the new target that is read, and none where there is no copy
/// program. The old targets are released only afterwards: the calls end with their
/// release.
pub proof fn lemma_resize_carries_over(
    buffer: RWTextureBuffer,
    fresh: RWTextureBuffer,
    copy_program: Option<&ShaderProgram>,
    format: TexelFormat,
)
    ensures
        spec_draws(buffer.spec_resize(fresh, copy_program, format)) == if copy_program.is_some() {
            1nat
        } else {
            0nat
        },
        copy_program matches Some(program) ==> buffer.spec_resize(fresh, copy_program, format)
            == fresh.spec_create(format) + (program.spec_bind() + program.spec_uniform1f(
            Uniform::Factor,
            Scalar::whole(1),
        ) + program.spec_uniform1f(Uniform::Offset, Scalar::whole(0)) + program.spec_sampler(
            Uniform::Texture,
            buffer.read,
            0,
        ) + Renderer::spec_blit(Some(&fresh.read), None)) + buffer.read.spec_delete()
            + buffer.write.spec_delete(),
{
    lemma_parts_draw();
}

/// The pass that writes the obstacle mask reads no texture: it binds none and sets no
/// sampler, so that the new mask owes nothing to the old one; and it draws into the mask
/// with the viewport on all of it.
pub proof fn lemma_obstacle_mask_is_replaced(
    pipeline: Pipeline,
    radius: Option<Single>,
    position: Seq<Single>,
    is_circle: bool,
)
    ensures
        ({
            let calls = pipeline.spec_obstacle_mask(radius, position, is_circle);
            &&& calls.len() == 7
            &&& forall|i: int|
                0 <= i < calls.len() ==> !(#[trigger] calls[i] is BindTexture) && !(calls[i]
                    is ActiveTexture)
            &&& calls[4] == Command::Viewport {
                width: pipeline.obstacle_store.width,
                height: pipeline.obstacle_store.height,
            }
            &&& calls[5] == Command::BindFramebuffer {
                framebuffer: Some(pipeline.obstacle_store.framebuffer),
            }
            &&& calls[6] == Command::DrawArrays { first: 0, count: 4 }
        }),
{
}

} // verus!
