//! What a record of calls means: a model of the part of a GPU context that the calls of
//! the simulation core read and change, and of which calls the context accepts.

use vstd::prelude::*;
use crate::context::{Command, Vertex};
use crate::textures::{TextureFramebuffer, TEXTURE_UNITS};

verus! {

/// Where a vertex attribute is read from: a vertex buffer, and the layout of the
/// attribute in it.
pub struct Pointer {
    pub buffer: u64,
    pub size: i32,
    pub stride: i32,
    pub offset: i32,
}

/// The part of a GPU context's state that the calls of the core read and change.
pub struct State {
    /// Whether floating-point textures can be rendered to.
    pub color_buffer_float: bool,
    /// The live textures, each with its extent in texels; a texture without storage has
    /// the extent 0 by 0.
    pub textures: Map<u64, (u32, u32)>,
    /// The live framebuffers, each with the texture that is its colour attachment.
    pub framebuffers: Map<u64, Option<u64>>,
    /// The live vertex buffers, each with the corners stored in it.
    pub buffers: Map<u64, Option<(Vertex, Vertex, Vertex, Vertex)>>,
    /// The vertex buffer bound as the array buffer.
    pub array_buffer: Option<u64>,
    /// Where each vertex attribute that has been described is read from.
    pub pointers: Map<u32, Pointer>,
    /// The vertex attributes that are switched on.
    pub enabled: Set<u32>,
    /// The active texture unit.
    pub active: u32,
    /// The texture bound on each unit that has one.
    pub units: Map<u32, u64>,
    /// The units that a texture was bound to since the current program was made current:
    /// the units that a pass of the program reads.
    pub read: Set<u32>,
    /// The framebuffer bound as the render target; `None` is the canvas.
    pub target: Option<u64>,
    /// The extent of the viewport; `None` is the whole drawing buffer of the canvas.
    pub viewport: Option<(u32, u32)>,
    /// The current program.
    pub program: Option<u64>,
}

impl State {
    /// The state of a context on which no call has been made.
    pub open spec fn spec_initial() -> State {
        State {
            color_buffer_float: false,
            textures: Map::empty(),
            framebuffers: Map::empty(),
            buffers: Map::empty(),
            array_buffer: None,
            pointers: Map::empty(),
            enabled: Set::empty(),
            active: 0,
            units: Map::empty(),
            read: Set::empty(),
            target: None,
            viewport: None,
            program: None,
        }
    }

    /// Whether a live texture is bound on the active unit.
    pub open spec fn spec_texture_bound(&self) -> bool {
        self.units.contains_key(self.active) && self.textures.contains_key(self.units[self.active])
    }

    /// Whether the full-screen quad is set up: attribute 0 reads the positions and
    /// attribute 1 the texture coordinates of four corners stored in one live buffer, and
    /// both attributes are switched on.
    pub open spec fn spec_quad_ready(&self) -> bool {
        &&& self.enabled.contains(0)
        &&& self.enabled.contains(1)
        &&& self.pointers.contains_key(0)
        &&& self.pointers.contains_key(1)
        &&& self.pointers[0] == (Pointer {
            buffer: self.pointers[0].buffer,
            size: 2,
            stride: 16,
            offset: 0,
        })
        &&& self.pointers[1] == (Pointer {
            buffer: self.pointers[0].buffer,
            size: 2,
            stride: 16,
            offset: 8,
        })
        &&& self.buffers.contains_key(self.pointers[0].buffer)
        &&& self.buffers[self.pointers[0].buffer].is_some()
    }

    /// Whether no unit that the current program's pass reads holds the texture.
    pub open spec fn spec_reads_apart(&self, texture: u64) -> bool {
        forall|unit: u32| #[trigger]
            self.read.contains(unit) && self.units.contains_key(unit) ==> self.units[unit]
                != texture
    }

    /// Whether no unit but `spared` that the current program's pass reads holds the
    /// texture.
    pub open spec fn spec_reads_apart_but(&self, spared: u32, texture: u64) -> bool {
        forall|unit: u32| #[trigger]
            self.read.contains(unit) && unit != spared && self.units.contains_key(unit)
                ==> self.units[unit] != texture
    }

    /// Whether the render target can be drawn into with the viewport as it is: the
    /// canvas, with the viewport on all of its drawing buffer; or a live framebuffer whose
    /// colour attachment is a live texture of the viewport's extent, which is not empty,
    /// on a context that can render to floating-point textures.
    pub open spec fn spec_target_ready(&self) -> bool {
        match self.target {
            None => self.viewport.is_none(),
            Some(framebuffer) => {
                &&& self.color_buffer_float
                &&& self.framebuffers.contains_key(framebuffer)
                &&& self.framebuffers[framebuffer] matches Some(texture)
                &&& self.textures.contains_key(texture)
                &&& self.viewport == Some(self.textures[texture])
                &&& self.textures[texture].0 > 0
                &&& self.textures[texture].1 > 0
            },
        }
    }

    /// Whether a pass into the render target would not read what it writes: the target is
    /// the canvas, or no unit that the current program's pass reads holds the texture
    /// that the pass draws into.
    pub open spec fn spec_target_unread(&self) -> bool {
        match self.target {
            None => true,
            Some(framebuffer) => self.framebuffers.contains_key(framebuffer)
                && self.framebuffers[framebuffer].is_some() ==> self.spec_reads_apart(
                self.framebuffers[framebuffer].unwrap(),
            ),
        }
    }

    /// Whether the context accepts a call in this state.
    pub open spec fn spec_accepts_one(&self, command: Command) -> bool {
        match command {
            Command::EnableColorBufferFloat => true,
            Command::DisableBlend => true,
            Command::CreateBuffer { buffer } => !self.buffers.contains_key(buffer),
            Command::BindBuffer { buffer } => self.buffers.contains_key(buffer),
            Command::BufferData { corners } => self.array_buffer.is_some(),
            Command::VertexAttribPointer { index, size, stride, offset } => {
                &&& self.array_buffer.is_some()
                &&& 1 <= size <= 4
                &&& 0 <= stride
                &&& 0 <= offset
            },
            Command::EnableVertexAttribArray { index } => true,
            Command::ActiveTexture { unit } => unit < TEXTURE_UNITS,
            Command::CreateTexture { texture } => !self.textures.contains_key(texture),
            Command::BindTexture { texture } => self.textures.contains_key(texture),
            Command::TexParameter { parameter } => self.spec_texture_bound(),
            Command::TexImage2D { format, width, height, components } => {
                &&& self.spec_texture_bound()
                &&& components == width * height * 4
            },
            Command::DeleteTexture { texture } => self.textures.contains_key(texture),
            Command::CreateFramebuffer { framebuffer } => !self.framebuffers.contains_key(
                framebuffer,
            ),
            Command::BindFramebuffer { framebuffer } => match framebuffer {
                Some(framebuffer) => self.framebuffers.contains_key(framebuffer),
                None => true,
            },
            Command::FramebufferTexture2D { texture } => {
                &&& self.target matches Some(framebuffer)
                &&& self.framebuffers.contains_key(framebuffer)
                &&& self.textures.contains_key(texture)
            },
            Command::DeleteFramebuffer { framebuffer } => self.framebuffers.contains_key(
                framebuffer,
            ),
            Command::UseProgram { program } => true,
            Command::Uniform1i { location, value } => self.program.is_some(),
            Command::Uniform1f { location, value } => self.program.is_some()
                && value.spec_defined(),
            Command::Uniform2f { location, x, y } => {
                &&& self.program.is_some()
                &&& x.spec_defined()
                &&& y.spec_defined()
            },
            Command::Uniform3f { location, x, y, z } => {
                &&& self.program.is_some()
                &&& x.spec_defined()
                &&& y.spec_defined()
                &&& z.spec_defined()
            },
            Command::Viewport { width, height } => true,
            Command::ViewportDrawingBuffer => true,
            Command::ClearColor { red, green, blue, alpha } => {
                &&& red.spec_defined()
                &&& green.spec_defined()
                &&& blue.spec_defined()
                &&& alpha.spec_defined()
            },
            Command::Clear => self.spec_target_ready(),
            Command::DrawArrays { first, count } => {
                &&& self.program.is_some()
                &&& self.spec_quad_ready()
                &&& self.spec_target_ready()
                &&& self.spec_target_unread()
                &&& 0 <= first
                &&& 0 <= count
                &&& first + count <= 4
            },
        }
    }

    /// The state after the context has performed a call.
    pub open spec fn spec_after_one(self, command: Command) -> State {
        match command {
            Command::EnableColorBufferFloat => State { color_buffer_float: true, ..self },
            Command::CreateBuffer { buffer } => State {
                buffers: self.buffers.insert(buffer, None),
                ..self
            },
            Command::BindBuffer { buffer } => State { array_buffer: Some(buffer), ..self },
            Command::BufferData { corners } => State {
                buffers: self.buffers.insert(self.array_buffer.unwrap(), Some(corners)),
                ..self
            },
            Command::VertexAttribPointer { index, size, stride, offset } => State {
                pointers: self.pointers.insert(
                    index,
                    Pointer { buffer: self.array_buffer.unwrap(), size, stride, offset },
                ),
                ..self
            },
            Command::EnableVertexAttribArray { index } => State {
                enabled: self.enabled.insert(index),
                ..self
            },
            Command::ActiveTexture { unit } => State { active: unit, ..self },
            Command::CreateTexture { texture } => State {
                textures: self.textures.insert(texture, (0, 0)),
                ..self
            },
            Command::BindTexture { texture } => State {
                units: self.units.insert(self.active, texture),
                read: self.read.insert(self.active),
                ..self
            },
            Command::TexImage2D { format, width, height, components } => State {
                textures: self.textures.insert(self.units[self.active], (width, height)),
                ..self
            },
            Command::DeleteTexture { texture } => State {
                textures: self.textures.remove(texture),
                units: Map::new(
                    |unit: u32| self.units.contains_key(unit) && self.units[unit] != texture,
                    |unit: u32| self.units[unit],
                ),
                ..self
            },
            Command::CreateFramebuffer { framebuffer } => State {
                framebuffers: self.framebuffers.insert(framebuffer, None),
                ..self
            },
            Command::BindFramebuffer { framebuffer } => State { target: framebuffer, ..self },
            Command::FramebufferTexture2D { texture } => State {
                framebuffers: self.framebuffers.insert(self.target.unwrap(), Some(texture)),
                ..self
            },
            Command::DeleteFramebuffer { framebuffer } => State {
                framebuffers: self.framebuffers.remove(framebuffer),
                target: if self.target == Some(framebuffer) {
                    None
                } else {
                    self.target
                },
                ..self
            },
            Command::UseProgram { program } => State {
                program: Some(program),
                read: Set::empty(),
                ..self
            },
            Command::Viewport { width, height } => State {
                viewport: Some((width, height)),
                ..self
            },
            Command::ViewportDrawingBuffer => State { viewport: None, ..self },
            _ => self,
        }
    }

    /// Whether the context, from this state on, accepts every call of a record in turn.
    pub open spec fn spec_accepts(self, commands: Seq<Command>) -> bool
        decreases commands.len(),
    {
        if commands.len() == 0 {
            true
        } else {
            self.spec_accepts(commands.drop_last()) && self.spec_after(
                commands.drop_last(),
            ).spec_accepts_one(commands.last())
        }
    }

    /// The state after the context has performed the calls of a record in turn.
    pub open spec fn spec_after(self, commands: Seq<Command>) -> State
        decreases commands.len(),
    {
        if commands.len() == 0 {
            self
        } else {
            self.spec_after(commands.drop_last()).spec_after_one(commands.last())
        }
    }

    /// Whether the state has the same objects as another, with the same contents and set
    /// up alike: the two differ at most in what is bound and current.
    pub open spec fn spec_same_objects(&self, other: State) -> bool {
        &&& self.color_buffer_float == other.color_buffer_float
        &&& self.textures == other.textures
        &&& self.framebuffers == other.framebuffers
        &&& self.buffers == other.buffers
        &&& self.pointers == other.pointers
        &&& self.enabled == other.enabled
    }

    /// Whether the state is another with one more render target, as it was made, and all
    /// other objects and the current program as they were.
    pub open spec fn spec_made(&self, before: State, target: TextureFramebuffer) -> bool {
        &&& self.color_buffer_float == before.color_buffer_float
        &&& self.textures =~= before.textures.insert(
            target.texture,
            (target.width, target.height),
        )
        &&& self.framebuffers =~= before.framebuffers.insert(
            target.framebuffer,
            Some(target.texture),
        )
        &&& self.buffers == before.buffers
        &&& self.pointers == before.pointers
        &&& self.enabled == before.enabled
        &&& self.program == before.program
    }

    /// Whether the state is another without a render target that it had, and all other
    /// objects and the current program as they were.
    pub open spec fn spec_released(&self, before: State, target: TextureFramebuffer) -> bool {
        &&& self.color_buffer_float == before.color_buffer_float
        &&& self.textures =~= before.textures.remove(target.texture)
        &&& self.framebuffers =~= before.framebuffers.remove(target.framebuffer)
        &&& self.buffers == before.buffers
        &&& self.pointers == before.pointers
        &&& self.enabled == before.enabled
        &&& self.program == before.program
    }

    /// Whether the state is another with one render target in place of another that it
    /// had, and all other objects as they were.
    pub open spec fn spec_exchanged(
        &self,
        before: State,
        old: TextureFramebuffer,
        fresh: TextureFramebuffer,
    ) -> bool {
        &&& self.color_buffer_float == before.color_buffer_float
        &&& self.textures =~= before.textures.remove(old.texture).insert(
            fresh.texture,
            (fresh.width, fresh.height),
        )
        &&& self.framebuffers =~= before.framebuffers.remove(old.framebuffer).insert(
            fresh.framebuffer,
            Some(fresh.texture),
        )
        &&& self.buffers == before.buffers
        &&& self.pointers == before.pointers
        &&& self.enabled == before.enabled
    }

    /// Whether a render target is as it was made: its texture is live and has the
    /// target's extent, and its framebuffer is live and has the texture attached.
    pub open spec fn spec_has(&self, target: TextureFramebuffer) -> bool {
        &&& self.textures.contains_key(target.texture)
        &&& self.textures[target.texture] == (target.width, target.height)
        &&& self.framebuffers.contains_key(target.framebuffer)
        &&& self.framebuffers[target.framebuffer] == Some(target.texture)
    }

    /// Whether passes can be drawn into render targets: floating-point textures can be
    /// rendered to, and the full-screen quad is set up.
    pub open spec fn spec_ready(&self) -> bool {
        self.color_buffer_float && self.spec_quad_ready()
    }
}

/// The context accepts two records in a row exactly when it accepts the first and, in
/// the state after it, the second; the state after both is the state after the second
/// from the state after the first.
pub proof fn lemma_accepts_add(state: State, head: Seq<Command>, tail: Seq<Command>)
    ensures
        state.spec_accepts(head + tail) == (state.spec_accepts(head) && state.spec_after(
            head,
        ).spec_accepts(tail)),
        state.spec_after(head + tail) == state.spec_after(head).spec_after(tail),
    decreases tail.len(),
{
    if tail.len() == 0 {
        assert(head + tail =~= head);
    } else {
        assert((head + tail).drop_last() =~= head + tail.drop_last());
        lemma_accepts_add(state, head, tail.drop_last());
    }
}

/// The context accepts a record of one call exactly when it accepts the call.
pub proof fn lemma_accepts_one(state: State, command: Command)
    ensures
        state.spec_accepts(seq![command]) == state.spec_accepts_one(command),
        state.spec_after(seq![command]) == state.spec_after_one(command),
{
    reveal_with_fuel(State::spec_accepts, 2);
    reveal_with_fuel(State::spec_after, 2);
    assert(seq![command].drop_last() =~= Seq::<Command>::empty());
}

} // verus!
