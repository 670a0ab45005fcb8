use vstd::prelude::*;
use crate::context::{
    lemma_extends_by_nothing, lemma_extends_twice, Command, Context, Filter, Scalar, TexParameter,
    TexelFormat,
};
use crate::error::Error;
use crate::shader_program::ShaderProgram;
use crate::shaders::Uniform;
use crate::Renderer;

verus! {

/// The highest number of texture units that can be bound to.
pub const TEXTURE_UNITS: u32 = 32;

/// A render target: a texture and the framebuffer that it is the one colour attachment
/// of, both of a fixed extent.
#[derive(Clone, Copy, Debug, PartialEq, Eq)]
pub struct TextureFramebuffer {
    pub texture: u64,
    pub framebuffer: u64,
    pub width: u32,
    pub height: u32,
}

impl TextureFramebuffer {
    /// Whether a render target of this extent can be made: both sides are positive and fit
    /// the GPU's signed sizes, and the four components of all texels can be counted in 32
    /// bits.
    pub open spec fn allocatable(width: u32, height: u32) -> bool {
        &&& 0 < width <= i32::MAX
        &&& 0 < height <= i32::MAX
        &&& width * height * 4 <= u32::MAX
    }

    /// Whether the render target is valid: it has an extent that can be made, and two
    /// handles.
    pub open spec fn wf(&self) -> bool {
        &&& Self::allocatable(self.width, self.height)
        &&& self.texture != self.framebuffer
    }

    /// Whether the render target shares no handle with `other`.
    pub open spec fn apart(&self, other: &TextureFramebuffer) -> bool {
        &&& self.texture != other.texture
        &&& self.texture != other.framebuffer
        &&& self.framebuffer != other.texture
        &&& self.framebuffer != other.framebuffer
    }

    /// Whether both handles are below `next`: a context that gives out `next` next has
    /// given them out.
    pub open spec fn below(&self, next: u64) -> bool {
        self.texture < next && self.framebuffer < next
    }

    /// The extent of the render target.
    pub open spec fn extent(&self) -> (u32, u32) {
        (self.width, self.height)
    }

    /// The render target of the given extent that takes the two handles from `first` on.
    pub open spec fn spec_new(first: u64, width: u32, height: u32) -> TextureFramebuffer {
        TextureFramebuffer { texture: first, framebuffer: (first + 1) as u64, width, height }
    }

    /// The calls that make the render target: on unit 0, a texture with the given filter
    /// for minification and magnification, clamped to its edge on both axes and filled with
    /// zeros, and a framebuffer with that texture attached.
    pub open spec fn spec_create(&self, param: Filter, format: TexelFormat) -> Seq<Command> {
        seq![
            Command::ActiveTexture { unit: 0 },
            Command::CreateTexture { texture: self.texture },
            Command::BindTexture { texture: self.texture },
            Command::TexParameter { parameter: TexParameter::MinFilter(param) },
            Command::TexParameter { parameter: TexParameter::MagFilter(param) },
            Command::TexParameter { parameter: TexParameter::WrapSClampToEdge },
            Command::TexParameter { parameter: TexParameter::WrapTClampToEdge },
            Command::TexImage2D {
                format,
                width: self.width,
                height: self.height,
                components: (self.width * self.height * 4) as u32,
            },
            Command::CreateFramebuffer { framebuffer: self.framebuffer },
            Command::BindFramebuffer { framebuffer: Some(self.framebuffer) },
            Command::FramebufferTexture2D { texture: self.texture },
        ]
    }

    /// The calls that bind the texture to a unit.
    pub open spec fn spec_bind(&self, id: u32) -> Seq<Command> {
        seq![Command::ActiveTexture { unit: id }, Command::BindTexture { texture: self.texture }]
    }

    /// The calls that release the texture and the framebuffer.
    pub open spec fn spec_delete(&self) -> Seq<Command> {
        seq![
            Command::DeleteTexture { texture: self.texture },
            Command::DeleteFramebuffer { framebuffer: self.framebuffer },
        ]
    }

    /// Whether a render target of this extent can be made.
    pub fn can_allocate(width: u32, height: u32) -> (possible: bool)
        ensures
            possible == Self::allocatable(width, height),
    {
        Self::components(width, height).is_some()
    }

    /// The render target that a scratch target is after it was given the extent: itself
    /// where it has the extent, else a new one under the two handles from `first` on.
    pub open spec fn spec_replaced(
        self,
        first: u64,
        width: u32,
        height: u32,
    ) -> TextureFramebuffer {
        if self.extent() == (width, height) {
            self
        } else {
            Self::spec_new(first, width, height)
        }
    }

    /// Whether a scratch target can be given the extent on a context: it has the extent, or
    /// the extent can be made and the context has two handles left.
    pub open spec fn spec_replaceable(&self, gl: Context, width: u32, height: u32) -> bool {
        self.extent() == (width, height) || (Self::allocatable(width, height) && gl.has_handles(
            2,
        ))
    }

    /// The handles that giving a scratch target the extent takes.
    pub open spec fn spec_replace_handles(&self, width: u32, height: u32) -> nat {
        if self.extent() == (width, height) {
            0
        } else {
            2
        }
    }

    /// The calls that give a scratch target the extent: none where it has the extent;
    /// else it is released and a new one is made, whose content starts from zero.
    pub open spec fn spec_replace(
        &self,
        first: u64,
        width: u32,
        height: u32,
        param: Filter,
        format: TexelFormat,
    ) -> Seq<Command> {
        if self.extent() == (width, height) {
            Seq::<Command>::empty()
        } else {
            self.spec_delete() + Self::spec_new(first, width, height).spec_create(param, format)
        }
    }

    /// Counts the components of a render target's texels, where the extent can be made.
    fn components(width: u32, height: u32) -> (count: Option<u32>)
        ensures
            Self::allocatable(width, height) <==> count.is_some(),
            count matches Some(n) ==> n == width * height * 4,
    {
        if width == 0 || height == 0 || width > i32::MAX as u32 || height > i32::MAX as u32 {
            return None;
        }
        match width.checked_mul(height) {
            Some(texels) => texels.checked_mul(4),
            None => None,
        }
    }

    pub(crate) fn new(
        gl: &mut Context,
        width: u32,
        height: u32,
        param: Filter,
        format: TexelFormat,
    ) -> (result: Result<TextureFramebuffer, Error>)
        ensures
            result.is_ok() <==> Self::allocatable(width, height) && old(gl).has_handles(2),
            result matches Ok(target) ==> {
                &&& target == Self::spec_new(old(gl).next_handle, width, height)
                &&& target.wf()
                &&& final(gl).extends(*old(gl), target.spec_create(param, format), 2)
            },
            result matches Err(error) ==> error == Error::GpuResource && final(gl).same_as(
                *old(gl),
            ),
    {
        let components = match Self::components(width, height) {
            Some(components) => components,
            None => {
                return Err(Error::GpuResource);
            },
        };
        let texture = match gl.reserve(2) {
            Some(first) => first,
            None => {
                return Err(Error::GpuResource);
            },
        };
        let framebuffer = texture + 1;
        let target = TextureFramebuffer { texture, framebuffer, width, height };

        gl.push(Command::ActiveTexture { unit: 0 });
        gl.push(Command::CreateTexture { texture });
        gl.push(Command::BindTexture { texture });

        gl.push(Command::TexParameter { parameter: TexParameter::MinFilter(param) });
        gl.push(Command::TexParameter { parameter: TexParameter::MagFilter(param) });
        gl.push(Command::TexParameter { parameter: TexParameter::WrapSClampToEdge });
        gl.push(Command::TexParameter { parameter: TexParameter::WrapTClampToEdge });

        gl.push(Command::TexImage2D { format, width, height, components });

        gl.push(Command::CreateFramebuffer { framebuffer });
        gl.push(Command::BindFramebuffer { framebuffer: Some(framebuffer) });
        gl.push(Command::FramebufferTexture2D { texture });

        assert(gl@ =~= old(gl)@ + target.spec_create(param, format));
        Ok(target)
    }

    /// Makes a render target on a context of the older API generation, with half-float
    /// texels through the half-float extension.
    ///
    /// It succeeds exactly when the extent can be made and the context has two handles
    /// left. The target then takes the next two handles, and the calls that make it are
    /// appended to the record. Otherwise the context is left as it was.
    pub fn new_webgl(
        gl: &mut Context,
        width: u32,
        height: u32,
        param: Filter,
    ) -> (result: Result<TextureFramebuffer, Error>)
        ensures
            result.is_ok() <==> Self::allocatable(width, height) && old(gl).has_handles(2),
            result matches Ok(target) ==> {
                &&& target == Self::spec_new(old(gl).next_handle, width, height)
                &&& target.wf()
                &&& final(gl).extends(
                    *old(gl),
                    target.spec_create(param, TexelFormat::RgbaHalfFloatOes),
                    2,
                )
            },
            result matches Err(error) ==> error == Error::GpuResource && final(gl).same_as(
                *old(gl),
            ),
    {
        Self::new(gl, width, height, param, TexelFormat::RgbaHalfFloatOes)
    }

    /// Makes a render target on a context of the newer API generation, with sized
    /// half-float texels, as [`TextureFramebuffer::new_webgl`] does on the older.
    pub fn new_webgl2(
        gl: &mut Context,
        width: u32,
        height: u32,
        param: Filter,
    ) -> (result: Result<TextureFramebuffer, Error>)
        ensures
            result.is_ok() <==> Self::allocatable(width, height) && old(gl).has_handles(2),
            result matches Ok(target) ==> {
                &&& target == Self::spec_new(old(gl).next_handle, width, height)
                &&& target.wf()
                &&& final(gl).extends(*old(gl), target.spec_create(param, TexelFormat::Rgba16f), 2)
            },
            result matches Err(error) ==> error == Error::GpuResource && final(gl).same_as(
                *old(gl),
            ),
    {
        Self::new(gl, width, height, param, TexelFormat::Rgba16f)
    }

    pub(crate) fn bind(&self, gl: &mut Context, id: u32) -> (result: Result<i32, Error>)
        ensures
            id >= TEXTURE_UNITS ==> result == Err::<i32, Error>(
                Error::InvalidTextureUnit,
            ) && final(gl).same_as(*old(gl)),
            id < TEXTURE_UNITS ==> result == Ok::<i32, Error>(id as i32) && final(gl).extends(
                *old(gl),
                self.spec_bind(id),
                0,
            ),
    {
        if id >= TEXTURE_UNITS {
            return Err(Error::InvalidTextureUnit);
        }
        gl.push(Command::ActiveTexture { unit: id });
        gl.push(Command::BindTexture { texture: self.texture });

        assert(gl@ =~= old(gl)@ + self.spec_bind(id));
        Ok(id as i32)
    }

    /// Binds the texture to unit `id` on a context of the older API generation and returns
    /// the unit, for a sampler uniform to be set to.
    ///
    /// A unit of 32 or above is refused, and the context is left as it was.
    pub fn bind_webgl(&self, gl: &mut Context, id: u32) -> (result: Result<i32, Error>)
        ensures
            id >= TEXTURE_UNITS ==> result == Err::<i32, Error>(
                Error::InvalidTextureUnit,
            ) && final(gl).same_as(*old(gl)),
            id < TEXTURE_UNITS ==> result == Ok::<i32, Error>(id as i32) && final(gl).extends(
                *old(gl),
                self.spec_bind(id),
                0,
            ),
    {
        self.bind(gl, id)
    }

    /// Binds the texture to unit `id` on a context of the newer API generation, as
    /// [`TextureFramebuffer::bind_webgl`] does on the older.
    pub fn bind_webgl2(&self, gl: &mut Context, id: u32) -> (result: Result<i32, Error>)
        ensures
            id >= TEXTURE_UNITS ==> result == Err::<i32, Error>(
                Error::InvalidTextureUnit,
            ) && final(gl).same_as(*old(gl)),
            id < TEXTURE_UNITS ==> result == Ok::<i32, Error>(id as i32) && final(gl).extends(
                *old(gl),
                self.spec_bind(id),
                0,
            ),
    {
        self.bind(gl, id)
    }

    pub(crate) fn delete(&self, gl: &mut Context)
        ensures
            final(gl).extends(*old(gl), self.spec_delete(), 0),
    {
        gl.push(Command::DeleteTexture { texture: self.texture });
        gl.push(Command::DeleteFramebuffer { framebuffer: self.framebuffer });
        assert(gl@ =~= old(gl)@ + self.spec_delete());
    }

    /// Releases the texture and the framebuffer on a context of the older API generation.
    /// The render target must not be used afterwards.
    pub fn delete_webgl(&self, gl: &mut Context)
        ensures
            final(gl).extends(*old(gl), self.spec_delete(), 0),
    {
        self.delete(gl)
    }

    /// Releases the texture and the framebuffer on a context of the newer API generation.
    /// The render target must not be used afterwards.
    pub fn delete_webgl2(&self, gl: &mut Context)
        ensures
            final(gl).extends(*old(gl), self.spec_delete(), 0),
    {
        self.delete(gl)
    }

    /// Gives a scratch target the extent: where it has another, it is released and
    /// replaced by a new one, whose content starts from zero.
    ///
    /// It succeeds exactly when the target has the extent, or the extent can be made and
    /// the context has two handles left. Where it fails, the target and the context are
    /// left as they were.
    pub fn replace(
        &mut self,
        gl: &mut Context,
        width: u32,
        height: u32,
        param: Filter,
        format: TexelFormat,
    ) -> (result: Result<(), Error>)
        ensures
            result.is_ok() <==> old(self).spec_replaceable(*old(gl), width, height),
            old(self).extent() == (width, height) ==> final(gl).same_as(*old(gl)),
            result.is_ok() ==> {
                &&& *final(self) == old(self).spec_replaced(old(gl).next_handle, width, height)
                &&& final(gl).extends(
                    *old(gl),
                    old(self).spec_replace(old(gl).next_handle, width, height, param, format),
                    old(self).spec_replace_handles(width, height),
                )
            },
            result matches Err(error) ==> {
                &&& error == Error::GpuResource
                &&& *final(self) == *old(self)
                &&& final(gl).same_as(*old(gl))
            },
            old(self).wf() ==> final(self).wf(),
    {
        if width == self.width && height == self.height {
            proof {
                lemma_extends_by_nothing(*old(gl), *gl);
            }
            return Ok(());
        }
        if !TextureFramebuffer::can_allocate(width, height) || gl.next_handle > u64::MAX - 2 {
            return Err(Error::GpuResource);
        }
        self.delete(gl);
        let ghost deleted = *gl;
        let fresh = TextureFramebuffer::new(gl, width, height, param, format)?;
        proof {
            lemma_extends_twice(
                *old(gl),
                deleted,
                *gl,
                old(self).spec_delete(),
                fresh.spec_create(param, format),
                0,
                2,
            );
        }
        *self = fresh;
        Ok(())
    }

    /// The handle of the framebuffer.
    pub fn buffer(&self) -> (framebuffer: u64)
        ensures
            framebuffer == self.framebuffer,
    {
        self.framebuffer
    }

    /// The width in texels.
    pub fn width(&self) -> (width: u32)
        ensures
            width == self.width,
    {
        self.width
    }

    /// The height in texels.
    pub fn height(&self) -> (height: u32)
        ensures
            height == self.height,
    {
        self.height
    }
}

/// Two render targets of one extent and filter, one that holds the current value of a
/// field and is read, and one that the next value is written to.
#[derive(Clone, Copy, Debug, PartialEq, Eq)]
pub struct RWTextureBuffer {
    pub read: TextureFramebuffer,
    pub write: TextureFramebuffer,
    pub param: Filter,
}

impl RWTextureBuffer {
    /// Whether the pair is valid: both targets are, they have one extent, and they share
    /// no handle.
    pub open spec fn wf(&self) -> bool {
        &&& self.read.wf()
        &&& self.write.wf()
        &&& self.read.width == self.write.width
        &&& self.read.height == self.write.height
        &&& self.read.apart(&self.write)
    }

    /// Whether the pair shares no handle with the render target `other`.
    pub open spec fn apart(&self, other: &TextureFramebuffer) -> bool {
        self.read.apart(other) && self.write.apart(other)
    }

    /// Whether the pair shares no handle with the pair `other`.
    pub open spec fn apart_from(&self, other: &RWTextureBuffer) -> bool {
        self.apart(&other.read) && self.apart(&other.write)
    }

    /// Whether all four handles are below `next`.
    pub open spec fn below(&self, next: u64) -> bool {
        self.read.below(next) && self.write.below(next)
    }

    /// The extent of the pair: that of the target that is read.
    pub open spec fn extent(&self) -> (u32, u32) {
        (self.read.width, self.read.height)
    }

    /// The pair after its roles were exchanged `count` times.
    pub open spec fn spec_swaps(self, count: nat) -> RWTextureBuffer {
        if count % 2 == 0 {
            self
        } else {
            self.spec_swap()
        }
    }

    /// The pair of the given extent and filter that takes the four handles from `first` on.
    pub open spec fn spec_new(
        first: u64,
        width: u32,
        height: u32,
        param: Filter,
    ) -> RWTextureBuffer {
        RWTextureBuffer {
            read: TextureFramebuffer::spec_new(first, width, height),
            write: TextureFramebuffer::spec_new((first + 2) as u64, width, height),
            param,
        }
    }

    /// The calls that make the pair: the target that is read, then the one that is written.
    pub open spec fn spec_create(&self, format: TexelFormat) -> Seq<Command> {
        self.read.spec_create(self.param, format) + self.write.spec_create(self.param, format)
    }

    /// The pair with the roles of its targets exchanged.
    pub open spec fn spec_swap(self) -> RWTextureBuffer {
        RWTextureBuffer { read: self.write, write: self.read, param: self.param }
    }

    /// The filter that a pair gets where none is asked for.
    pub open spec fn spec_param(param: Option<Filter>) -> Filter {
        match param {
            Some(param) => param,
            None => Filter::Linear,
        }
    }

    pub(crate) fn new(
        gl: &mut Context,
        width: u32,
        height: u32,
        param: Option<Filter>,
        format: TexelFormat,
    ) -> (result: Result<RWTextureBuffer, Error>)
        ensures
            result.is_ok() <==> TextureFramebuffer::allocatable(width, height) && old(
                gl,
            ).has_handles(4),
            result matches Ok(buffer) ==> {
                &&& buffer == Self::spec_new(
                    old(gl).next_handle,
                    width,
                    height,
                    Self::spec_param(param),
                )
                &&& buffer.wf()
                &&& final(gl).extends(*old(gl), buffer.spec_create(format), 4)
            },
            result matches Err(error) ==> error == Error::GpuResource && final(gl).same_as(
                *old(gl),
            ),
    {
        let param = match param {
            Some(param) => param,
            None => Filter::Linear,
        };
        if gl.next_handle > u64::MAX - 4 {
            return Err(Error::GpuResource);
        }
        let read = TextureFramebuffer::new(gl, width, height, param, format)?;
        let write = TextureFramebuffer::new(gl, width, height, param, format)?;

        let buffer = RWTextureBuffer { read, write, param };
        assert(gl@ =~= old(gl)@ + buffer.spec_create(format));
        Ok(buffer)
    }

    /// Makes a pair of render targets on a context of the older API generation. Without a
    /// filter the targets are sampled linearly.
    ///
    /// It succeeds exactly when the extent can be made and the context has four handles
    /// left. The pair then takes the next four handles, and the calls that make its two
    /// targets are appended to the record. Otherwise the context is left as it was.
    pub fn new_webgl(
        gl: &mut Context,
        width: u32,
        height: u32,
        param: Option<Filter>,
    ) -> (result: Result<RWTextureBuffer, Error>)
        ensures
            result.is_ok() <==> TextureFramebuffer::allocatable(width, height) && old(
                gl,
            ).has_handles(4),
            result matches Ok(buffer) ==> {
                &&& buffer == Self::spec_new(
                    old(gl).next_handle,
                    width,
                    height,
                    Self::spec_param(param),
                )
                &&& buffer.wf()
                &&& final(gl).extends(
                    *old(gl),
                    buffer.spec_create(TexelFormat::RgbaHalfFloatOes),
                    4,
                )
            },
            result matches Err(error) ==> error == Error::GpuResource && final(gl).same_as(
                *old(gl),
            ),
    {
        Self::new(gl, width, height, param, TexelFormat::RgbaHalfFloatOes)
    }

    /// Makes a pair of render targets on a context of the newer API generation, as
    /// [`RWTextureBuffer::new_webgl`] does on the older.
    pub fn new_webgl2(
        gl: &mut Context,
        width: u32,
        height: u32,
        param: Option<Filter>,
    ) -> (result: Result<RWTextureBuffer, Error>)
        ensures
            result.is_ok() <==> TextureFramebuffer::allocatable(width, height) && old(
                gl,
            ).has_handles(4),
            result matches Ok(buffer) ==> {
                &&& buffer == Self::spec_new(
                    old(gl).next_handle,
                    width,
                    height,
                    Self::spec_param(param),
                )
                &&& buffer.wf()
                &&& final(gl).extends(*old(gl), buffer.spec_create(TexelFormat::Rgba16f), 4)
            },
            result matches Err(error) ==> error == Error::GpuResource && final(gl).same_as(
                *old(gl),
            ),
    {
        Self::new(gl, width, height, param, TexelFormat::Rgba16f)
    }

    /// Whether a resize to the given extent leaves the pair alone: the extent is the one
    /// that the target that is read has.
    pub open spec fn spec_keeps(&self, width: u32, height: u32) -> bool {
        width == self.read.width && height == self.read.height
    }

    /// The calls of the pass that carries a field over into a new target: with the copy
    /// program, scaled by 1 and offset by 0, `source` is sampled on unit 0 into all of
    /// `target`.
    pub open spec fn spec_copy(
        copy_program: &ShaderProgram,
        source: &TextureFramebuffer,
        target: &TextureFramebuffer,
    ) -> Seq<Command> {
        copy_program.spec_bind() + copy_program.spec_uniform1f(Uniform::Factor, Scalar::whole(1))
            + copy_program.spec_uniform1f(Uniform::Offset, Scalar::whole(0))
            + copy_program.spec_sampler(Uniform::Texture, *source, 0) + Renderer::spec_blit(
            Some(target),
            None,
        )
    }

    /// The pair after a resize to the extent: itself where it has the extent, else a new
    /// pair of its filter under the four handles from `first` on.
    pub open spec fn spec_resized(self, first: u64, width: u32, height: u32) -> RWTextureBuffer {
        if self.spec_keeps(width, height) {
            self
        } else {
            Self::spec_new(first, width, height, self.param)
        }
    }

    /// Whether a resize to the extent can be done on a context: the pair has the extent,
    /// or the extent can be made and the context has four handles left.
    pub open spec fn spec_resizable(&self, gl: Context, width: u32, height: u32) -> bool {
        self.spec_keeps(width, height) || (TextureFramebuffer::allocatable(width, height)
            && gl.has_handles(4))
    }

    /// The handles that a resize to the extent takes.
    pub open spec fn spec_resize_handles(&self, width: u32, height: u32) -> nat {
        if self.spec_keeps(width, height) {
            0
        } else {
            4
        }
    }

    /// The calls of a resize to the extent: none where the pair has the extent, else those
    /// that replace it by a new pair.
    pub open spec fn spec_resize_to(
        &self,
        first: u64,
        copy_program: Option<&ShaderProgram>,
        width: u32,
        height: u32,
        format: TexelFormat,
    ) -> Seq<Command> {
        if self.spec_keeps(width, height) {
            Seq::<Command>::empty()
        } else {
            self.spec_resize(
                Self::spec_new(first, width, height, self.param),
                copy_program,
                format,
            )
        }
    }

    /// The calls of a resize that replaces the pair by `fresh`: the two new targets are
    /// made; with a copy program, what the old pair holds is carried over into the new
    /// target that is read; then the old targets are released.
    pub open spec fn spec_resize(
        &self,
        fresh: RWTextureBuffer,
        copy_program: Option<&ShaderProgram>,
        format: TexelFormat,
    ) -> Seq<Command> {
        fresh.spec_create(format) + (match copy_program {
            Some(copy_program) => Self::spec_copy(copy_program, &self.read, &fresh.read),
            None => Seq::<Command>::empty(),
        }) + self.read.spec_delete() + self.write.spec_delete()
    }

    pub(crate) fn resize(
        &mut self,
        gl: &mut Context,
        copy_program: Option<&ShaderProgram>,
        width: u32,
        height: u32,
        format: TexelFormat,
    ) -> (result: Result<(), Error>)
        ensures
            result.is_ok() <==> old(self).spec_resizable(*old(gl), width, height),
            old(self).spec_keeps(width, height) ==> final(gl).same_as(*old(gl)),
            result.is_ok() ==> {
                &&& *final(self) == old(self).spec_resized(old(gl).next_handle, width, height)
                &&& final(gl).extends(
                    *old(gl),
                    old(self).spec_resize_to(
                        old(gl).next_handle,
                        copy_program,
                        width,
                        height,
                        format,
                    ),
                    old(self).spec_resize_handles(width, height),
                )
            },
            result matches Err(error) ==> {
                &&& error == Error::GpuResource
                &&& *final(self) == *old(self)
                &&& final(gl).same_as(*old(gl))
            },
            old(self).wf() ==> final(self).wf(),
    {
        if width == self.read.width && height == self.read.height {
            proof {
                lemma_extends_by_nothing(*old(gl), *gl);
            }
            return Ok(());
        }
        let new_buffer = RWTextureBuffer::new(gl, width, height, Some(self.param), format)?;
        let ghost created = gl@;

        // COPY
        if let Some(copy_program) = copy_program {
            copy_program.bind(gl);
            copy_program.uniform1f(gl, Uniform::Factor, Scalar::integer(1));
            copy_program.uniform1f(gl, Uniform::Offset, Scalar::integer(0));
            copy_program.sampler(gl, Uniform::Texture, &self.read, 0)?;

            Renderer::blit(gl, Some(&new_buffer.read), None);
            assert(gl@ =~= created + Self::spec_copy(copy_program, &self.read, &new_buffer.read));
        }
        let ghost copied = gl@;

        // DELETE AND SET
        self.read.delete(gl);
        self.write.delete(gl);
        assert(gl@ =~= copied + self.read.spec_delete() + self.write.spec_delete());
        assert(gl@ =~= old(gl)@ + self.spec_resize(new_buffer, copy_program, format));

        self.read = new_buffer.read;
        self.write = new_buffer.write;

        Ok(())
    }

    /// Gives the pair a new extent on a context of the older API generation.
    ///
    /// Where the extent is the one that the pair has, nothing happens: no call is
    /// recorded and the targets stay. Otherwise the resize succeeds exactly when the
    /// extent can be made and the context has four handles left: two new targets of the
    /// pair's filter are made under the next four handles; with a copy program, a
    /// full-screen pass samples the old target that is read into the new one; the old
    /// targets are released; and the pair holds the new ones. Where it fails, the pair and
    /// the context are left as they were.
    pub fn resize_webgl(
        &mut self,
        gl: &mut Context,
        copy_program: Option<&ShaderProgram>,
        width: u32,
        height: u32,
    ) -> (result: Result<(), Error>)
        ensures
            result.is_ok() <==> old(self).spec_resizable(*old(gl), width, height),
            old(self).spec_keeps(width, height) ==> final(gl).same_as(*old(gl)),
            result.is_ok() ==> {
                &&& *final(self) == old(self).spec_resized(old(gl).next_handle, width, height)
                &&& final(gl).extends(
                    *old(gl),
                    old(self).spec_resize_to(
                        old(gl).next_handle,
                        copy_program,
                        width,
                        height,
                        TexelFormat::RgbaHalfFloatOes,
                    ),
                    old(self).spec_resize_handles(width, height),
                )
            },
            result matches Err(error) ==> {
                &&& error == Error::GpuResource
                &&& *final(self) == *old(self)
                &&& final(gl).same_as(*old(gl))
            },
            old(self).wf() ==> final(self).wf(),
    {
        self.resize(gl, copy_program, width, height, TexelFormat::RgbaHalfFloatOes)
    }

    /// Gives the pair a new extent on a context of the newer API generation, as
    /// [`RWTextureBuffer::resize_webgl`] does on the older.
    pub fn resize_webgl2(
        &mut self,
        gl: &mut Context,
        copy_program: Option<&ShaderProgram>,
        width: u32,
        height: u32,
    ) -> (result: Result<(), Error>)
        ensures
            result.is_ok() <==> old(self).spec_resizable(*old(gl), width, height),
            old(self).spec_keeps(width, height) ==> final(gl).same_as(*old(gl)),
            result.is_ok() ==> {
                &&& *final(self) == old(self).spec_resized(old(gl).next_handle, width, height)
                &&& final(gl).extends(
                    *old(gl),
                    old(self).spec_resize_to(
                        old(gl).next_handle,
                        copy_program,
                        width,
                        height,
                        TexelFormat::Rgba16f,
                    ),
                    old(self).spec_resize_handles(width, height),
                )
            },
            result matches Err(error) ==> {
                &&& error == Error::GpuResource
                &&& *final(self) == *old(self)
                &&& final(gl).same_as(*old(gl))
            },
            old(self).wf() ==> final(self).wf(),
    {
        self.resize(gl, copy_program, width, height, TexelFormat::Rgba16f)
    }

    /// Exchanges the roles of the two targets. No call is made on the GPU.
    pub fn swap(&mut self)
        ensures
            *final(self) == old(self).spec_swap(),
    {
        std::mem::swap(&mut self.read, &mut self.write);
    }

    /// The target that holds the current value.
    pub fn read(&self) -> (target: &TextureFramebuffer)
        ensures
            *target == self.read,
    {
        &self.read
    }

    /// The target that the next value is written to.
    pub fn write(&self) -> (target: &TextureFramebuffer)
        ensures
            *target == self.write,
    {
        &self.write
    }
}

} // verus!
