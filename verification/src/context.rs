use vstd::prelude::*;

verus! {

/// A single-precision IEEE-754 number in its bit encoding.
///
/// The core hands such numbers on from its caller to the GPU and never computes on them.
#[derive(Clone, Copy, Debug, PartialEq, Eq)]
pub struct Single {
    pub bits: u32,
}

impl Single {
    /// The number with the given encoding.
    pub fn from_bits(bits: u32) -> (number: Single)
        ensures
            number.bits == bits,
    {
        Single { bits }
    }

    /// The encoding of the number.
    pub fn to_bits(self) -> (bits: u32)
        ensures
            bits == self.bits,
    {
        self.bits
    }

    /// Positive zero, whose encoding is all zero bits.
    pub fn zero() -> (number: Single)
        ensures
            number.bits == 0,
    {
        Single { bits: 0 }
    }
}

/// A colour by its red, green and blue parts.
#[derive(Clone, Copy, Debug, PartialEq, Eq)]
pub struct Color {
    pub red: Single,
    pub green: Single,
    pub blue: Single,
}

impl Color {
    /// The colour whose parts are all positive zero.
    pub open spec fn spec_black() -> Color {
        Color { red: Single { bits: 0 }, green: Single { bits: 0 }, blue: Single { bits: 0 } }
    }

    /// The colour whose parts are the first three of the numbers.
    pub open spec fn spec_of(parts: Seq<Single>) -> Color {
        Color { red: parts[0], green: parts[1], blue: parts[2] }
    }

    /// The colour whose parts are all positive zero.
    pub fn black() -> (color: Color)
        ensures
            color == Self::spec_black(),
    {
        Color { red: Single::zero(), green: Single::zero(), blue: Single::zero() }
    }
}

/// The time step of a frame, described by the two instants that it lies between: the
/// smaller of one thirtieth of a second (0.0333333) and `now - last`.
#[derive(Clone, Copy, Debug, PartialEq, Eq)]
pub struct TimeStep {
    pub now: Single,
    pub last: Single,
}

/// A number handed to the GPU, described rather than computed.
///
/// Whoever plays a record back evaluates each description in single precision, as its
/// variant says.
#[derive(Clone, Copy, Debug, PartialEq, Eq)]
pub enum Scalar {
    /// `numerator / denominator`, known exactly.
    Ratio { numerator: i64, denominator: u32 },
    /// `value / divisor`.
    Quotient { value: Single, divisor: u32 },
    /// `value * value / divisor`.
    SquareQuotient { value: Single, divisor: u32 },
    /// The time step.
    Step { step: TimeStep },
    /// The implicit damping factor `1 / (1 + rate * step)`.
    Damping { rate: Single, step: TimeStep },
}

impl Scalar {
    /// Whether the description has a value: nothing is divided by zero.
    pub open spec fn spec_defined(self) -> bool {
        match self {
            Scalar::Ratio { numerator, denominator } => denominator > 0,
            Scalar::Quotient { value, divisor } => divisor > 0,
            Scalar::SquareQuotient { value, divisor } => divisor > 0,
            Scalar::Step { step } => true,
            Scalar::Damping { rate, step } => true,
        }
    }

    /// The whole number `value`.
    pub open spec fn whole(value: int) -> Scalar {
        Scalar::Ratio { numerator: value as i64, denominator: 1 }
    }

    /// The caller's number `value` itself.
    pub open spec fn of(value: Single) -> Scalar {
        Scalar::Quotient { value, divisor: 1 }
    }

    /// The whole number `value`.
    pub fn integer(value: i64) -> (scalar: Scalar)
        ensures
            scalar == Scalar::whole(value as int),
    {
        Scalar::Ratio { numerator: value, denominator: 1 }
    }

    /// The caller's number `value` itself.
    pub fn value(value: Single) -> (scalar: Scalar)
        ensures
            scalar == Scalar::of(value),
    {
        Scalar::Quotient { value, divisor: 1 }
    }
}

/// How a texture is sampled between texels.
#[derive(Clone, Copy, Debug, PartialEq, Eq)]
pub enum Filter {
    Nearest,
    Linear,
}

/// The texel storage of a render target, which differs between the two API generations.
#[derive(Clone, Copy, Debug, PartialEq, Eq)]
pub enum TexelFormat {
    /// RGBA with half-float components through the half-float texture extension (the older
    /// generation).
    RgbaHalfFloatOes,
    /// Sized RGBA16F with half-float components (the newer generation).
    Rgba16f,
}

/// A parameter of the texture bound to the active unit.
#[derive(Clone, Copy, Debug, PartialEq, Eq)]
pub enum TexParameter {
    MinFilter(Filter),
    MagFilter(Filter),
    /// Clamp to edge along the horizontal axis.
    WrapSClampToEdge,
    /// Clamp to edge along the vertical axis.
    WrapTClampToEdge,
}

/// One corner of the full-screen quad: a clip-space position and its texture coordinate.
#[derive(Clone, Copy, Debug, PartialEq, Eq)]
pub struct Vertex {
    pub x: i8,
    pub y: i8,
    pub u: i8,
    pub v: i8,
}

/// One call on the GPU context.
///
/// Textures, framebuffers, buffers and programs are named by handles. Handles of objects
/// that the core creates are given out by the [`Context`]; handles of programs come from
/// the caller, who compiled them.
#[allow(inconsistent_fields)]
#[derive(Clone, Copy, Debug, PartialEq, Eq)]
pub enum Command {
    /// Ask for the extension that makes floating-point textures renderable.
    EnableColorBufferFloat,
    /// Switch blending off.
    DisableBlend,
    /// Create a vertex buffer under the handle.
    CreateBuffer { buffer: u64 },
    /// Bind the vertex buffer as the array buffer.
    BindBuffer { buffer: u64 },
    /// Fill the bound array buffer, for static drawing, with the four corners, each as four
    /// single-precision numbers.
    BufferData { corners: (Vertex, Vertex, Vertex, Vertex) },
    /// Describe attribute `index` as `size` unnormalised single-precision numbers, `stride`
    /// bytes apart, starting `offset` bytes into the bound buffer.
    VertexAttribPointer { index: u32, size: i32, stride: i32, offset: i32 },
    /// Switch attribute `index` on.
    EnableVertexAttribArray { index: u32 },
    /// Make texture unit `unit` the active one.
    ActiveTexture { unit: u32 },
    /// Create a texture under the handle.
    CreateTexture { texture: u64 },
    /// Bind the texture as the 2-D texture of the active unit.
    BindTexture { texture: u64 },
    /// Set a parameter of the bound 2-D texture.
    TexParameter { parameter: TexParameter },
    /// Give the bound 2-D texture `width` by `height` texels of four components each, all
    /// `components` of them zero.
    TexImage2D { format: TexelFormat, width: u32, height: u32, components: u32 },
    /// Release the texture.
    DeleteTexture { texture: u64 },
    /// Create a framebuffer under the handle.
    CreateFramebuffer { framebuffer: u64 },
    /// Bind the framebuffer as the render target; `None` is the visible canvas.
    BindFramebuffer { framebuffer: Option<u64> },
    /// Attach the texture as the one colour attachment of the bound framebuffer.
    FramebufferTexture2D { texture: u64 },
    /// Release the framebuffer.
    DeleteFramebuffer { framebuffer: u64 },
    /// Make the program current.
    UseProgram { program: u64 },
    /// Set an integer uniform of the current program. `location` is the uniform's place
    /// among the program's active uniforms; with `None` the call has no effect.
    Uniform1i { location: Option<usize>, value: i32 },
    /// Set a scalar uniform of the current program.
    Uniform1f { location: Option<usize>, value: Scalar },
    /// Set a two-component uniform of the current program.
    Uniform2f { location: Option<usize>, x: Scalar, y: Scalar },
    /// Set a three-component uniform of the current program.
    Uniform3f { location: Option<usize>, x: Scalar, y: Scalar, z: Scalar },
    /// Set the viewport to `width` by `height` pixels from the origin.
    Viewport { width: u32, height: u32 },
    /// Set the viewport to the whole drawing buffer of the canvas.
    ViewportDrawingBuffer,
    /// Set the colour that clearing writes.
    ClearColor { red: Scalar, green: Scalar, blue: Scalar, alpha: Scalar },
    /// Clear the colour buffer of the render target.
    Clear,
    /// Draw `count` vertices from `first` on as a triangle strip.
    DrawArrays { first: i32, count: i32 },
}

/// A GPU context that records the calls made on it instead of performing them.
///
/// The record is played back, in order, on a real context by whoever owns one. The
/// context also gives out the handles under which the core creates GPU objects: each
/// handle is given out once.
pub struct Context {
    pub commands: Vec<Command>,
    pub next_handle: u64,
}

impl View for Context {
    type V = Seq<Command>;

    /// The calls recorded and not yet taken.
    open spec fn view(&self) -> Seq<Command> {
        self.commands@
    }
}

impl Context {
    /// Whether `count` more handles can be given out.
    pub open spec fn has_handles(&self, count: nat) -> bool {
        self.next_handle + count <= u64::MAX
    }

    /// Whether the context is as `before` was: the same record, the same handles given out.
    pub open spec fn same_as(&self, before: Context) -> bool {
        &&& self@ == before@
        &&& self.next_handle == before.next_handle
    }

    /// Whether the context is `before` with `commands` appended to its record and
    /// `handles` more handles given out.
    pub open spec fn extends(&self, before: Context, commands: Seq<Command>, handles: nat) -> bool {
        &&& self@ == before@ + commands
        &&& self.next_handle == before.next_handle + handles
    }

    /// A context with an empty record that has given out no handle.
    pub fn new() -> (gl: Context)
        ensures
            gl@ == Seq::<Command>::empty(),
            gl.next_handle == 0,
    {
        Context { commands: Vec::new(), next_handle: 0 }
    }

    /// Appends one call to the record.
    pub fn push(&mut self, command: Command)
        ensures
            final(self)@ == old(self)@.push(command),
            final(self).next_handle == old(self).next_handle,
            final(self).extends(*old(self), seq![command], 0),
    {
        self.commands.push(command);
        assert(self@ =~= old(self)@ + seq![command]);
    }

    /// Gives out `count` consecutive fresh handles and returns the first, or gives out none
    /// when fewer than `count` are left.
    pub fn reserve(&mut self, count: u64) -> (first: Option<u64>)
        ensures
            final(self)@ == old(self)@,
            old(self).has_handles(count as nat) ==> first == Some(old(self).next_handle)
                && final(self).next_handle == old(self).next_handle + count,
            !old(self).has_handles(count as nat) ==> first.is_none() && final(self).next_handle
                == old(self).next_handle,
    {
        if count <= u64::MAX - self.next_handle {
            let first = self.next_handle;
            self.next_handle = first + count;
            Some(first)
        } else {
            None
        }
    }

    /// The calls recorded and not yet taken, oldest first.
    pub fn commands(&self) -> (commands: &Vec<Command>)
        ensures
            commands@ == self@,
    {
        &self.commands
    }

    /// Hands the record over and starts an empty one. Handles given out stay given out.
    pub fn take_commands(&mut self) -> (commands: Vec<Command>)
        ensures
            commands@ == old(self)@,
            final(self)@ == Seq::<Command>::empty(),
            final(self).next_handle == old(self).next_handle,
    {
        let mut taken: Vec<Command> = Vec::new();
        std::mem::swap(&mut taken, &mut self.commands);
        taken
    }
}

/// Where a second context extends a first, and a third extends the second, the third
/// extends the first by both extensions in turn.
pub proof fn lemma_extends_twice(
    first: Context,
    second: Context,
    third: Context,
    head: Seq<Command>,
    tail: Seq<Command>,
    head_handles: nat,
    tail_handles: nat,
)
    requires
        second.extends(first, head, head_handles),
        third.extends(second, tail, tail_handles),
    ensures
        third.extends(first, head + tail, head_handles + tail_handles),
{
    assert((first@ + head) + tail =~= first@ + (head + tail));
}

/// A context that is as another was extends it by nothing.
pub proof fn lemma_extends_by_nothing(before: Context, after: Context)
    requires
        after.same_as(before),
    ensures
        after.extends(before, Seq::<Command>::empty(), 0),
{
    assert(before@ + Seq::<Command>::empty() =~= before@);
}

} // verus!
