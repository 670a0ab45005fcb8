use vstd::prelude::*;
use crate::context::{Command, Context, Scalar};
use crate::error::Error;
use crate::shaders::{Uniform, UNIFORM_COUNT};
use crate::textures::{TextureFramebuffer, TEXTURE_UNITS};

verus! {

/// What the GPU said about one shader unit after it was asked to compile it.
pub struct ShaderReport {
    /// The handle of the shader object, or `None` where the GPU made none.
    pub shader: Option<u64>,
    /// The compile status, or `None` where the GPU gave no truth value for it.
    pub compiled: Option<bool>,
    /// The compiler's log, if there is one.
    pub log: Option<String>,
}

/// What the GPU said about a program after it was asked to link it.
pub struct LinkReport {
    /// The handle of the program object, or `None` where the GPU made none.
    pub program: Option<u64>,
    /// The link status, or `None` where the GPU gave no truth value for it.
    pub linked: Option<bool>,
    /// The names of the program's active uniforms in the order in which the GPU lists them,
    /// or `None` where the GPU gave no count of them.
    pub uniforms: Option<Vec<String>>,
    /// The linker's log, if there is one.
    pub log: Option<String>,
}

/// A linked shader program with the places of its uniforms.
pub struct ShaderProgram {
    /// The handle of the program object.
    pub program: u64,
    /// For each known uniform, at its index, its place among the program's active uniforms.
    pub uniforms: Vec<Option<usize>>,
}

/// The place at which `name` stands last in `names`.
pub open spec fn last_index_of(names: Seq<String>, name: Seq<char>) -> Option<usize>
    decreases names.len(),
{
    if names.len() == 0 {
        None
    } else if names.last()@ == name {
        Some((names.len() - 1) as usize)
    } else {
        last_index_of(names.drop_last(), name)
    }
}

/// Finds the place at which `name` stands last in `names`.
pub fn find_last(names: &Vec<String>, name: &str) -> (place: Option<usize>)
    ensures
        place == last_index_of(names@, name@),
{
    let key = name.to_owned();
    let mut i: usize = names.len();
    assert(names@.take(i as int) =~= names@);
    while i > 0
        invariant
            i <= names.len(),
            key@ == name@,
            last_index_of(names@, name@) == last_index_of(names@.take(i as int), name@),
        decreases i,
    {
        i -= 1;
        assert(names@.take(i + 1).last() == names@[i as int]);
        assert(names@.take(i + 1).drop_last() =~= names@.take(i as int));
        if names[i] == key {
            return Some(i);
        }
    }
    assert(names@.take(0).len() == 0);
    None
}

impl ShaderProgram {
    /// The place of a uniform among the program's active uniforms, or `None` where the
    /// program has no active uniform of that name.
    pub open spec fn spec_location(&self, uniform: Uniform) -> Option<usize> {
        if uniform.spec_index() < self.uniforms@.len() {
            self.uniforms@[uniform.spec_index() as int]
        } else {
            None
        }
    }

    /// The log that a failure carries: the GPU's, or `fallback` where it gave none.
    pub open spec fn spec_log(log: Option<String>, fallback: Seq<char>) -> Seq<char> {
        match log {
            Some(text) => text@,
            None => fallback,
        }
    }

    /// Whether a shader unit with this report counts as compiled.
    pub open spec fn compiled(report: ShaderReport) -> bool {
        report.shader.is_some() && report.compiled == Some(true)
    }

    fn log_or(log: Option<String>, fallback: &str) -> (text: String)
        ensures
            text@ == Self::spec_log(log, fallback@),
    {
        match log {
            Some(text) => text,
            None => fallback.to_owned(),
        }
    }

    fn create_shader(report: ShaderReport) -> (result: Result<u64, Error>)
        ensures
            report.shader.is_none() ==> result == Err::<u64, Error>(Error::GpuResource),
            Self::compiled(report) ==> result == Ok::<u64, Error>(report.shader.unwrap()),
            report.shader.is_some() && !Self::compiled(report) ==> (result matches Err(
                Error::ShaderCompile(log),
            ) && log@ == Self::spec_log(report.log, "Unknown error creating shader"@)),
    {
        let shader = match report.shader {
            Some(shader) => shader,
            None => {
                return Err(Error::GpuResource);
            },
        };
        match report.compiled {
            Some(true) => Ok(shader),
            _ => Err(
                Error::ShaderCompile(Self::log_or(report.log, "Unknown error creating shader")),
            ),
        }
    }

    /// Judges the compilation of one shader unit on the older API generation.
    ///
    /// Without a shader object the failure is an allocation failure. With one, the unit
    /// counts as compiled exactly when the status is `true`, and its handle is returned;
    /// otherwise the failure carries the compiler's log, or a fixed text where there is no
    /// log.
    pub fn create_shader_webgl(report: ShaderReport) -> (result: Result<u64, Error>)
        ensures
            report.shader.is_none() ==> result == Err::<u64, Error>(Error::GpuResource),
            Self::compiled(report) ==> result == Ok::<u64, Error>(report.shader.unwrap()),
            report.shader.is_some() && !Self::compiled(report) ==> (result matches Err(
                Error::ShaderCompile(log),
            ) && log@ == Self::spec_log(report.log, "Unknown error creating shader"@)),
    {
        Self::create_shader(report)
    }

    /// Judges the compilation of one shader unit on the newer API generation, as
    /// [`ShaderProgram::create_shader_webgl`] does on the older.
    pub fn create_shader_webgl2(report: ShaderReport) -> (result: Result<u64, Error>)
        ensures
            report.shader.is_none() ==> result == Err::<u64, Error>(Error::GpuResource),
            Self::compiled(report) ==> result == Ok::<u64, Error>(report.shader.unwrap()),
            report.shader.is_some() && !Self::compiled(report) ==> (result matches Err(
                Error::ShaderCompile(log),
            ) && log@ == Self::spec_log(report.log, "Unknown error creating shader"@)),
    {
        Self::create_shader(report)
    }

    /// Whether a program with these reports counts as linked and inspected.
    pub open spec fn linked(
        fragment: ShaderReport,
        vertex: ShaderReport,
        link: LinkReport,
    ) -> bool {
        &&& Self::compiled(vertex)
        &&& Self::compiled(fragment)
        &&& link.program.is_some()
        &&& link.linked == Some(true)
        &&& link.uniforms.is_some()
    }

    /// The failure of a program with these reports, where it does not count as linked: the
    /// first of the vertex unit's failure, the fragment unit's failure, a missing program
    /// object, a link status other than `true`, and a missing list of uniforms.
    pub open spec fn spec_failure(
        fragment: ShaderReport,
        vertex: ShaderReport,
        link: LinkReport,
        error: Error,
    ) -> bool {
        if vertex.shader.is_none() {
            error == Error::GpuResource
        } else if !Self::compiled(vertex) {
            error matches Error::ShaderCompile(log) && log@ == Self::spec_log(
                vertex.log,
                "Unknown error creating shader"@,
            )
        } else if fragment.shader.is_none() {
            error == Error::GpuResource
        } else if !Self::compiled(fragment) {
            error matches Error::ShaderCompile(log) && log@ == Self::spec_log(
                fragment.log,
                "Unknown error creating shader"@,
            )
        } else if link.program.is_none() {
            error == Error::GpuResource
        } else if link.linked != Some(true) {
            error matches Error::ProgramLink(log) && log@ == Self::spec_log(
                link.log,
                "Unknown error linking program"@,
            )
        } else {
            error matches Error::ProgramLink(log) && log@
                == "Unable to get program parameters"@
        }
    }

    fn resolve(names: &Vec<String>) -> (uniforms: Vec<Option<usize>>)
        ensures
            uniforms@.len() == UNIFORM_COUNT,
            forall|uniform: Uniform| #[trigger]
                uniforms@[uniform.spec_index() as int] == last_index_of(
                    names@,
                    uniform.spec_name(),
                ),
    {
        let mut uniforms: Vec<Option<usize>> = Vec::new();
        let mut i: usize = 0;
        while i < UNIFORM_COUNT
            invariant
                i <= UNIFORM_COUNT,
                uniforms@.len() == i,
                forall|uniform: Uniform|
                    uniform.spec_index() < i ==> #[trigger] uniforms@[uniform.spec_index() as int]
                        == last_index_of(names@, uniform.spec_name()),
            decreases UNIFORM_COUNT - i,
        {
            let place = match Uniform::from_index(i) {
                Some(uniform) => find_last(names, uniform.name()),
                None => None,
            };
            uniforms.push(place);
            i += 1;
        }
        uniforms
    }

    fn new(
        fragment: ShaderReport,
        vertex: ShaderReport,
        link: LinkReport,
    ) -> (result: Result<ShaderProgram, Error>)
        ensures
            Self::linked(fragment, vertex, link) <==> result.is_ok(),
            result matches Ok(program) ==> {
                &&& program.program == link.program.unwrap()
                &&& forall|uniform: Uniform| #[trigger]
                    program.spec_location(uniform) == last_index_of(
                        link.uniforms.unwrap()@,
                        uniform.spec_name(),
                    )
            },
            result matches Err(error) ==> Self::spec_failure(fragment, vertex, link, error),
    {
        let _ = Self::create_shader(vertex)?;
        let _ = Self::create_shader(fragment)?;
        let program = match link.program {
            Some(program) => program,
            None => {
                return Err(Error::GpuResource);
            },
        };
        match link.linked {
            Some(true) => {},
            _ => {
                return Err(
                    Error::ProgramLink(
                        Self::log_or(link.log, "Unknown error linking program"),
                    ),
                );
            },
        }
        let names = match link.uniforms {
            Some(names) => names,
            None => {
                return Err(
                    Error::ProgramLink("Unable to get program parameters".to_owned()),
                );
            },
        };
        let uniforms = Self::resolve(&names);
        Ok(ShaderProgram { program, uniforms })
    }

    /// Judges the making of a program on the older API generation, from what the GPU
    /// reported of its vertex unit, its fragment unit and the link.
    ///
    /// The program counts as made exactly when both units count as compiled, there is a
    /// program object, the link status is `true` and the active uniforms were listed. It
    /// then has the object's handle and knows, for each known uniform, the place at which
    /// the uniform's name stands last among the active uniforms. Otherwise the first
    /// failure is returned.
    pub fn new_webgl(
        fragment: ShaderReport,
        vertex: ShaderReport,
        link: LinkReport,
    ) -> (result: Result<ShaderProgram, Error>)
        ensures
            Self::linked(fragment, vertex, link) <==> result.is_ok(),
            result matches Ok(program) ==> {
                &&& program.program == link.program.unwrap()
                &&& forall|uniform: Uniform| #[trigger]
                    program.spec_location(uniform) == last_index_of(
                        link.uniforms.unwrap()@,
                        uniform.spec_name(),
                    )
            },
            result matches Err(error) ==> Self::spec_failure(fragment, vertex, link, error),
    {
        Self::new(fragment, vertex, link)
    }

    /// Judges the making of a program on the newer API generation, as
    /// [`ShaderProgram::new_webgl`] does on the older.
    pub fn new_webgl2(
        fragment: ShaderReport,
        vertex: ShaderReport,
        link: LinkReport,
    ) -> (result: Result<ShaderProgram, Error>)
        ensures
            Self::linked(fragment, vertex, link) <==> result.is_ok(),
            result matches Ok(program) ==> {
                &&& program.program == link.program.unwrap()
                &&& forall|uniform: Uniform| #[trigger]
                    program.spec_location(uniform) == last_index_of(
                        link.uniforms.unwrap()@,
                        uniform.spec_name(),
                    )
            },
            result matches Err(error) ==> Self::spec_failure(fragment, vertex, link, error),
    {
        Self::new(fragment, vertex, link)
    }

    /// The place of a uniform among the program's active uniforms, or `None` where the
    /// program has no active uniform of that name.
    pub fn location(&self, uniform: Uniform) -> (place: Option<usize>)
        ensures
            place == self.spec_location(uniform),
    {
        let index = uniform.index();
        if index < self.uniforms.len() {
            self.uniforms[index]
        } else {
            None
        }
    }

    /// The call that makes the program current.
    pub open spec fn spec_bind(&self) -> Seq<Command> {
        seq![Command::UseProgram { program: self.program }]
    }

    pub(crate) fn bind(&self, gl: &mut Context)
        ensures
            final(gl).extends(*old(gl), self.spec_bind(), 0),
    {
        gl.push(Command::UseProgram { program: self.program });
    }

    /// Makes the program current on a context of the older API generation.
    pub fn bind_webgl(&self, gl: &mut Context)
        ensures
            final(gl).extends(*old(gl), self.spec_bind(), 0),
    {
        self.bind(gl)
    }

    /// Makes the program current on a context of the newer API generation.
    pub fn bind_webgl2(&self, gl: &mut Context)
        ensures
            final(gl).extends(*old(gl), self.spec_bind(), 0),
    {
        self.bind(gl)
    }

    /// The call that sets an integer uniform of the program.
    pub open spec fn spec_uniform1i(&self, uniform: Uniform, value: i32) -> Seq<Command> {
        seq![Command::Uniform1i { location: self.spec_location(uniform), value }]
    }

    /// The call that sets a scalar uniform of the program.
    pub open spec fn spec_uniform1f(&self, uniform: Uniform, value: Scalar) -> Seq<Command> {
        seq![Command::Uniform1f { location: self.spec_location(uniform), value }]
    }

    /// The call that sets a two-component uniform of the program.
    pub open spec fn spec_uniform2f(&self, uniform: Uniform, x: Scalar, y: Scalar) -> Seq<Command> {
        seq![Command::Uniform2f { location: self.spec_location(uniform), x, y }]
    }

    /// The call that sets a three-component uniform of the program.
    pub open spec fn spec_uniform3f(
        &self,
        uniform: Uniform,
        x: Scalar,
        y: Scalar,
        z: Scalar,
    ) -> Seq<Command> {
        seq![Command::Uniform3f { location: self.spec_location(uniform), x, y, z }]
    }

    /// The calls that let a sampler uniform of the program read a texture: the texture is
    /// bound to the unit, and the uniform is set to the unit.
    pub open spec fn spec_sampler(
        &self,
        uniform: Uniform,
        texture: TextureFramebuffer,
        unit: u32,
    ) -> Seq<Command> {
        texture.spec_bind(unit) + self.spec_uniform1i(uniform, unit as i32)
    }

    /// Records the setting of an integer uniform of the program.
    pub fn uniform1i(&self, gl: &mut Context, uniform: Uniform, value: i32)
        ensures
            final(gl).extends(*old(gl), self.spec_uniform1i(uniform, value), 0),
    {
        gl.push(Command::Uniform1i { location: self.location(uniform), value });
    }

    /// Records the setting of a scalar uniform of the program.
    pub fn uniform1f(&self, gl: &mut Context, uniform: Uniform, value: Scalar)
        ensures
            final(gl).extends(*old(gl), self.spec_uniform1f(uniform, value), 0),
    {
        gl.push(Command::Uniform1f { location: self.location(uniform), value });
    }

    /// Records the setting of a two-component uniform of the program.
    pub fn uniform2f(&self, gl: &mut Context, uniform: Uniform, x: Scalar, y: Scalar)
        ensures
            final(gl).extends(*old(gl), self.spec_uniform2f(uniform, x, y), 0),
    {
        gl.push(Command::Uniform2f { location: self.location(uniform), x, y });
    }

    /// Records the setting of a three-component uniform of the program.
    pub fn uniform3f(&self, gl: &mut Context, uniform: Uniform, x: Scalar, y: Scalar, z: Scalar)
        ensures
            final(gl).extends(*old(gl), self.spec_uniform3f(uniform, x, y, z), 0),
    {
        gl.push(Command::Uniform3f { location: self.location(uniform), x, y, z });
    }

    /// Records that a sampler uniform of the program reads a texture through a unit.
    ///
    /// A unit of 32 or above is refused, and the context is left as it was.
    pub fn sampler(
        &self,
        gl: &mut Context,
        uniform: Uniform,
        texture: &TextureFramebuffer,
        unit: u32,
    ) -> (result: Result<(), Error>)
        ensures
            unit >= TEXTURE_UNITS ==> result == Err::<(), Error>(
                Error::InvalidTextureUnit,
            ) && final(gl).same_as(*old(gl)),
            unit < TEXTURE_UNITS ==> result.is_ok() && final(gl).extends(
                *old(gl),
                self.spec_sampler(uniform, *texture, unit),
                0,
            ),
    {
        let value = texture.bind(gl, unit)?;
        self.uniform1i(gl, uniform, value);
        assert(gl@ =~= old(gl)@ + self.spec_sampler(uniform, *texture, unit));
        Ok(())
    }
}

} // verus!
