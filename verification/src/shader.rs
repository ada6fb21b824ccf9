//! The shader-program abstraction: source composition, the compile/link
//! protocol with its error taxonomy, the uniform-location cache, and the
//! typed uniform setters with their scoped-binding guarantee.
//!
//! The GPU compiler itself runs in the surrounding application; this module
//! decides what is fed to it, classifies every outcome, and models the GL
//! state (current program binding, viewport, uniform storage) that the
//! abstraction promises to maintain. Float uniform values are carried as
//! IEEE 754 bit patterns (`u32`), converted at the application edge.

use vstd::prelude::*;
use vstd::string::*;

use crate::state::Vec3Bits;

verus! {

/// The preamble prepended to every shader body before compilation: a GLSL
/// ES 3.10 version directive and a default float precision directive.
pub fn glsl_preamble() -> (s: &'static str)
    ensures
        s@ == "#version 310 es\nprecision highp float;\n"@,
{
    "#version 310 es\nprecision highp float;\n"
}

/// The full source handed to the GPU compiler for one stage: the fixed
/// preamble followed by the stage's own body, verbatim.
pub fn compose_shader_source(body: &str) -> (r: String)
    ensures
        r@ == "#version 310 es\nprecision highp float;\n"@ + body@,
{
    let mut r = String::from_str(glsl_preamble());
    r.append(body);
    r
}

/// The two shader stages a program is linked from.
#[derive(Clone, Copy, Debug, PartialEq, Eq, Structural)]
pub enum Stage {
    Vertex,
    Fragment,
}

/// Why building a shader program failed; both variants carry the raw
/// diagnostic log of the GPU compiler or linker.
#[derive(Debug, PartialEq, Eq)]
pub enum ShaderError {
    CompileFailure { stage: Stage, log: String },
    LinkFailure { log: String },
}

/// The prefix that marks a compilation failure of the given stage.
pub open spec fn compile_failure_prefix(stage: Stage) -> Seq<char> {
    match stage {
        Stage::Vertex => "ERROR::SHADER::VERTEX::COMPILATION_FAILED\n"@,
        Stage::Fragment => "ERROR::SHADER::FRAGMENT::COMPILATION_FAILED\n"@,
    }
}

/// The prefix that marks a link failure.
pub open spec fn link_failure_prefix() -> Seq<char> {
    "ERROR::SHADER::PROGRAM::LINK_FAILED\n"@
}

impl ShaderError {
    /// The developer-facing diagnostic: a prefix naming what failed,
    /// followed by the raw compiler or linker log.
    pub fn message(&self) -> (m: String)
        ensures
            (self matches ShaderError::CompileFailure { stage, log } ==> m@
                == compile_failure_prefix(*stage) + log@),
            (self matches ShaderError::LinkFailure { log } ==> m@ == link_failure_prefix()
                + log@),
    {
        match self {
            ShaderError::CompileFailure { stage: Stage::Vertex, log } => {
                let mut m = String::from_str("ERROR::SHADER::VERTEX::COMPILATION_FAILED\n");
                m.append(log.as_str());
                m
            },
            ShaderError::CompileFailure { stage: Stage::Fragment, log } => {
                let mut m = String::from_str("ERROR::SHADER::FRAGMENT::COMPILATION_FAILED\n");
                m.append(log.as_str());
                m
            },
            ShaderError::LinkFailure { log } => {
                let mut m = String::from_str("ERROR::SHADER::PROGRAM::LINK_FAILED\n");
                m.append(log.as_str());
                m
            },
        }
    }
}

/// Where the build protocol stands: which GPU step is owed next, or how it
/// ended. The application performs the step the state asks for and feeds
/// the outcome back through `build_step`.
#[derive(Debug)]
pub enum BuildState {
    NeedVertexCompile,
    NeedFragmentCompile { vertex: u32 },
    NeedLink { vertex: u32, fragment: u32 },
    Done { program: u32 },
    Failed { error: ShaderError },
}

impl BuildState {
    /// The protocol starts by compiling the vertex stage.
    pub fn start() -> (s: BuildState)
        ensures
            s is NeedVertexCompile,
    {
        BuildState::NeedVertexCompile
    }

    /// Advances the protocol with the outcome of the step it asked for:
    /// each stage's handle feeds the next step, the first failure ends the
    /// build with the error that carries its raw log, and a finished build
    /// never moves again.
    pub fn build_step(self, outcome: Result<u32, String>) -> (next: BuildState)
        ensures
            (self is NeedVertexCompile && outcome is Ok ==> (next matches
                BuildState::NeedFragmentCompile { vertex } && vertex == outcome->Ok_0)),
            (self is NeedVertexCompile && outcome is Err ==> (next matches
                BuildState::Failed { error } && error matches
                ShaderError::CompileFailure { stage, log } && stage == Stage::Vertex && log@
                == outcome->Err_0@)),
            (self matches BuildState::NeedFragmentCompile { vertex: v } ==> (outcome is Ok
                ==> (next matches BuildState::NeedLink { vertex, fragment } && vertex == v
                && fragment == outcome->Ok_0))),
            (self is NeedFragmentCompile && outcome is Err ==> (next matches
                BuildState::Failed { error } && error matches
                ShaderError::CompileFailure { stage, log } && stage == Stage::Fragment
                && log@ == outcome->Err_0@)),
            (self is NeedLink && outcome is Ok ==> (next matches BuildState::Done { program }
                && program == outcome->Ok_0)),
            (self is NeedLink && outcome is Err ==> (next matches BuildState::Failed { error }
                && error matches ShaderError::LinkFailure { log } && log@
                == outcome->Err_0@)),
            (self is Done ==> next == self),
            (self is Failed ==> next == self),
    {
        match (self, outcome) {
            (BuildState::NeedVertexCompile, Ok(vertex)) => BuildState::NeedFragmentCompile {
                vertex,
            },
            (BuildState::NeedVertexCompile, Err(log)) => BuildState::Failed {
                error: ShaderError::CompileFailure { stage: Stage::Vertex, log },
            },
            (BuildState::NeedFragmentCompile { vertex }, Ok(fragment)) => BuildState::NeedLink {
                vertex,
                fragment,
            },
            (BuildState::NeedFragmentCompile { vertex: _ }, Err(log)) => BuildState::Failed {
                error: ShaderError::CompileFailure { stage: Stage::Fragment, log },
            },
            (BuildState::NeedLink { vertex: _, fragment: _ }, Ok(program)) => BuildState::Done {
                program,
            },
            (BuildState::NeedLink { vertex: _, fragment: _ }, Err(log)) => BuildState::Failed {
                error: ShaderError::LinkFailure { log },
            },
            (done, _) => done,
        }
    }
}

/// The five uniform names the program resolves once after linking, in the
/// order their locations are queried.
pub fn uniform_names() -> (v: Vec<&'static str>)
    ensures
        v@.len() == 5,
        v@[0]@ == "resolution"@,
        v@[1]@ == "obj"@,
        v@[2]@ == "time"@,
        v@[3]@ == "shininess"@,
        v@[4]@ == "camera_eye"@,
{
    let mut v: Vec<&'static str> = Vec::new();
    v.push("resolution");
    v.push("obj");
    v.push("time");
    v.push("shininess");
    v.push("camera_eye");
    v
}

/// The location cache: one resolved handle per uniform name, queried right
/// after linking and immutable thereafter.
#[derive(Clone, Copy, Debug, PartialEq, Eq, Structural)]
pub struct UniformLocations {
    pub resolution: i32,
    pub obj: i32,
    pub time: i32,
    pub shininess: i32,
    pub camera_eye: i32,
}

/// The model of the program's GPU-resident uniform storage. `None` marks a
/// uniform never written since linking. `resolution` holds framebuffer
/// pixels, `time_micros` whole microseconds since renderer construction;
/// `shininess` and `camera_eye` hold float bit patterns.
#[derive(Clone, Copy, Debug, PartialEq, Eq)]
pub struct UniformValues {
    pub resolution: Option<(u32, u32)>,
    pub obj: Option<i32>,
    pub time_micros: Option<u64>,
    pub shininess: Option<u32>,
    pub camera_eye: Option<Vec3Bits>,
}

impl UniformValues {
    /// The storage as it stands right after linking: nothing written yet.
    pub open spec fn unset() -> UniformValues {
        UniformValues {
            resolution: None,
            obj: None,
            time_micros: None,
            shininess: None,
            camera_eye: None,
        }
    }
}

/// One uniform push, as the application must mirror it onto the GPU.
/// Values are carried exactly as in `UniformValues`.
#[derive(Clone, Copy, Debug, PartialEq, Eq)]
pub enum UniformWrite {
    Resolution(u32, u32),
    ObjCode(i32),
    TimeMicros(u64),
    Shininess(u32),
    CameraEye(Vec3Bits),
}

/// The rendering viewport, as set through the GL context.
#[derive(Clone, Copy, Debug, PartialEq, Eq, Structural)]
pub struct Viewport {
    pub x: i32,
    pub y: i32,
    pub width: i32,
    pub height: i32,
}

/// The model of the GL context state this crate's logic touches: which
/// program is currently bound (0 for none) and the viewport last set
/// (`None` until the renderer first sets one).
#[derive(Clone, Copy, Debug, PartialEq, Eq)]
pub struct GlState {
    pub bound_program: u32,
    pub viewport: Option<Viewport>,
}

impl GlState {
    /// The context as the application finds it: no program bound, no
    /// viewport set by this crate yet.
    pub fn new() -> (g: GlState)
        ensures
            g.bound_program == 0,
            g.viewport is None,
    {
        GlState { bound_program: 0, viewport: None }
    }
}

/// The guard of a scoped binding: it remembers which program was bound
/// when the scope was entered, and `restore` puts that program back.
#[derive(Clone, Copy, Debug, PartialEq, Eq, Structural)]
pub struct TmpProgram {
    pub last_program: u32,
}

impl TmpProgram {
    /// Leaves the binding scope: whatever program was bound on entry is
    /// bound again, and nothing else of the context changes.
    pub fn restore(self, gl: &mut GlState)
        ensures
            final(gl).bound_program == self.last_program,
            final(gl).viewport == old(gl).viewport,
    {
        gl.bound_program = self.last_program;
    }
}

/// The linked shader program: its GPU handle, the location cache, and the
/// model of its uniform storage.
#[derive(Debug, PartialEq, Eq)]
pub struct Program {
    pub id: u32,
    pub locs: UniformLocations,
    pub uniforms: UniformValues,
}

impl Program {
    /// Wraps a freshly linked program handle with its resolved location
    /// cache; no uniform has been written yet.
    pub fn new(id: u32, locs: UniformLocations) -> (p: Program)
        ensures
            p.id == id,
            p.locs == locs,
            p.uniforms == UniformValues::unset(),
    {
        Program {
            id,
            locs,
            uniforms: UniformValues {
                resolution: None,
                obj: None,
                time_micros: None,
                shininess: None,
                camera_eye: None,
            },
        }
    }

    /// Enters a binding scope: this program becomes the bound one, and the
    /// returned guard remembers what was bound before.
    pub fn use_program(&self, gl: &mut GlState) -> (t: TmpProgram)
        ensures
            final(gl).bound_program == self.id,
            final(gl).viewport == old(gl).viewport,
            t.last_program == old(gl).bound_program,
    {
        let t = TmpProgram { last_program: gl.bound_program };
        gl.bound_program = self.id;
        t
    }

    /// Pushes the `resolution` uniform: the framebuffer size in pixels.
    /// The program binding the caller had is restored before returning.
    pub fn set_resolution(&mut self, gl: &mut GlState, width: u32, height: u32) -> (w:
        UniformWrite)
        ensures
            w == UniformWrite::Resolution(width, height),
            *final(gl) == *old(gl),
            final(self).id == old(self).id,
            final(self).locs == old(self).locs,
            final(self).uniforms == (UniformValues {
                resolution: Some((width, height)),
                ..old(self).uniforms
            }),
    {
        let t = self.use_program(gl);
        self.uniforms.resolution = Some((width, height));
        t.restore(gl);
        UniformWrite::Resolution(width, height)
    }

    /// Pushes the `obj` uniform: the selected object's integer code. The
    /// caller's program binding is restored before returning.
    pub fn set_obj(&mut self, gl: &mut GlState, code: i32) -> (w: UniformWrite)
        ensures
            w == UniformWrite::ObjCode(code),
            *final(gl) == *old(gl),
            final(self).id == old(self).id,
            final(self).locs == old(self).locs,
            final(self).uniforms == (UniformValues { obj: Some(code), ..old(self).uniforms }),
    {
        let t = self.use_program(gl);
        self.uniforms.obj = Some(code);
        t.restore(gl);
        UniformWrite::ObjCode(code)
    }

    /// Pushes the `time` uniform: whole microseconds since renderer
    /// construction (the application converts to float seconds). The
    /// caller's program binding is restored before returning.
    pub fn set_time(&mut self, gl: &mut GlState, micros: u64) -> (w: UniformWrite)
        ensures
            w == UniformWrite::TimeMicros(micros),
            *final(gl) == *old(gl),
            final(self).id == old(self).id,
            final(self).locs == old(self).locs,
            final(self).uniforms == (UniformValues {
                time_micros: Some(micros),
                ..old(self).uniforms
            }),
    {
        let t = self.use_program(gl);
        self.uniforms.time_micros = Some(micros);
        t.restore(gl);
        UniformWrite::TimeMicros(micros)
    }

    /// Pushes the `shininess` uniform (a float bit pattern). The caller's
    /// program binding is restored before returning.
    pub fn set_shininess(&mut self, gl: &mut GlState, bits: u32) -> (w: UniformWrite)
        ensures
            w == UniformWrite::Shininess(bits),
            *final(gl) == *old(gl),
            final(self).id == old(self).id,
            final(self).locs == old(self).locs,
            final(self).uniforms == (UniformValues {
                shininess: Some(bits),
                ..old(self).uniforms
            }),
    {
        let t = self.use_program(gl);
        self.uniforms.shininess = Some(bits);
        t.restore(gl);
        UniformWrite::Shininess(bits)
    }

    /// Pushes the `camera_eye` uniform (three float bit patterns). The
    /// caller's program binding is restored before returning.
    pub fn set_camera_eye(&mut self, gl: &mut GlState, eye: Vec3Bits) -> (w: UniformWrite)
        ensures
            w == UniformWrite::CameraEye(eye),
            *final(gl) == *old(gl),
            final(self).id == old(self).id,
            final(self).locs == old(self).locs,
            final(self).uniforms == (UniformValues {
                camera_eye: Some(eye),
                ..old(self).uniforms
            }),
    {
        let t = self.use_program(gl);
        self.uniforms.camera_eye = Some(eye);
        t.restore(gl);
        UniformWrite::CameraEye(eye)
    }
}

} // verus!
