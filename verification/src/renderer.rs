//! The render engine: the full-screen quad, the fixed clear color, and the
//! translation of the shared settings into per-frame uniform pushes.
//!
//! The GPU draw calls themselves run in the surrounding application; every
//! value they carry — the quad's vertices, the vertex-attribute layout, the
//! clear color, and the uniform writes of each frame — is produced and
//! proved here. Each operation returns the writes the application must
//! mirror onto the GPU, and updates the model of the program's uniform
//! storage and of the GL context accordingly.

use vstd::prelude::*;

use crate::shader::{GlState, Program, UniformValues, UniformWrite, Viewport};
use crate::state::{obj_code, State};

verus! {

/// Bit pattern of the 32-bit float `1.0`.
pub const F32_BITS_ONE: u32 = 0x3F80_0000;

/// Bit pattern of the 32-bit float `-1.0`.
pub const F32_BITS_NEG_ONE: u32 = 0xBF80_0000;

/// Bit pattern of the 32-bit float `0.4`, the fixed mid-gray clear level.
pub const F32_BITS_CLEAR_GRAY: u32 = 0x3ECC_CCCD;

/// The quad's six vertices, three float bit patterns each: two triangles
/// covering the normalized device-coordinate square from (-1,-1) to (1,1).
pub open spec fn quad_vertices_spec() -> Seq<u32> {
    seq![
        F32_BITS_NEG_ONE, F32_BITS_NEG_ONE, 0u32,
        F32_BITS_NEG_ONE, F32_BITS_ONE, 0u32,
        F32_BITS_ONE, F32_BITS_NEG_ONE, 0u32,
        F32_BITS_ONE, F32_BITS_NEG_ONE, 0u32,
        F32_BITS_NEG_ONE, F32_BITS_ONE, 0u32,
        F32_BITS_ONE, F32_BITS_ONE, 0u32,
    ]
}

/// The vertex data uploaded once at construction, ready for the
/// application to hand to the GPU buffer upload.
pub fn quad_vertices() -> (v: Vec<u32>)
    ensures
        v@ == quad_vertices_spec(),
{
    let mut v: Vec<u32> = Vec::new();
    v.push(F32_BITS_NEG_ONE);
    v.push(F32_BITS_NEG_ONE);
    v.push(0);
    v.push(F32_BITS_NEG_ONE);
    v.push(F32_BITS_ONE);
    v.push(0);
    v.push(F32_BITS_ONE);
    v.push(F32_BITS_NEG_ONE);
    v.push(0);
    v.push(F32_BITS_ONE);
    v.push(F32_BITS_NEG_ONE);
    v.push(0);
    v.push(F32_BITS_NEG_ONE);
    v.push(F32_BITS_ONE);
    v.push(0);
    v.push(F32_BITS_ONE);
    v.push(F32_BITS_ONE);
    v.push(0);
    proof {
        assert(v@ =~= quad_vertices_spec());
    }
    v
}

/// How the quad buffer's bytes are read back as a vertex attribute:
/// attribute index 0, three 32-bit float components, tightly packed
/// (stride three times four bytes), no offset.
#[derive(Clone, Copy, Debug, PartialEq, Eq, Structural)]
pub struct VertexAttribute {
    pub index: u32,
    pub components: i32,
    pub stride_bytes: i32,
    pub offset_bytes: usize,
}

/// The quad's single vertex-attribute description.
pub fn quad_vertex_attribute() -> (a: VertexAttribute)
    ensures
        a == (VertexAttribute { index: 0, components: 3, stride_bytes: 12, offset_bytes: 0 }),
{
    VertexAttribute { index: 0, components: 3, stride_bytes: 12, offset_bytes: 0 }
}

/// One frame's draw, as the application must issue it: clear the color
/// buffer to the fixed mid-gray, then draw the quad's six vertices as a
/// triangle list. No depth or stencil clearing takes place.
#[derive(Clone, Copy, Debug, PartialEq, Eq)]
pub struct FrameDraw {
    pub clear_color: (u32, u32, u32, u32),
    pub first_vertex: i32,
    pub vertex_count: i32,
}

/// The uniform writes one `update_state` call performs, in order: camera
/// eye, shininess, object code, elapsed time.
pub open spec fn frame_writes(s: State, elapsed_micros: u64) -> Seq<UniformWrite> {
    seq![
        UniformWrite::CameraEye(s.camera_eye),
        UniformWrite::Shininess(s.shininess),
        UniformWrite::ObjCode(obj_code(s.obj) as i32),
        UniformWrite::TimeMicros(elapsed_micros),
    ]
}

/// The program's uniform storage after one `update_state` call: the four
/// per-frame uniforms carry the settings, the resolution stays untouched.
pub open spec fn updated_uniforms(u: UniformValues, s: State, elapsed_micros: u64)
    -> UniformValues {
    UniformValues {
        resolution: u.resolution,
        obj: Some(obj_code(s.obj) as i32),
        time_micros: Some(elapsed_micros),
        shininess: Some(s.shininess),
        camera_eye: Some(s.camera_eye),
    }
}

/// The render engine: owns the linked shader program (and, on the GPU
/// side, the quad geometry the application uploaded from
/// `quad_vertices`).
#[derive(Debug, PartialEq, Eq)]
pub struct Renderer {
    pub prog: Program,
}

impl Renderer {
    /// Wraps the freshly built program. The animation clock starts here in
    /// the application, which thereafter passes elapsed microseconds into
    /// `update_state`.
    pub fn new(prog: Program) -> (r: Renderer)
        ensures
            r.prog == prog,
    {
        Renderer { prog }
    }

    /// Pushes the current settings into the shader program: camera eye,
    /// shininess, the selected object's code, and the time elapsed since
    /// construction. Returns the writes for the application to mirror; the
    /// resolution uniform is left exactly as it was, and the caller's
    /// program binding is restored.
    pub fn update_state(&mut self, gl: &mut GlState, state: &State, elapsed_micros: u64) -> (ws:
        Vec<UniformWrite>)
        ensures
            ws@ == frame_writes(*state, elapsed_micros),
            *final(gl) == *old(gl),
            final(self).prog.id == old(self).prog.id,
            final(self).prog.locs == old(self).prog.locs,
            final(self).prog.uniforms == updated_uniforms(
                old(self).prog.uniforms,
                *state,
                elapsed_micros,
            ),
    {
        let mut ws: Vec<UniformWrite> = Vec::new();
        ws.push(self.prog.set_camera_eye(gl, state.camera_eye));
        ws.push(self.prog.set_shininess(gl, state.shininess));
        ws.push(self.prog.set_obj(gl, state.obj.code()));
        ws.push(self.prog.set_time(gl, elapsed_micros));
        proof {
            assert(ws@ =~= frame_writes(*state, elapsed_micros));
        }
        ws
    }

    /// One frame's background draw: binds the program for its duration
    /// (restoring the caller's binding), and yields the fixed mid-gray
    /// clear followed by the six-vertex triangle-list draw of the quad.
    pub fn render(&self, gl: &mut GlState) -> (d: FrameDraw)
        ensures
            d == (FrameDraw {
                clear_color: (
                    F32_BITS_CLEAR_GRAY,
                    F32_BITS_CLEAR_GRAY,
                    F32_BITS_CLEAR_GRAY,
                    F32_BITS_ONE,
                ),
                first_vertex: 0,
                vertex_count: 6,
            }),
            *final(gl) == *old(gl),
    {
        let t = self.prog.use_program(gl);
        let d = FrameDraw {
            clear_color: (
                F32_BITS_CLEAR_GRAY,
                F32_BITS_CLEAR_GRAY,
                F32_BITS_CLEAR_GRAY,
                F32_BITS_ONE,
            ),
            first_vertex: 0,
            vertex_count: 6,
        };
        t.restore(gl);
        d
    }

    /// Reacts to a window resize: the viewport becomes (0, 0, width,
    /// height) and the same size is pushed into the `resolution` uniform.
    /// Nothing else of the program or the context changes, and the
    /// caller's program binding is restored.
    pub fn set_resolution(&mut self, gl: &mut GlState, width: u32, height: u32) -> (w:
        UniformWrite)
        requires
            width <= 0x7FFF_FFFF,
            height <= 0x7FFF_FFFF,
        ensures
            w == UniformWrite::Resolution(width, height),
            *final(gl) == resized_gl(*old(gl), width, height),
            final(self).prog.id == old(self).prog.id,
            final(self).prog.locs == old(self).prog.locs,
            final(self).prog.uniforms == resized_uniforms(old(self).prog.uniforms, width, height),
    {
        gl.viewport = Some(
            Viewport { x: 0, y: 0, width: width as i32, height: height as i32 },
        );
        self.prog.set_resolution(gl, width, height)
    }
}

/// The GL context after a resize to the given size: the viewport covers
/// the new framebuffer from its origin; the binding is untouched.
pub open spec fn resized_gl(gl: GlState, width: u32, height: u32) -> GlState {
    GlState {
        viewport: Some(Viewport { x: 0, y: 0, width: width as i32, height: height as i32 }),
        ..gl
    }
}

/// The uniform storage after a resize to the given size: only the
/// `resolution` uniform changes.
pub open spec fn resized_uniforms(u: UniformValues, width: u32, height: u32) -> UniformValues {
    UniformValues { resolution: Some((width, height)), ..u }
}

/// Resize idempotence: resizing twice to the same size leaves the uniform
/// storage and the GL context exactly where one resize put them — the
/// outcome depends on the size alone, with no accumulation or drift.
pub proof fn lemma_set_resolution_idempotent(
    gl: GlState,
    u: UniformValues,
    width: u32,
    height: u32,
)
    ensures
        resized_gl(resized_gl(gl, width, height), width, height) == resized_gl(gl, width, height),
        resized_uniforms(resized_uniforms(u, width, height), width, height) == resized_uniforms(
            u,
            width,
            height,
        ),
{
}

/// Which uniform a write targets.
#[derive(Clone, Copy, Debug, PartialEq, Eq, Structural)]
pub enum UniformKind {
    Resolution,
    ObjCode,
    TimeMicros,
    Shininess,
    CameraEye,
}

/// The uniform a write targets.
pub open spec fn write_kind(w: UniformWrite) -> UniformKind {
    match w {
        UniformWrite::Resolution(_, _) => UniformKind::Resolution,
        UniformWrite::ObjCode(_) => UniformKind::ObjCode,
        UniformWrite::TimeMicros(_) => UniformKind::TimeMicros,
        UniformWrite::Shininess(_) => UniformKind::Shininess,
        UniformWrite::CameraEye(_) => UniformKind::CameraEye,
    }
}

/// How many writes in the sequence target the given uniform.
pub open spec fn count_kind(ws: Seq<UniformWrite>, k: UniformKind) -> nat
    decreases ws.len(),
{
    if ws.len() == 0 {
        0
    } else {
        (if write_kind(ws[0]) == k {
            1nat
        } else {
            0nat
        }) + count_kind(ws.drop_first(), k)
    }
}

/// Counting writes distributes over concatenation.
pub proof fn lemma_count_kind_concat(a: Seq<UniformWrite>, b: Seq<UniformWrite>, k: UniformKind)
    ensures
        count_kind(a + b, k) == count_kind(a, k) + count_kind(b, k),
    decreases a.len(),
{
    if a.len() == 0 {
        assert(a + b =~= b);
    } else {
        assert((a + b).drop_first() =~= a.drop_first() + b);
        lemma_count_kind_concat(a.drop_first(), b, k);
    }
}

/// One frame's writes touch each per-frame uniform exactly once and the
/// resolution not at all.
pub proof fn lemma_frame_writes_counts(s: State, elapsed_micros: u64)
    ensures
        count_kind(frame_writes(s, elapsed_micros), UniformKind::Resolution) == 0,
        count_kind(frame_writes(s, elapsed_micros), UniformKind::ObjCode) == 1,
        count_kind(frame_writes(s, elapsed_micros), UniformKind::TimeMicros) == 1,
        count_kind(frame_writes(s, elapsed_micros), UniformKind::Shininess) == 1,
        count_kind(frame_writes(s, elapsed_micros), UniformKind::CameraEye) == 1,
{
    reveal_with_fuel(count_kind, 6);
    let ws = frame_writes(s, elapsed_micros);
    let w1 = ws.drop_first();
    let w2 = w1.drop_first();
    let w3 = w2.drop_first();
    let w4 = w3.drop_first();
    assert(w1 =~= seq![
        UniformWrite::Shininess(s.shininess),
        UniformWrite::ObjCode(obj_code(s.obj) as i32),
        UniformWrite::TimeMicros(elapsed_micros),
    ]);
    assert(w2 =~= seq![
        UniformWrite::ObjCode(obj_code(s.obj) as i32),
        UniformWrite::TimeMicros(elapsed_micros),
    ]);
    assert(w3 =~= seq![UniformWrite::TimeMicros(elapsed_micros)]);
    assert(w4 =~= Seq::<UniformWrite>::empty());
}

/// The writes of a run of frames, each given as the settings it rendered
/// and its elapsed time: the concatenation of the frames' writes in order.
pub open spec fn writes_of_frames(frames: Seq<(State, u64)>) -> Seq<UniformWrite>
    decreases frames.len(),
{
    if frames.len() == 0 {
        Seq::empty()
    } else {
        frame_writes(frames[0].0, frames[0].1) + writes_of_frames(frames.drop_first())
    }
}

/// Uniform cadence: across any run of frames with no resize, the
/// resolution uniform is pushed exactly zero times, while the object code,
/// time, shininess and camera-eye uniforms are each pushed exactly once
/// per frame.
pub proof fn lemma_uniform_cadence(frames: Seq<(State, u64)>)
    ensures
        count_kind(writes_of_frames(frames), UniformKind::Resolution) == 0,
        count_kind(writes_of_frames(frames), UniformKind::ObjCode) == frames.len(),
        count_kind(writes_of_frames(frames), UniformKind::TimeMicros) == frames.len(),
        count_kind(writes_of_frames(frames), UniformKind::Shininess) == frames.len(),
        count_kind(writes_of_frames(frames), UniformKind::CameraEye) == frames.len(),
    decreases frames.len(),
{
    if frames.len() == 0 {
    } else {
        let head = frame_writes(frames[0].0, frames[0].1);
        let rest = writes_of_frames(frames.drop_first());
        lemma_frame_writes_counts(frames[0].0, frames[0].1);
        lemma_count_kind_concat(head, rest, UniformKind::Resolution);
        lemma_count_kind_concat(head, rest, UniformKind::ObjCode);
        lemma_count_kind_concat(head, rest, UniformKind::TimeMicros);
        lemma_count_kind_concat(head, rest, UniformKind::Shininess);
        lemma_count_kind_concat(head, rest, UniformKind::CameraEye);
        lemma_uniform_cadence(frames.drop_first());
    }
}

/// Animation monotonicity: of two frames rendered at elapsed times t1 <
/// t2, the later frame pushes the strictly greater time value, and both
/// values are non-negative (they are unsigned microsecond counts).
pub proof fn lemma_time_uniform_monotone(s1: State, t1: u64, s2: State, t2: u64)
    requires
        t1 < t2,
    ensures
        frame_writes(s1, t1)[3] == UniformWrite::TimeMicros(t1),
        frame_writes(s2, t2)[3] == UniformWrite::TimeMicros(t2),
        t1 < t2,
        t1 >= 0 && t2 >= 0,
{
}

} // verus!
