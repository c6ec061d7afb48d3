//! Shader objects, linked programs, and the names a program is queried for.
use vstd::prelude::*;
use vstd::string::StringSliceAdditionalSpecFns;
use crate::commands::{BindTarget, GlBindable};
use crate::geometry::{A_POSITION, A_TEX_COORD};

verus! {

/// The pipeline stage a shader source is compiled for.
#[derive(Clone, Copy, Debug, PartialEq, Eq, Structural)]
pub enum ShaderStage {
    Vertex,
    Fragment,
}

/// Why a shader source was turned down before any native object was made.
#[derive(Clone, Copy, Debug, PartialEq, Eq, Structural)]
pub enum ShaderError {
    /// The source does not open with a known stage marker.
    UnrecognizedType,
}

impl ShaderError {
    pub fn message(&self) -> (r: &'static str)
        ensures
            *self == ShaderError::UnrecognizedType ==> r@ == "Unrecognized shader type."@,
    {
        match self {
            ShaderError::UnrecognizedType => "Unrecognized shader type.",
        }
    }
}

/// First line of a vertex shader source.
pub const VERTEX_MARKER: &'static str = "///totw vertex_shader";

/// First line of a fragment shader source.
pub const FRAGMENT_MARKER: &'static str = "///totw fragment_shader";

pub open spec fn has_prefix(s: Seq<u8>, prefix: Seq<u8>) -> bool {
    prefix.len() <= s.len() && s.subrange(0, prefix.len() as int) == prefix
}

/// The stage that a source's leading marker names, if any.
pub open spec fn stage_of(source: Seq<u8>) -> Option<ShaderStage> {
    if has_prefix(source, VERTEX_MARKER.spec_bytes()) {
        Some(ShaderStage::Vertex)
    } else if has_prefix(source, FRAGMENT_MARKER.spec_bytes()) {
        Some(ShaderStage::Fragment)
    } else {
        None
    }
}

/// Whether `s` begins with `prefix`.
pub fn starts_with(s: &[u8], prefix: &[u8]) -> (r: bool)
    ensures
        r == has_prefix(s@, prefix@),
{
    if prefix.len() > s.len() {
        return false;
    }
    let mut i: usize = 0;
    while i < prefix.len()
        invariant
            prefix@.len() <= s@.len(),
            0 <= i <= prefix@.len(),
            forall|j: int| 0 <= j < i ==> s@[j] == prefix@[j],
        decreases prefix@.len() - i,
    {
        if s[i] != prefix[i] {
            assert(s@.subrange(0, prefix@.len() as int)[i as int] != prefix@[i as int]);
            return false;
        }
        i = i + 1;
    }
    assert(s@.subrange(0, prefix@.len() as int) =~= prefix@);
    true
}

/// Classifies a shader source by its leading marker. A source without one is
/// refused here, before any native shader object exists.
pub fn shader_stage(source: &[u8]) -> (r: Result<ShaderStage, ShaderError>)
    ensures
        r is Ok <==> stage_of(source@) is Some,
        r is Ok ==> r->Ok_0 == stage_of(source@)->0,
        r is Err ==> r->Err_0 == ShaderError::UnrecognizedType,
{
    if starts_with(source, VERTEX_MARKER.as_bytes()) {
        Ok(ShaderStage::Vertex)
    } else if starts_with(source, FRAGMENT_MARKER.as_bytes()) {
        Ok(ShaderStage::Fragment)
    } else {
        Err(ShaderError::UnrecognizedType)
    }
}

/// What a native build step (compile or link) leaves behind.
#[derive(Debug)]
pub enum BuildOutcome<T> {
    /// The object built; the wrapper now owns its handle.
    Ready(T),
    /// The API returned the null handle: nothing exists to release.
    NotCreated,
    /// The build failed: read this handle's diagnostic log, then delete it.
    Failed(u32),
}

/// An owned, compiled shader object. A handle of zero means the object has
/// been released.
#[derive(Debug)]
pub struct GlShader {
    handle: u32,
    stage: ShaderStage,
}

impl GlShader {
    pub closed spec fn spec_handle(&self) -> u32 {
        self.handle
    }

    pub closed spec fn spec_stage(&self) -> ShaderStage {
        self.stage
    }

    pub fn handle(&self) -> (r: u32)
        ensures
            r == self.spec_handle(),
    {
        self.handle
    }

    pub fn stage(&self) -> (r: ShaderStage)
        ensures
            r == self.spec_stage(),
    {
        self.stage
    }

    /// Decides what becomes of a shader object once its compile status is
    /// known.
    pub fn from_compile_status(stage: ShaderStage, handle: u32, status: i32) -> (r: BuildOutcome<
        GlShader,
    >)
        ensures
            handle == 0 ==> r is NotCreated,
            handle != 0 && status == 0 ==> r == BuildOutcome::<GlShader>::Failed(handle),
            handle != 0 && status != 0 ==> r is Ready && r->Ready_0.spec_handle() == handle
                && r->Ready_0.spec_stage() == stage,
    {
        if handle == 0 {
            BuildOutcome::NotCreated
        } else if status == 0 {
            BuildOutcome::Failed(handle)
        } else {
            BuildOutcome::Ready(GlShader { handle, stage })
        }
    }

    /// Gives up ownership of the native handle and returns it; the wrapper is
    /// left released. A released wrapper returns zero, so a handle is handed
    /// out for deletion at most once.
    pub fn detach(&mut self) -> (r: u32)
        ensures
            r == old(self).spec_handle(),
            final(self).spec_handle() == 0,
            final(self).spec_stage() == old(self).spec_stage(),
    {
        let h = self.handle;
        self.handle = 0;
        h
    }
}

/// An owned, linked shader program. A handle of zero means the program has
/// been released.
#[derive(Debug)]
pub struct GlShaderProgram {
    handle: u32,
}

impl GlShaderProgram {
    pub closed spec fn spec_handle(&self) -> u32 {
        self.handle
    }

    pub fn handle(&self) -> (r: u32)
        ensures
            r == self.spec_handle(),
    {
        self.handle
    }

    /// Decides what becomes of a program object once its link status is
    /// known.
    pub fn from_link_status(handle: u32, status: i32) -> (r: BuildOutcome<GlShaderProgram>)
        ensures
            handle == 0 ==> r is NotCreated,
            handle != 0 && status == 0 ==> r == BuildOutcome::<GlShaderProgram>::Failed(handle),
            handle != 0 && status != 0 ==> r is Ready && r->Ready_0.spec_handle() == handle,
    {
        if handle == 0 {
            BuildOutcome::NotCreated
        } else if status == 0 {
            BuildOutcome::Failed(handle)
        } else {
            BuildOutcome::Ready(GlShaderProgram { handle })
        }
    }

    /// Gives up ownership of the native handle and returns it; the wrapper is
    /// left released.
    pub fn detach(&mut self) -> (r: u32)
        ensures
            r == old(self).spec_handle(),
            final(self).spec_handle() == 0,
    {
        let h = self.handle;
        self.handle = 0;
        h
    }
}

/// One native call of the program build sequence.
#[derive(Clone, Copy, Debug, PartialEq, Eq, Structural)]
pub enum LinkStep {
    Attach { program: u32, shader: u32 },
    /// Bind the attribute named by entry `binding` of the bindings list to
    /// `slot`.
    BindAttribLocation { program: u32, slot: u32, binding: usize },
    Link { program: u32 },
    Detach { program: u32, shader: u32 },
}

pub open spec fn shader_handles(shaders: Seq<GlShader>) -> Seq<u32> {
    shaders.map_values(|s: GlShader| s.spec_handle())
}

pub open spec fn binding_slots(bindings: Seq<(u32, &str)>) -> Seq<u32> {
    bindings.map_values(|b: (u32, &str)| b.0)
}

/// Attach every shader, fix every attribute slot, then link.
pub open spec fn link_steps_of(program: u32, shaders: Seq<u32>, slots: Seq<u32>) -> Seq<LinkStep> {
    Seq::new(shaders.len(), |i: int| LinkStep::Attach { program, shader: shaders[i] }) + Seq::new(
        slots.len(),
        |i: int| LinkStep::BindAttribLocation { program, slot: slots[i], binding: i as usize },
    ) + seq![LinkStep::Link { program }]
}

/// After a successful link the shaders are detached; the program keeps what
/// it needs.
pub open spec fn detach_steps_of(program: u32, shaders: Seq<u32>) -> Seq<LinkStep> {
    Seq::new(shaders.len(), |i: int| LinkStep::Detach { program, shader: shaders[i] })
}

impl GlShaderProgram {
    /// The calls that build `program` from `shaders` with the given
    /// attribute bindings, up to and including the link.
    pub fn link_steps(program: u32, shaders: &[GlShader], attrib_bindings: &[(u32, &str)]) -> (r:
        Vec<LinkStep>)
        ensures
            r@ == link_steps_of(program, shader_handles(shaders@), binding_slots(attrib_bindings@)),
    {
        let ghost handles = shader_handles(shaders@);
        let ghost slots = binding_slots(attrib_bindings@);
        let mut r: Vec<LinkStep> = Vec::new();
        let mut i: usize = 0;
        while i < shaders.len()
            invariant
                0 <= i <= shaders@.len(),
                handles == shader_handles(shaders@),
                r@ == Seq::new(i as nat, |j: int| LinkStep::Attach { program, shader: handles[j] }),
            decreases shaders@.len() - i,
        {
            r.push(LinkStep::Attach { program, shader: shaders[i].handle() });
            i = i + 1;
            assert(r@ =~= Seq::new(i as nat, |j: int| LinkStep::Attach { program, shader: handles[j] }));
        }
        let ghost attached = r@;
        let mut k: usize = 0;
        while k < attrib_bindings.len()
            invariant
                0 <= k <= attrib_bindings@.len(),
                slots == binding_slots(attrib_bindings@),
                r@ == attached + Seq::new(
                    k as nat,
                    |j: int| LinkStep::BindAttribLocation { program, slot: slots[j], binding: j as usize },
                ),
            decreases attrib_bindings@.len() - k,
        {
            r.push(LinkStep::BindAttribLocation { program, slot: attrib_bindings[k].0, binding: k });
            k = k + 1;
            assert(r@ =~= attached + Seq::new(
                k as nat,
                |j: int| LinkStep::BindAttribLocation { program, slot: slots[j], binding: j as usize },
            ));
        }
        r.push(LinkStep::Link { program });
        assert(r@ =~= link_steps_of(program, handles, slots));
        r
    }

    /// The calls that detach `shaders` from a successfully linked program.
    pub fn detach_steps(&self, shaders: &[GlShader]) -> (r: Vec<LinkStep>)
        ensures
            r@ == detach_steps_of(self.spec_handle(), shader_handles(shaders@)),
    {
        let ghost handles = shader_handles(shaders@);
        let mut r: Vec<LinkStep> = Vec::new();
        let mut i: usize = 0;
        while i < shaders.len()
            invariant
                0 <= i <= shaders@.len(),
                handles == shader_handles(shaders@),
                r@ == Seq::new(
                    i as nat,
                    |j: int| LinkStep::Detach { program: self.spec_handle(), shader: handles[j] },
                ),
            decreases shaders@.len() - i,
        {
            r.push(LinkStep::Detach { program: self.handle, shader: shaders[i].handle() });
            i = i + 1;
            assert(r@ =~= Seq::new(
                i as nat,
                |j: int| LinkStep::Detach { program: self.spec_handle(), shader: handles[j] },
            ));
        }
        r
    }
}

/// The attribute names the world program binds: the position and the texture
/// coordinate, NUL-terminated for the native API.
pub fn world_attrib_bindings() -> (r: Vec<(u32, &'static str)>)
    ensures
        binding_slots(r@) == seq![A_POSITION, A_TEX_COORD],
        r@[0].1@ == "a_position\0"@,
        r@[1].1@ == "a_tex_coord\0"@,
{
    let r = vec![(A_POSITION, "a_position\0"), (A_TEX_COORD, "a_tex_coord\0")];
    assert(binding_slots(r@) =~= seq![A_POSITION, A_TEX_COORD]);
    r
}

impl GlBindable for GlShaderProgram {
    open spec fn target(&self) -> BindTarget {
        BindTarget::Program(self.spec_handle())
    }

    fn bind_target(&self) -> (r: BindTarget) {
        BindTarget::Program(self.handle)
    }
}

/// The vertex attribute slots the engine's programs use.
#[derive(Clone, Copy, Debug, PartialEq, Eq, Structural)]
pub enum ProgramAttribs {
    Position,
    Normal,
    Color,
    TexCoord0,
    TexCoord1,
}

impl ProgramAttribs {
    pub open spec fn spec_slot(self) -> u32 {
        match self {
            ProgramAttribs::Position => 0,
            ProgramAttribs::Normal => 1,
            ProgramAttribs::Color => 2,
            ProgramAttribs::TexCoord0 => 3,
            ProgramAttribs::TexCoord1 => 4,
        }
    }

    pub fn slot(self) -> (r: u32)
        ensures
            r == self.spec_slot(),
    {
        match self {
            ProgramAttribs::Position => 0,
            ProgramAttribs::Normal => 1,
            ProgramAttribs::Color => 2,
            ProgramAttribs::TexCoord0 => 3,
            ProgramAttribs::TexCoord1 => 4,
        }
    }
}

impl From<ProgramAttribs> for u32 {
    fn from(value: ProgramAttribs) -> (r: u32) {
        value.slot()
    }
}

impl vstd::std_specs::convert::FromSpecImpl<ProgramAttribs> for u32 {
    open spec fn obeys_from_spec() -> bool {
        true
    }

    open spec fn from_spec(v: ProgramAttribs) -> u32 {
        v.spec_slot()
    }
}

pub const U_MODEL_MATRIX: &'static str = "u_model_matrix\0";

pub const U_VIEW_MATRIX: &'static str = "u_view_matrix\0";

pub const U_PROJECTION_MATRIX: &'static str = "u_projection_matrix\0";

pub const U_RESOLUTION: &'static str = "u_resolution\0";

pub const U_TEXTURE0: &'static str = "u_texture0\0";

pub const U_TEXTURE1: &'static str = "u_texture1\0";

/// Uniform locations of a linked program, looked up once after linking. A
/// negative location (the API reports -1) marks a uniform the program does
/// not declare; uploads to it are skipped.
#[derive(Clone, Copy, Debug)]
pub struct Uniforms {
    pub u_model_matrix: i32,
    pub u_view_matrix: i32,
    pub u_projection_matrix: i32,
    pub u_resolution: i32,
    pub u_texture0: i32,
    pub u_texture1: i32,
}

} // verus!
