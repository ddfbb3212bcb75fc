//! Drawable objects and the session that builds one.
//!
//! Building an object takes several backend steps: compile the vertex stage,
//! compile the fragment stage, link the program, then for each named vertex
//! array upload it into a fresh buffer and resolve its attribute location. A
//! [`Builder`] says which step is due ([`Builder::request`]), the host performs
//! it and reports the backend's answer, and the builder decides what follows.
//! A failed compile or link ends the session with the backend's log kept
//! verbatim; nothing partial is ever handed out.
use vstd::prelude::*;
use crate::gl::PrimitiveKind;

verus! {

/// Number of float components per vertex in every uploaded array.
pub const COMPONENTS: usize = 3;

/// A named vertex array. `data` holds the IEEE-754 single-precision bit
/// patterns of the array's floats, in order.
#[derive(Clone, Debug)]
pub struct VertexArray {
    pub name: String,
    pub data: Vec<u32>,
}

/// The two shader stages of a program.
#[derive(Clone, Copy, Debug, PartialEq, Eq, Structural)]
pub enum ShaderStage {
    Vertex,
    Fragment,
}

/// Why a drawable object could not be built.
#[derive(Clone, Debug)]
pub enum BuildError {
    /// A shader stage did not compile; `log` is the backend's diagnostic.
    ShaderCompile { stage: ShaderStage, log: String },
    /// The program did not link; `log` is the backend's diagnostic.
    ProgramLink { log: String },
    /// The linked program has no active attribute of this name.
    UnknownAttribute { name: String },
}

/// What a drawable object holds, as values.
pub struct ObjectView {
    pub program: u32,
    pub slots: Seq<u32>,
    pub buffers: Seq<u32>,
    pub vertex: Seq<VertexArray>,
    pub vertex_count: nat,
    pub kind: PrimitiveKind,
}

/// Vertices per draw call for these arrays: the length of the first array
/// divided by the component count, or none without arrays.
pub open spec fn vertex_count_of(arrays: Seq<VertexArray>) -> nat {
    if arrays.len() == 0 {
        0
    } else {
        arrays[0].data@.len() / (COMPONENTS as nat)
    }
}

/// One linked program with its vertex buffers and attribute slots. The
/// slots, buffers and vertex arrays are index-aligned, in declaration order.
#[derive(Debug)]
pub struct RenderObject {
    shader_program: u32,
    attributes: Vec<u32>,
    buffers: Vec<u32>,
    vertex: Vec<VertexArray>,
    vertex_count: usize,
    draw_type: PrimitiveKind,
}

impl View for RenderObject {
    type V = ObjectView;

    closed spec fn view(&self) -> ObjectView {
        ObjectView {
            program: self.shader_program,
            slots: self.attributes@,
            buffers: self.buffers@,
            vertex: self.vertex@,
            vertex_count: self.vertex_count as nat,
            kind: self.draw_type,
        }
    }
}

impl RenderObject {
    #[verifier::type_invariant]
    closed spec fn aligned(&self) -> bool {
        &&& self.attributes@.len() == self.buffers@.len()
        &&& self.buffers@.len() == self.vertex@.len()
    }

    /// Handle of the linked program.
    pub fn shader_program(&self) -> (r: u32)
        ensures
            r == self@.program,
    {
        self.shader_program
    }

    /// Attribute locations, as the backend resolved them.
    pub fn attributes(&self) -> (r: &Vec<u32>)
        ensures
            r@ == self@.slots,
    {
        &self.attributes
    }

    /// Buffer handles; there is one per attribute slot and per vertex array.
    pub fn buffers(&self) -> (r: &Vec<u32>)
        ensures
            r@ == self@.buffers,
            r@.len() == self@.slots.len(),
            r@.len() == self@.vertex.len(),
    {
        proof {
            use_type_invariant(self);
        }
        &self.buffers
    }

    pub fn vertex(&self) -> (r: &Vec<VertexArray>)
        ensures
            r@ == self@.vertex,
    {
        &self.vertex
    }

    pub fn vertex_count(&self) -> (r: usize)
        ensures
            r == self@.vertex_count,
    {
        self.vertex_count
    }

    pub fn draw_type(&self) -> (r: PrimitiveKind)
        ensures
            r == self@.kind,
    {
        self.draw_type
    }
}

/// The backend step a build session is waiting for.
#[derive(Clone, Copy, Debug, PartialEq, Eq, Structural)]
pub enum BuildRequest {
    /// Compile the source of this stage.
    Compile(ShaderStage),
    /// Link a program from the two compiled stages, then release the stages.
    Link,
    /// Upload the vertex array at this index into a new buffer and resolve
    /// the attribute location of its name in the linked program.
    Upload(usize),
    /// Nothing more: the session has its result.
    Finished,
}

/// The state of a build session, as values.
pub struct BuildState {
    pub request: BuildRequest,
    pub failure: Option<BuildError>,
    pub program: u32,
    pub slots: Seq<u32>,
    pub buffers: Seq<u32>,
    pub arrays: Seq<VertexArray>,
    pub kind: PrimitiveKind,
}

impl BuildState {
    /// A fresh session: the vertex stage is compiled first.
    pub open spec fn initial(arrays: Seq<VertexArray>, kind: PrimitiveKind) -> BuildState {
        BuildState {
            request: BuildRequest::Compile(ShaderStage::Vertex),
            failure: None,
            program: 0,
            slots: Seq::empty(),
            buffers: Seq::empty(),
            arrays,
            kind,
        }
    }

    pub open spec fn wf(self) -> bool {
        &&& self.arrays.len() <= usize::MAX
        &&& self.failure is Some ==> self.request == BuildRequest::Finished
        &&& match self.request {
            BuildRequest::Upload(i) => {
                &&& i < self.arrays.len()
                &&& self.slots.len() == i
                &&& self.buffers.len() == i
            },
            BuildRequest::Finished => self.failure is None ==> {
                &&& self.slots.len() == self.arrays.len()
                &&& self.buffers.len() == self.arrays.len()
            },
            _ => {
                &&& self.slots.len() == 0
                &&& self.buffers.len() == 0
            },
        }
    }

    /// The session ended with this error.
    pub open spec fn failed(self, e: BuildError) -> BuildState {
        BuildState { request: BuildRequest::Finished, failure: Some(e), ..self }
    }

    /// The step after linking: the first upload, or the end without arrays.
    pub open spec fn first_upload(self) -> BuildRequest {
        if self.arrays.len() == 0 {
            BuildRequest::Finished
        } else {
            BuildRequest::Upload(0)
        }
    }

    /// The backend compiled the requested stage, or failed with `log`.
    pub open spec fn compiled(self, ok: bool, log: String) -> BuildState {
        match self.request {
            BuildRequest::Compile(stage) => if !ok {
                self.failed(BuildError::ShaderCompile { stage, log })
            } else if stage == ShaderStage::Vertex {
                BuildState { request: BuildRequest::Compile(ShaderStage::Fragment), ..self }
            } else {
                BuildState { request: BuildRequest::Link, ..self }
            },
            _ => self,
        }
    }

    /// The backend linked `program`, or failed with `log`.
    pub open spec fn linked(self, program: u32, ok: bool, log: String) -> BuildState {
        match self.request {
            BuildRequest::Link => if !ok {
                self.failed(BuildError::ProgramLink { log })
            } else {
                BuildState { request: self.first_upload(), program, ..self }
            },
            _ => self,
        }
    }

    /// The backend uploaded the requested array into `buffer` and resolved
    /// its name to `location`; a negative location means the program has
    /// no such attribute, which ends the session.
    pub open spec fn uploaded(self, buffer: u32, location: i32) -> BuildState {
        match self.request {
            BuildRequest::Upload(i) => if location < 0 {
                self.failed(BuildError::UnknownAttribute { name: self.arrays[i as int].name })
            } else {
                BuildState {
                request: if i + 1 < self.arrays.len() {
                    BuildRequest::Upload((i + 1) as usize)
                } else {
                    BuildRequest::Finished
                },
                    slots: self.slots.push(location as u32),
                    buffers: self.buffers.push(buffer),
                    ..self
                }
            },
            _ => self,
        }
    }

    /// The object a successful session hands out.
    pub open spec fn object(self) -> ObjectView {
        ObjectView {
            program: self.program,
            slots: self.slots,
            buffers: self.buffers,
            vertex: self.arrays,
            vertex_count: vertex_count_of(self.arrays),
            kind: self.kind,
        }
    }
}

/// The session after the shader steps: each stage is compiled and the
/// program linked only when the session asks for that step.
pub open spec fn after_shader_steps(
    s: BuildState,
    vertex_ok: bool,
    vertex_log: String,
    fragment_ok: bool,
    fragment_log: String,
    program: u32,
    link_ok: bool,
    link_log: String,
) -> BuildState {
    let s1 = s.compiled(vertex_ok, vertex_log);
    let s2 = if s1.request is Compile {
        s1.compiled(fragment_ok, fragment_log)
    } else {
        s1
    };
    if s2.request is Link {
        s2.linked(program, link_ok, link_log)
    } else {
        s2
    }
}

/// The session after the backend answered each requested upload in turn
/// with the buffer and location of `replies`.
pub open spec fn after_uploads(s: BuildState, replies: Seq<(u32, i32)>) -> BuildState
    decreases replies.len(),
{
    if replies.len() == 0 || !(s.request is Upload) {
        s
    } else {
        after_uploads(s.uploaded(replies[0].0, replies[0].1), replies.drop_first())
    }
}

/// For arrays whose names all resolve, a build succeeds exactly when both
/// stages compile and the program links. A failed stage or link ends the
/// session with that step's error and the backend's log unchanged; once
/// linked, one upload reply per array finishes the session with no error.
pub proof fn lemma_build_succeeds_iff_compiled_and_linked(
    arrays: Seq<VertexArray>,
    kind: PrimitiveKind,
    vertex_ok: bool,
    vertex_log: String,
    fragment_ok: bool,
    fragment_log: String,
    program: u32,
    link_ok: bool,
    link_log: String,
    replies: Seq<(u32, i32)>,
)
    requires
        arrays.len() <= usize::MAX,
        replies.len() == arrays.len(),
        forall|k: int| 0 <= k < replies.len() ==> replies[k].1 >= 0,
    ensures
        ({
            let s = after_shader_steps(
                BuildState::initial(arrays, kind),
                vertex_ok,
                vertex_log,
                fragment_ok,
                fragment_log,
                program,
                link_ok,
                link_log,
            );
            let t = after_uploads(s, replies);
            &&& t.request == BuildRequest::Finished
            &&& t.failure is None <==> vertex_ok && fragment_ok && link_ok
            &&& !vertex_ok ==> t.failure == Some(
                BuildError::ShaderCompile { stage: ShaderStage::Vertex, log: vertex_log },
            )
            &&& vertex_ok && !fragment_ok ==> t.failure == Some(
                BuildError::ShaderCompile { stage: ShaderStage::Fragment, log: fragment_log },
            )
            &&& vertex_ok && fragment_ok && !link_ok ==> t.failure == Some(
                BuildError::ProgramLink { log: link_log },
            )
            &&& t.failure is None ==> t.program == program && t.slots.len() == arrays.len()
        }),
{
    let s = after_shader_steps(
        BuildState::initial(arrays, kind),
        vertex_ok,
        vertex_log,
        fragment_ok,
        fragment_log,
        program,
        link_ok,
        link_log,
    );
    if s.request is Upload {
        lemma_uploads_finish(s, replies);
    }
}

/// Answering every remaining upload finishes a linked session without error.
proof fn lemma_uploads_finish(s: BuildState, replies: Seq<(u32, i32)>)
    requires
        s.wf(),
        s.request matches BuildRequest::Upload(i) && replies.len() == s.arrays.len() - i,
        forall|k: int| 0 <= k < replies.len() ==> replies[k].1 >= 0,
    ensures
        ({
            let t = after_uploads(s, replies);
            &&& t.request == BuildRequest::Finished
            &&& t.failure == s.failure
            &&& t.program == s.program
            &&& t.arrays == s.arrays
            &&& t.slots.len() == s.arrays.len()
        }),
    decreases replies.len(),
{
    assert(replies[0].1 >= 0);
    let n = s.uploaded(replies[0].0, replies[0].1);
    assert(forall|k: int| 0 <= k < replies.drop_first().len() ==> replies.drop_first()[k] == replies[k + 1]);
    assert(after_uploads(s, replies) == after_uploads(n, replies.drop_first()));
    if n.request is Upload {
        lemma_uploads_finish(n, replies.drop_first());
    } else {
        assert(replies.drop_first().len() == 0);
    }
}

/// A session that builds one [`RenderObject`] from named vertex arrays.
pub struct Builder {
    request: BuildRequest,
    failure: Option<BuildError>,
    program: u32,
    slots: Vec<u32>,
    buffers: Vec<u32>,
    arrays: Vec<VertexArray>,
    kind: PrimitiveKind,
}

impl View for Builder {
    type V = BuildState;

    closed spec fn view(&self) -> BuildState {
        BuildState {
            request: self.request,
            failure: self.failure,
            program: self.program,
            slots: self.slots@,
            buffers: self.buffers@,
            arrays: self.arrays@,
            kind: self.kind,
        }
    }
}

impl Builder {
    /// Starts a session for these arrays, in the order given.
    pub fn new(arrays: Vec<VertexArray>, kind: PrimitiveKind) -> (r: Builder)
        ensures
            r@ == BuildState::initial(arrays@, kind),
            r@.wf(),
    {
        let count: usize = arrays.len();
        assert(count == arrays@.len());
        Builder {
            request: BuildRequest::Compile(ShaderStage::Vertex),
            failure: None,
            program: 0,
            slots: Vec::new(),
            buffers: Vec::new(),
            arrays,
            kind,
        }
    }

    /// The step the session waits for.
    pub fn request(&self) -> (r: BuildRequest)
        ensures
            r == self@.request,
    {
        self.request
    }

    /// The arrays to upload, in upload order.
    pub fn arrays(&self) -> (r: &Vec<VertexArray>)
        ensures
            r@ == self@.arrays,
    {
        &self.arrays
    }

    /// The error that ended the session, if one did.
    pub fn failure(&self) -> (r: &Option<BuildError>)
        ensures
            *r == self@.failure,
    {
        &self.failure
    }

    /// Reports the outcome of compiling the requested stage.
    pub fn shader_compiled(&mut self, compiled: bool, log: String)
        requires
            old(self)@.wf(),
            old(self)@.request is Compile,
        ensures
            final(self)@.wf(),
            final(self)@ == old(self)@.compiled(compiled, log),
    {
        if let BuildRequest::Compile(stage) = self.request {
            if !compiled {
                self.failure = Some(BuildError::ShaderCompile { stage, log });
                self.request = BuildRequest::Finished;
            } else {
                match stage {
                    ShaderStage::Vertex => {
                        self.request = BuildRequest::Compile(ShaderStage::Fragment);
                    },
                    ShaderStage::Fragment => {
                        self.request = BuildRequest::Link;
                    },
                }
            }
        }
    }

    /// Reports the outcome of linking; `program` is the new program's handle.
    pub fn program_linked(&mut self, program: u32, linked: bool, log: String)
        requires
            old(self)@.wf(),
            old(self)@.request is Link,
        ensures
            final(self)@.wf(),
            final(self)@ == old(self)@.linked(program, linked, log),
    {
        if !linked {
            self.failure = Some(BuildError::ProgramLink { log });
            self.request = BuildRequest::Finished;
        } else {
            self.program = program;
            self.request = if self.arrays.len() == 0 {
                BuildRequest::Finished
            } else {
                BuildRequest::Upload(0)
            };
        }
    }

    /// Reports the buffer that received the requested array and the
    /// attribute location its name resolved to. A negative location, the
    /// backend's answer for a name with no active attribute, fails the build.
    pub fn array_uploaded(&mut self, buffer: u32, location: i32)
        requires
            old(self)@.wf(),
            old(self)@.request is Upload,
        ensures
            final(self)@.wf(),
            final(self)@ == old(self)@.uploaded(buffer, location),
    {
        if let BuildRequest::Upload(i) = self.request {
            let n = self.arrays.len();
            if location < 0 {
                let name = self.arrays[i].name.clone();
                self.failure = Some(BuildError::UnknownAttribute { name });
                self.request = BuildRequest::Finished;
            } else {
                self.slots.push(location as u32);
                self.buffers.push(buffer);
                self.request = if i + 1 < n {
                    BuildRequest::Upload(i + 1)
                } else {
                    BuildRequest::Finished
                };
            }
        }
    }

    /// Ends a finished session: the object, or the error that stopped it.
    /// An object has exactly one slot and one buffer per array, also when
    /// there are no arrays.
    pub fn finish(self) -> (r: Result<RenderObject, BuildError>)
        requires
            self@.wf(),
            self@.request is Finished,
        ensures
            match self@.failure {
                Some(e) => r == Err::<RenderObject, BuildError>(e),
                None => r matches Ok(o) && o@ == self@.object() && o@.slots.len() == o@.buffers.len()
                    && o@.buffers.len() == o@.vertex.len(),
            },
    {
        let Builder { request, failure, program, slots, buffers, arrays, kind } = self;
        match failure {
            Some(e) => Err(e),
            None => {
                let vertex_count = if arrays.len() == 0 {
                    0
                } else {
                    arrays[0].data.len() / COMPONENTS
                };
                Ok(
                    RenderObject {
                        shader_program: program,
                        attributes: slots,
                        buffers,
                        vertex: arrays,
                        vertex_count,
                        draw_type: kind,
                    },
                )
            },
        }
    }
}

} // verus!
