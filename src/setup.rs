//! Building the resource bundle: the order of the acquisition steps, the
//! check after each one, and the bundle that results once all have succeeded.
use vstd::prelude::*;

verus! {

/// The stage a shader object is compiled for.
#[derive(Clone, Copy, Debug, PartialEq, Eq, Structural)]
pub enum ShaderStage {
    Vertex,
    Fragment,
}

/// How far bundle construction has come.
#[derive(Clone, Copy, Debug, PartialEq, Eq, Structural)]
pub enum Stage {
    VertexBuffer,
    ElementBuffer,
    FirstTexture,
    SecondTexture,
    VertexShader,
    FragmentShader,
    Program,
    Locations,
    Failed,
}

/// What the host is asked to do next.
#[derive(Clone, Copy, Debug, PartialEq, Eq, Structural)]
pub enum SetupAction {
    /// Upload the quad's corner coordinates and hand back the buffer handle.
    MakeVertexBuffer,
    /// Upload the quad's draw order and hand back the buffer handle.
    MakeElementBuffer,
    /// Decode and upload texture number `slot` and hand back its handle,
    /// or 0 if that failed.
    MakeTexture { slot: usize },
    /// Compile the shader for `stage` and hand back its handle, or 0.
    CompileShader { stage: ShaderStage },
    /// Link the two shaders and hand back the program handle, or 0.
    LinkProgram { vertex_shader: u32, fragment_shader: u32 },
    /// Look up the program's uniform and attribute locations.
    ResolveLocations { program: u32 },
    /// A step failed: there is no bundle.
    GiveUp,
}

/// Locations of the program's uniforms.
#[derive(Clone, Copy, Debug)]
pub struct Uniforms {
    pub timer: i32,
    pub textures: [i32; 2],
}

/// Locations of the program's vertex attributes.
#[derive(Clone, Copy, Debug)]
pub struct Attributes {
    pub position: i32,
}

/// Everything one draw call needs: buffer, texture and program handles,
/// resolved locations, and the animation timer in millionths.
#[derive(Clone, Copy, Debug)]
pub struct GResources {
    pub vertex_buffer: u32,
    pub element_buffer: u32,
    pub program: u32,
    pub textures: [u32; 2],
    pub uniforms: Uniforms,
    pub attributes: Attributes,
    pub timer_micros: u128,
}

impl GResources {
    /// Textures and program are live objects (0 names no object).
    pub open spec fn handles_live(&self) -> bool {
        &&& self.textures@[0] != 0
        &&& self.textures@[1] != 0
        &&& self.program != 0
    }
}

/// Bundle construction in progress: the stage reached and the handles that
/// earlier stages produced.
#[derive(Clone, Copy, Debug)]
pub struct Setup {
    pub stage: Stage,
    pub vertex_buffer: u32,
    pub element_buffer: u32,
    pub textures: [u32; 2],
    pub vertex_shader: u32,
    pub fragment_shader: u32,
    pub program: u32,
}

/// Position of a stage in the sequence; `Failed` stands apart.
pub open spec fn rank(stage: Stage) -> nat {
    match stage {
        Stage::VertexBuffer => 0,
        Stage::ElementBuffer => 1,
        Stage::FirstTexture => 2,
        Stage::SecondTexture => 3,
        Stage::VertexShader => 4,
        Stage::FragmentShader => 5,
        Stage::Program => 6,
        Stage::Locations => 7,
        Stage::Failed => 0,
    }
}

impl Setup {
    /// Every checked handle of a stage already passed is a live object.
    pub open spec fn wf(&self) -> bool {
        self.stage != Stage::Failed ==> {
            &&& rank(self.stage) >= 4 ==> self.textures@[0] != 0 && self.textures@[1] != 0
            &&& rank(self.stage) >= 5 ==> self.vertex_shader != 0
            &&& rank(self.stage) >= 6 ==> self.fragment_shader != 0
            &&& rank(self.stage) >= 7 ==> self.program != 0
        }
    }

    /// The request that belongs to the current stage.
    pub open spec fn action_spec(&self) -> SetupAction {
        match self.stage {
            Stage::VertexBuffer => SetupAction::MakeVertexBuffer,
            Stage::ElementBuffer => SetupAction::MakeElementBuffer,
            Stage::FirstTexture => SetupAction::MakeTexture { slot: 0 },
            Stage::SecondTexture => SetupAction::MakeTexture { slot: 1 },
            Stage::VertexShader => SetupAction::CompileShader { stage: ShaderStage::Vertex },
            Stage::FragmentShader => SetupAction::CompileShader { stage: ShaderStage::Fragment },
            Stage::Program => SetupAction::LinkProgram {
                vertex_shader: self.vertex_shader,
                fragment_shader: self.fragment_shader,
            },
            Stage::Locations => SetupAction::ResolveLocations { program: self.program },
            Stage::Failed => SetupAction::GiveUp,
        }
    }

    /// The state after the host hands back `handle` for the current request.
    /// Buffers are taken as they come; both textures are made before either
    /// is checked; a zero texture, shader or program handle ends in `Failed`.
    /// Stages that take no handle are left as they are.
    pub open spec fn advance(self, handle: u32) -> Setup {
        match self.stage {
            Stage::VertexBuffer => Setup {
                stage: Stage::ElementBuffer,
                vertex_buffer: handle,
                ..self
            },
            Stage::ElementBuffer => Setup {
                stage: Stage::FirstTexture,
                element_buffer: handle,
                ..self
            },
            Stage::FirstTexture => Setup {
                stage: Stage::SecondTexture,
                textures: [handle, self.textures@[1]],
                ..self
            },
            Stage::SecondTexture => Setup {
                stage: if self.textures@[0] == 0 || handle == 0 {
                    Stage::Failed
                } else {
                    Stage::VertexShader
                },
                textures: [self.textures@[0], handle],
                ..self
            },
            Stage::VertexShader => Setup {
                stage: if handle == 0 {
                    Stage::Failed
                } else {
                    Stage::FragmentShader
                },
                vertex_shader: handle,
                ..self
            },
            Stage::FragmentShader => Setup {
                stage: if handle == 0 {
                    Stage::Failed
                } else {
                    Stage::Program
                },
                fragment_shader: handle,
                ..self
            },
            Stage::Program => Setup {
                stage: if handle == 0 {
                    Stage::Failed
                } else {
                    Stage::Locations
                },
                program: handle,
                ..self
            },
            Stage::Locations => self,
            Stage::Failed => self,
        }
    }

    /// The state before any step: no handle acquired yet.
    pub open spec fn initial() -> Setup {
        Setup {
            stage: Stage::VertexBuffer,
            vertex_buffer: 0,
            element_buffer: 0,
            textures: [0, 0],
            vertex_shader: 0,
            fragment_shader: 0,
            program: 0,
        }
    }

    /// The state after the host's answers `answers`, in order, from `self`.
    pub open spec fn run(self, answers: Seq<u32>) -> Setup
        decreases answers.len(),
    {
        if answers.len() == 0 {
            self
        } else {
            self.advance(answers[0]).run(answers.drop_first())
        }
    }

    /// A construction that has not started yet.
    pub fn new() -> (r: Setup)
        ensures
            r == Setup::initial(),
            r.wf(),
    {
        Setup {
            stage: Stage::VertexBuffer,
            vertex_buffer: 0,
            element_buffer: 0,
            textures: [0, 0],
            vertex_shader: 0,
            fragment_shader: 0,
            program: 0,
        }
    }

    /// What the host should do next.
    pub fn next_action(&self) -> (r: SetupAction)
        ensures
            r == self.action_spec(),
    {
        match self.stage {
            Stage::VertexBuffer => SetupAction::MakeVertexBuffer,
            Stage::ElementBuffer => SetupAction::MakeElementBuffer,
            Stage::FirstTexture => SetupAction::MakeTexture { slot: 0 },
            Stage::SecondTexture => SetupAction::MakeTexture { slot: 1 },
            Stage::VertexShader => SetupAction::CompileShader { stage: ShaderStage::Vertex },
            Stage::FragmentShader => SetupAction::CompileShader { stage: ShaderStage::Fragment },
            Stage::Program => SetupAction::LinkProgram {
                vertex_shader: self.vertex_shader,
                fragment_shader: self.fragment_shader,
            },
            Stage::Locations => SetupAction::ResolveLocations { program: self.program },
            Stage::Failed => SetupAction::GiveUp,
        }
    }

    /// Records the handle produced for the current request.
    pub fn supply_handle(&mut self, handle: u32)
        requires
            old(self).wf(),
        ensures
            *final(self) == old(self).advance(handle),
            final(self).wf(),
    {
        match self.stage {
            Stage::VertexBuffer => {
                self.vertex_buffer = handle;
                self.stage = Stage::ElementBuffer;
            },
            Stage::ElementBuffer => {
                self.element_buffer = handle;
                self.stage = Stage::FirstTexture;
            },
            Stage::FirstTexture => {
                self.textures = [handle, self.textures[1]];
                self.stage = Stage::SecondTexture;
            },
            Stage::SecondTexture => {
                let first = self.textures[0];
                self.textures = [first, handle];
                self.stage = if first == 0 || handle == 0 {
                    Stage::Failed
                } else {
                    Stage::VertexShader
                };
            },
            Stage::VertexShader => {
                self.vertex_shader = handle;
                self.stage = if handle == 0 {
                    Stage::Failed
                } else {
                    Stage::FragmentShader
                };
            },
            Stage::FragmentShader => {
                self.fragment_shader = handle;
                self.stage = if handle == 0 {
                    Stage::Failed
                } else {
                    Stage::Program
                };
            },
            Stage::Program => {
                self.program = handle;
                self.stage = if handle == 0 {
                    Stage::Failed
                } else {
                    Stage::Locations
                };
            },
            Stage::Locations => {},
            Stage::Failed => {},
        }
    }

    /// The bundle, once every handle has been acquired and the locations
    /// resolved; `None` at any other stage. The timer starts at zero.
    pub fn finish(&self, uniforms: Uniforms, attributes: Attributes) -> (r: Option<GResources>)
        requires
            self.wf(),
        ensures
            r is Some <==> self.stage == Stage::Locations,
            r matches Some(b) ==> {
                &&& b.vertex_buffer == self.vertex_buffer
                &&& b.element_buffer == self.element_buffer
                &&& b.program == self.program
                &&& b.textures == self.textures
                &&& b.uniforms == uniforms
                &&& b.attributes == attributes
                &&& b.timer_micros == 0
                &&& b.handles_live()
            },
    {
        match self.stage {
            Stage::Locations => Some(
                GResources {
                    vertex_buffer: self.vertex_buffer,
                    element_buffer: self.element_buffer,
                    program: self.program,
                    textures: self.textures,
                    uniforms,
                    attributes,
                    timer_micros: 0,
                },
            ),
            _ => None,
        }
    }
}

/// The result of creating a shader or program object and querying its
/// compile or link status.
#[derive(Clone, Copy, Debug, PartialEq, Eq, Structural)]
pub enum Acquired {
    /// The object exists and its status flag is set.
    Ready(u32),
    /// The object failed: the host shows its info log and deletes it.
    Rejected(u32),
}

/// An object is usable when its handle names an object (not 0) and its
/// status flag is set (not 0).
pub open spec fn usable(handle: u32, status: i32) -> bool {
    handle != 0 && status != 0
}

/// Classifies a freshly created object by its handle and status flag.
pub fn check_status(handle: u32, status: i32) -> (r: Acquired)
    ensures
        r == outcome(handle, status),
{
    if handle != 0 && status != 0 {
        Acquired::Ready(handle)
    } else {
        Acquired::Rejected(handle)
    }
}

/// What `check_status` returns for `handle` and `status`.
pub open spec fn outcome(handle: u32, status: i32) -> Acquired {
    if usable(handle, status) {
        Acquired::Ready(handle)
    } else {
        Acquired::Rejected(handle)
    }
}

impl Acquired {
    /// The handle to pass on: the object's on success, 0 on failure.
    pub open spec fn handle_spec(self) -> u32 {
        match self {
            Acquired::Ready(h) => h,
            Acquired::Rejected(_) => 0,
        }
    }

    /// The handle to pass on: the object's on success, 0 on failure.
    pub fn handle(&self) -> (r: u32)
        ensures
            r == self.handle_spec(),
    {
        match *self {
            Acquired::Ready(h) => h,
            Acquired::Rejected(_) => 0,
        }
    }
}

/// A failed compile or link status always yields the null handle, whatever
/// object was created, and a set status on a live object keeps its handle.
pub proof fn lemma_failed_status_gives_null(handle: u32, status: i32)
    ensures
        outcome(handle, 0).handle_spec() == 0,
        handle != 0 && status != 0 ==> outcome(handle, status).handle_spec() == handle,
{
}

/// Once construction has failed, no later answer revives it, and no bundle
/// is ever produced.
pub proof fn lemma_failure_is_final(s: Setup, handle: u32)
    requires
        s.stage == Stage::Failed,
    ensures
        s.advance(handle).stage == Stage::Failed,
        s.action_spec() == SetupAction::GiveUp,
{
}

/// When either texture comes back as 0, construction fails as soon as the
/// second texture's answer is recorded, before any shader is compiled.
pub proof fn lemma_missing_texture_aborts(s: Setup, handle: u32)
    requires
        s.stage == Stage::SecondTexture,
        s.textures@[0] == 0 || handle == 0,
    ensures
        s.advance(handle).stage == Stage::Failed,
        s.advance(handle).action_spec() == SetupAction::GiveUp,
{
}

/// A construction that reaches the bundle had live textures and a live
/// program: a bundle is never built around a failed step.
pub proof fn lemma_bundle_only_from_live_handles(s: Setup)
    requires
        s.wf(),
        s.stage == Stage::Locations,
    ensures
        s.textures@[0] != 0,
        s.textures@[1] != 0,
        s.vertex_shader != 0,
        s.fragment_shader != 0,
        s.program != 0,
{
}

/// The steps come in a fixed order: each answer that is not a failure moves
/// construction exactly one stage on.
pub proof fn lemma_steps_in_order(s: Setup, handle: u32)
    requires
        s.stage != Stage::Failed,
        s.stage != Stage::Locations,
        s.advance(handle).stage != Stage::Failed,
    ensures
        rank(s.advance(handle).stage) == rank(s.stage) + 1,
{
}

/// Answers given after a failure change nothing.
pub proof fn lemma_failed_run_stays_failed(s: Setup, answers: Seq<u32>)
    requires
        s.stage == Stage::Failed,
    ensures
        s.run(answers).stage == Stage::Failed,
    decreases answers.len(),
{
    if answers.len() > 0 {
        lemma_failed_run_stays_failed(s.advance(answers[0]), answers.drop_first());
    }
}

/// Whatever the host answers, a construction in which either texture came
/// back as 0 (its file missing or undecodable) ends with no bundle.
pub proof fn lemma_no_bundle_without_textures(answers: Seq<u32>)
    requires
        answers.len() >= 4,
        answers[2] == 0 || answers[3] == 0,
    ensures
        Setup::initial().run(answers).stage == Stage::Failed,
        Setup::initial().run(answers).action_spec() == SetupAction::GiveUp,
{
    let s0 = Setup::initial();
    let s1 = s0.advance(answers[0]);
    let s2 = s1.advance(answers[1]);
    let s3 = s2.advance(answers[2]);
    let s4 = s3.advance(answers[3]);
    let a1 = answers.drop_first();
    let a2 = a1.drop_first();
    let a3 = a2.drop_first();
    let rest = a3.drop_first();
    assert(s0.run(answers) == s1.run(a1));
    assert(s1.run(a1) == s2.run(a2));
    assert(s2.run(a2) == s3.run(a3));
    assert(s3.run(a3) == s4.run(rest));
    assert(s4.stage == Stage::Failed);
    lemma_failed_run_stays_failed(s4, rest);
}

} // verus!
