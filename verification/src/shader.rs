//! Building a linked shader program from two source texts.
//!
//! A build is a conversation with the driver. `ShaderBuild::begin` and
//! `ShaderBuild::step` each hand out a batch of calls; the caller makes them in
//! order and feeds the reply of the last one to the next `step`, until the
//! build ends with a program or with an error.

use crate::gpu::{GpuCall, GpuReply, ReplyModel, Stage};
use vstd::prelude::*;

verus! {

/// The two source texts of a program. They are opaque to the library.
#[derive(Debug)]
pub struct ShaderSource {
    pub vertex: String,
    pub fragment: String,
}

/// Why a build ended without a program.
#[derive(Debug)]
pub enum BuildError {
    /// The driver refused to compile `stage`; `log` is its diagnostic.
    ShaderCompileError { stage: Stage, log: String },
    /// The driver refused to link the stages; `log` is its diagnostic.
    ShaderLinkError { log: String },
    /// The linked program has no attribute called `name`.
    AttributeNotFoundError { name: String },
    /// The driver failed in a way that has no diagnostic.
    FatalDriverError,
}

/// A build error with its text as sequences of characters.
pub enum ErrorModel {
    ShaderCompileError { stage: Stage, log: Seq<char> },
    ShaderLinkError { log: Seq<char> },
    AttributeNotFoundError { name: Seq<char> },
    FatalDriverError,
}

impl View for BuildError {
    type V = ErrorModel;

    open spec fn view(&self) -> ErrorModel {
        match *self {
            BuildError::ShaderCompileError { stage, log } => ErrorModel::ShaderCompileError {
                stage,
                log: log@,
            },
            BuildError::ShaderLinkError { log } => ErrorModel::ShaderLinkError { log: log@ },
            BuildError::AttributeNotFoundError { name } => ErrorModel::AttributeNotFoundError {
                name: name@,
            },
            BuildError::FatalDriverError => ErrorModel::FatalDriverError,
        }
    }
}

/// What the user is shown when a build fails: the driver's diagnostic as it
/// came, the missing name, or a fixed line for a failure without diagnostic.
pub open spec fn diagnostic_of(error: ErrorModel) -> Seq<char> {
    match error {
        ErrorModel::ShaderCompileError { log, .. } => log,
        ErrorModel::ShaderLinkError { log } => log,
        ErrorModel::AttributeNotFoundError { name } => name,
        ErrorModel::FatalDriverError => "the graphics driver failed"@,
    }
}

impl BuildError {
    /// The text to show for this error.
    pub fn diagnostic(&self) -> (text: String)
        ensures
            text@ == diagnostic_of(self@),
    {
        match self {
            BuildError::ShaderCompileError { log, .. } => log.clone(),
            BuildError::ShaderLinkError { log } => log.clone(),
            BuildError::AttributeNotFoundError { name } => name.clone(),
            BuildError::FatalDriverError => "the graphics driver failed".to_owned(),
        }
    }
}

/// The texts of a list of names.
pub open spec fn texts(names: Seq<String>) -> Seq<Seq<char>> {
    Seq::new(names.len(), |i: int| names[i]@)
}

/// What a linked program is: its handle, the attribute names it was asked to
/// resolve, the slot of each, and whether it still owns the handle.
pub struct ProgramModel {
    pub handle: u32,
    pub names: Seq<Seq<char>>,
    pub slots: Seq<u32>,
    pub live: bool,
}

/// A linked program with its attributes resolved. It owns its handle until
/// `release` gives it up.
#[derive(Debug)]
pub struct ShaderProgram {
    handle: u32,
    names: Vec<String>,
    slots: Vec<u32>,
    live: bool,
}

impl View for ShaderProgram {
    type V = ProgramModel;

    closed spec fn view(&self) -> ProgramModel {
        ProgramModel {
            handle: self.handle,
            names: texts(self.names@),
            slots: self.slots@,
            live: self.live,
        }
    }
}

/// The slot of the first of `names` that equals `name`, looking from `from`.
pub open spec fn lookup(names: Seq<Seq<char>>, slots: Seq<u32>, name: Seq<char>, from: int) -> Option<u32>
    decreases names.len() - from,
{
    if from < 0 || from >= names.len() || from >= slots.len() {
        None
    } else if names[from] == name {
        Some(slots[from])
    } else {
        lookup(names, slots, name, from + 1)
    }
}

/// A program is whole: its handle is a real one and every name has its slot.
pub open spec fn whole(p: ProgramModel) -> bool {
    p.handle != 0 && p.slots.len() == p.names.len()
}

impl ShaderProgram {
    /// Every program is whole.
    #[verifier::type_invariant]
    spec fn is_whole(self) -> bool {
        whole(self@)
    }

    /// The driver's handle of the program, never zero.
    pub fn handle(&self) -> (h: u32)
        ensures
            h == self@.handle,
            whole(self@),
    {
        proof {
            use_type_invariant(self);
        }
        self.handle
    }

    /// Whether the program still owns its handle.
    pub fn is_live(&self) -> (live: bool)
        ensures
            live == self@.live,
    {
        self.live
    }

    /// The slot that the attribute `name` was resolved to.
    pub fn slot_of(&self, name: &String) -> (found: Result<u32, BuildError>)
        ensures
            match lookup(self@.names, self@.slots, name@, 0) {
                Some(slot) => found == Ok::<u32, BuildError>(slot),
                None => found is Err && found->Err_0@ == (ErrorModel::AttributeNotFoundError {
                    name: name@,
                }),
            },
    {
        let mut i: usize = 0;
        while i < self.names.len() && i < self.slots.len()
            invariant
                lookup(self@.names, self@.slots, name@, 0) == lookup(
                    self@.names,
                    self@.slots,
                    name@,
                    i as int,
                ),
                self@.names.len() == self.names.len(),
                self@.slots.len() == self.slots.len(),
            decreases self.names.len() - i,
        {
            assert(self@.names[i as int] == self.names@[i as int]@);
            if self.names[i] == *name {
                return Ok(self.slots[i]);
            }
            i += 1;
        }
        Err(BuildError::AttributeNotFoundError { name: name.clone() })
    }

    /// Gives up the handle. The first call asks for the program's deletion;
    /// every later call asks for nothing.
    pub fn release(&mut self) -> (calls: Vec<GpuCall>)
        ensures
            calls@ == program_release_when(old(self)@.live, old(self)@.handle),
            final(self)@ == (ProgramModel { live: false, ..old(self)@ }),
    {
        proof {
            use_type_invariant(&*self);
        }
        let mut calls: Vec<GpuCall> = Vec::new();
        if self.live {
            calls.push(GpuCall::DeleteProgram(self.handle));
            self.live = false;
        }
        proof {
            assert(calls@ =~= program_release_when(old(self)@.live, old(self)@.handle));
        }
        calls
    }
}

/// The call that deletes a program, if it is still owned.
pub open spec fn program_release_when(live: bool, handle: u32) -> Seq<GpuCall> {
    if live {
        seq![GpuCall::DeleteProgram(handle)]
    } else {
        Seq::empty()
    }
}

/// What a build is waiting for.
#[derive(Clone, Copy, Debug, PartialEq, Eq, Structural)]
pub enum Phase {
    /// The handle of the new shader object of a stage.
    AwaitShader(Stage),
    /// The compile status of a stage.
    AwaitCompile(Stage),
    /// The diagnostic of a stage that did not compile.
    AwaitCompileLog(Stage),
    /// The handle of the new program object.
    AwaitProgram,
    /// The link status.
    AwaitLink,
    /// The diagnostic of a program that did not link.
    AwaitLinkLog,
    /// The location of the next attribute name.
    AwaitLocation,
}

/// A build in progress: the objects it owns (zero for none), the names to
/// resolve and the slots resolved so far.
pub struct BuildModel {
    pub vertex_text: Seq<char>,
    pub fragment_text: Seq<char>,
    pub names: Seq<Seq<char>>,
    pub phase: Phase,
    pub vertex: u32,
    pub fragment: u32,
    pub program: u32,
    pub slots: Seq<u32>,
}

/// A build in progress. It owns every driver object created so far.
#[derive(Debug)]
pub struct ShaderBuild {
    source: ShaderSource,
    names: Vec<String>,
    phase: Phase,
    vertex: u32,
    fragment: u32,
    program: u32,
    slots: Vec<u32>,
}

impl View for ShaderBuild {
    type V = BuildModel;

    closed spec fn view(&self) -> BuildModel {
        BuildModel {
            vertex_text: self.source.vertex@,
            fragment_text: self.source.fragment@,
            names: texts(self.names@),
            phase: self.phase,
            vertex: self.vertex,
            fragment: self.fragment,
            program: self.program,
            slots: self.slots@,
        }
    }
}

/// Where a build stands after a reply.
pub enum ProgressModel {
    Pending { build: BuildModel, calls: Seq<GpuCall> },
    Built { program: ProgramModel, calls: Seq<GpuCall> },
    Failed { error: ErrorModel, calls: Seq<GpuCall> },
}

/// Where a build stands after a reply. In each case `calls` are to be made in
/// order. Only `Pending` expects the reply of the last of them.
#[derive(Debug)]
pub enum Progress {
    Pending { build: ShaderBuild, calls: Vec<GpuCall> },
    Built { program: ShaderProgram, calls: Vec<GpuCall> },
    Failed { error: BuildError, calls: Vec<GpuCall> },
}

impl View for Progress {
    type V = ProgressModel;

    open spec fn view(&self) -> ProgressModel {
        match *self {
            Progress::Pending { build, calls } => ProgressModel::Pending { build: build@, calls: calls@ },
            Progress::Built { program, calls } => ProgressModel::Built {
                program: program@,
                calls: calls@,
            },
            Progress::Failed { error, calls } => ProgressModel::Failed { error: error@, calls: calls@ },
        }
    }
}

/// The call that deletes a shader object, if there is one.
pub open spec fn shader_release(shader: u32) -> Seq<GpuCall> {
    if shader == 0 {
        Seq::empty()
    } else {
        seq![GpuCall::DeleteShader(shader)]
    }
}

/// The calls that delete the stage objects a build owns.
pub open spec fn stage_release(m: BuildModel) -> Seq<GpuCall> {
    shader_release(m.vertex) + shader_release(m.fragment)
}

/// The calls that delete every object a build owns.
pub open spec fn release_calls(m: BuildModel) -> Seq<GpuCall> {
    stage_release(m) + program_release_when(m.program != 0, m.program)
}

/// The build that gives up with `error`, deleting what it owns.
pub open spec fn abandoned(m: BuildModel, error: ErrorModel) -> ProgressModel {
    ProgressModel::Failed { error, calls: release_calls(m) }
}

/// The shader object of a stage.
pub open spec fn shader_of(m: BuildModel, stage: Stage) -> u32 {
    match stage {
        Stage::Vertex => m.vertex,
        Stage::Fragment => m.fragment,
    }
}

/// The program that a finished build hands over.
pub open spec fn program_of(m: BuildModel) -> ProgramModel {
    ProgramModel { handle: m.program, names: m.names, slots: m.slots, live: true }
}

/// The state of a fresh build.
pub open spec fn fresh(vertex_text: Seq<char>, fragment_text: Seq<char>, names: Seq<Seq<char>>) -> BuildModel {
    BuildModel {
        vertex_text,
        fragment_text,
        names,
        phase: Phase::AwaitShader(Stage::Vertex),
        vertex: 0,
        fragment: 0,
        program: 0,
        slots: Seq::empty(),
    }
}

/// A reply that carries a shader handle.
pub open spec fn on_handle(m: BuildModel, h: u32) -> ProgressModel {
    match m.phase {
        Phase::AwaitShader(stage) => if h == 0 {
            abandoned(m, ErrorModel::FatalDriverError)
        } else {
            ProgressModel::Pending {
                build: match stage {
                    Stage::Vertex => BuildModel { vertex: h, phase: Phase::AwaitCompile(stage), ..m },
                    Stage::Fragment => BuildModel { fragment: h, phase: Phase::AwaitCompile(stage), ..m },
                },
                calls: seq![
                    GpuCall::ShaderSource { shader: h, stage },
                    GpuCall::CompileShader(h),
                    GpuCall::QueryCompileStatus(h),
                ],
            }
        },
        Phase::AwaitProgram => if h == 0 {
            abandoned(m, ErrorModel::FatalDriverError)
        } else {
            ProgressModel::Pending {
                build: BuildModel { program: h, phase: Phase::AwaitLink, ..m },
                calls: seq![
                    GpuCall::AttachShader { program: h, shader: m.vertex },
                    GpuCall::AttachShader { program: h, shader: m.fragment },
                    GpuCall::LinkProgram(h),
                    GpuCall::QueryLinkStatus(h),
                ],
            }
        },
        _ => abandoned(m, ErrorModel::FatalDriverError),
    }
}

/// A reply that carries a compile or link status.
pub open spec fn on_status(m: BuildModel, ok: bool) -> ProgressModel {
    match m.phase {
        Phase::AwaitCompile(stage) => if !ok {
            ProgressModel::Pending {
                build: BuildModel { phase: Phase::AwaitCompileLog(stage), ..m },
                calls: seq![GpuCall::QueryShaderLog(shader_of(m, stage))],
            }
        } else {
            match stage {
                Stage::Vertex => ProgressModel::Pending {
                    build: BuildModel { phase: Phase::AwaitShader(Stage::Fragment), ..m },
                    calls: seq![GpuCall::CreateShader(Stage::Fragment)],
                },
                Stage::Fragment => ProgressModel::Pending {
                    build: BuildModel { phase: Phase::AwaitProgram, ..m },
                    calls: seq![GpuCall::CreateProgram],
                },
            }
        },
        Phase::AwaitLink => if !ok {
            ProgressModel::Pending {
                build: BuildModel { phase: Phase::AwaitLinkLog, ..m },
                calls: seq![GpuCall::QueryProgramLog(m.program)],
            }
        } else {
            let linked = BuildModel { vertex: 0, fragment: 0, phase: Phase::AwaitLocation, ..m };
            if m.slots.len() >= m.names.len() {
                ProgressModel::Built { program: program_of(linked), calls: stage_release(m) }
            } else {
                ProgressModel::Pending {
                    build: linked,
                    calls: stage_release(m).push(
                        GpuCall::QueryAttributeLocation {
                            program: m.program,
                            index: m.slots.len() as usize,
                        },
                    ),
                }
            }
        },
        _ => abandoned(m, ErrorModel::FatalDriverError),
    }
}

/// A reply that carries a diagnostic.
pub open spec fn on_log(m: BuildModel, log: Seq<char>) -> ProgressModel {
    match m.phase {
        Phase::AwaitCompileLog(stage) => abandoned(m, ErrorModel::ShaderCompileError { stage, log }),
        Phase::AwaitLinkLog => abandoned(m, ErrorModel::ShaderLinkError { log }),
        _ => abandoned(m, ErrorModel::FatalDriverError),
    }
}

/// A reply that carries an attribute location. A negative one means that the
/// program has no such attribute.
pub open spec fn on_location(m: BuildModel, at: i32) -> ProgressModel {
    if m.phase != Phase::AwaitLocation || m.slots.len() >= m.names.len() {
        abandoned(m, ErrorModel::FatalDriverError)
    } else if at < 0 {
        abandoned(m, ErrorModel::AttributeNotFoundError { name: m.names[m.slots.len() as int] })
    } else {
        let resolved = BuildModel { slots: m.slots.push(at as u32), ..m };
        if resolved.slots.len() >= m.names.len() {
            ProgressModel::Built { program: program_of(resolved), calls: Seq::empty() }
        } else {
            ProgressModel::Pending {
                build: resolved,
                calls: seq![
                    GpuCall::QueryAttributeLocation {
                        program: m.program,
                        index: resolved.slots.len() as usize,
                    },
                ],
            }
        }
    }
}

/// Where a build stands after the driver's reply to the last call it asked for.
/// A reply of a kind that the build is not waiting for ends it.
pub open spec fn model_step(m: BuildModel, reply: ReplyModel) -> ProgressModel {
    match reply {
        ReplyModel::Handle(h) => on_handle(m, h),
        ReplyModel::Status(ok) => on_status(m, ok),
        ReplyModel::Log(log) => on_log(m, log),
        ReplyModel::Location(at) => on_location(m, at),
        ReplyModel::Nothing => abandoned(m, ErrorModel::FatalDriverError),
    }
}

/// The books of a build are in order: it owns exactly the objects that its
/// phase says were created and not yet deleted, and has resolved slots only
/// once it has linked.
pub open spec fn orderly(m: BuildModel) -> bool {
    match m.phase {
        Phase::AwaitShader(Stage::Vertex) => m.vertex == 0 && m.fragment == 0 && m.program == 0
            && m.slots.len() == 0,
        Phase::AwaitCompile(Stage::Vertex) | Phase::AwaitCompileLog(Stage::Vertex) | Phase::AwaitShader(
            Stage::Fragment,
        ) => m.vertex != 0 && m.fragment == 0 && m.program == 0 && m.slots.len() == 0,
        Phase::AwaitCompile(Stage::Fragment) | Phase::AwaitCompileLog(Stage::Fragment)
        | Phase::AwaitProgram => m.vertex != 0 && m.fragment != 0 && m.program == 0 && m.slots.len()
            == 0,
        Phase::AwaitLink | Phase::AwaitLinkLog => m.vertex != 0 && m.fragment != 0 && m.program != 0
            && m.slots.len() == 0,
        Phase::AwaitLocation => m.vertex == 0 && m.fragment == 0 && m.program != 0 && m.slots.len()
            < m.names.len(),
    }
}

impl ShaderBuild {
    /// The books of every build are in order.
    #[verifier::type_invariant]
    spec fn in_order(self) -> bool {
        orderly(self@)
    }

    /// Starts a build of `source` that is to resolve each of `names`. The
    /// first thing asked of the driver is a vertex-stage shader object.
    pub fn begin(source: ShaderSource, names: Vec<String>) -> (out: (ShaderBuild, Vec<GpuCall>))
        ensures
            out.0@ == fresh(source.vertex@, source.fragment@, texts(names@)),
            out.1@ == seq![GpuCall::CreateShader(Stage::Vertex)],
            orderly(out.0@),
    {
        let build = ShaderBuild {
            source,
            names,
            phase: Phase::AwaitShader(Stage::Vertex),
            vertex: 0,
            fragment: 0,
            program: 0,
            slots: Vec::new(),
        };
        let mut calls: Vec<GpuCall> = Vec::new();
        calls.push(GpuCall::CreateShader(Stage::Vertex));
        proof {
            assert(calls@ =~= seq![GpuCall::CreateShader(Stage::Vertex)]);
        }
        (build, calls)
    }

    /// The source text that `GpuCall::ShaderSource` of `stage` submits.
    pub fn source_text(&self, stage: Stage) -> (text: &str)
        ensures
            text@ == match stage {
                Stage::Vertex => self@.vertex_text,
                Stage::Fragment => self@.fragment_text,
            },
    {
        match stage {
            Stage::Vertex => self.source.vertex.as_str(),
            Stage::Fragment => self.source.fragment.as_str(),
        }
    }

    /// The attribute name that `GpuCall::QueryAttributeLocation` of `index`
    /// asks about, if there is one.
    pub fn attribute_name(&self, index: usize) -> (name: Option<&str>)
        ensures
            index < self@.names.len() ==> name is Some && name->Some_0@ == self@.names[index as int],
            index >= self@.names.len() ==> name is None,
    {
        if index < self.names.len() {
            Some(self.names[index].as_str())
        } else {
            None
        }
    }

    /// Ends the build with `error` and asks for the deletion of every object
    /// it owns.
    fn abandon(self, error: BuildError) -> (out: Progress)
        ensures
            out@ == abandoned(self@, error@),
    {
        let mut calls: Vec<GpuCall> = Vec::new();
        if self.vertex != 0 {
            calls.push(GpuCall::DeleteShader(self.vertex));
        }
        if self.fragment != 0 {
            calls.push(GpuCall::DeleteShader(self.fragment));
        }
        if self.program != 0 {
            calls.push(GpuCall::DeleteProgram(self.program));
        }
        proof {
            assert(calls@ =~= release_calls(self@));
        }
        Progress::Failed { error, calls }
    }

    /// Takes a new object's handle.
    fn take_handle(self, h: u32) -> (out: Progress)
        ensures
            out@ == on_handle(self@, h),
    {
        proof {
            use_type_invariant(&self);
            step_keeps_order(self@, ReplyModel::Handle(h));
        }
        match self.phase {
            Phase::AwaitShader(stage) => {
                if h == 0 {
                    return self.abandon(BuildError::FatalDriverError);
                }
                let build = match stage {
                    Stage::Vertex => ShaderBuild { vertex: h, phase: Phase::AwaitCompile(stage), ..self },
                    Stage::Fragment => ShaderBuild {
                        fragment: h,
                        phase: Phase::AwaitCompile(stage),
                        ..self
                    },
                };
                let mut calls: Vec<GpuCall> = Vec::new();
                calls.push(GpuCall::ShaderSource { shader: h, stage });
                calls.push(GpuCall::CompileShader(h));
                calls.push(GpuCall::QueryCompileStatus(h));
                proof {
                    assert(calls@ =~= seq![
                        GpuCall::ShaderSource { shader: h, stage },
                        GpuCall::CompileShader(h),
                        GpuCall::QueryCompileStatus(h),
                    ]);
                }
                Progress::Pending { build, calls }
            },
            Phase::AwaitProgram => {
                if h == 0 {
                    return self.abandon(BuildError::FatalDriverError);
                }
                let mut calls: Vec<GpuCall> = Vec::new();
                calls.push(GpuCall::AttachShader { program: h, shader: self.vertex });
                calls.push(GpuCall::AttachShader { program: h, shader: self.fragment });
                calls.push(GpuCall::LinkProgram(h));
                calls.push(GpuCall::QueryLinkStatus(h));
                proof {
                    assert(calls@ =~= seq![
                        GpuCall::AttachShader { program: h, shader: self@.vertex },
                        GpuCall::AttachShader { program: h, shader: self@.fragment },
                        GpuCall::LinkProgram(h),
                        GpuCall::QueryLinkStatus(h),
                    ]);
                }
                let build = ShaderBuild { program: h, phase: Phase::AwaitLink, ..self };
                Progress::Pending { build, calls }
            },
            _ => self.abandon(BuildError::FatalDriverError),
        }
    }

    /// Takes a compile or link status.
    fn take_status(self, ok: bool) -> (out: Progress)
        ensures
            out@ == on_status(self@, ok),
    {
        proof {
            use_type_invariant(&self);
            step_keeps_order(self@, ReplyModel::Status(ok));
        }
        let mut calls: Vec<GpuCall> = Vec::new();
        match self.phase {
            Phase::AwaitCompile(stage) => {
                let next: Phase = if !ok {
                    let shader: u32 = match stage {
                        Stage::Vertex => self.vertex,
                        Stage::Fragment => self.fragment,
                    };
                    calls.push(GpuCall::QueryShaderLog(shader));
                    proof {
                        assert(calls@ =~= seq![GpuCall::QueryShaderLog(shader_of(self@, stage))]);
                    }
                    Phase::AwaitCompileLog(stage)
                } else {
                    match stage {
                        Stage::Vertex => {
                            calls.push(GpuCall::CreateShader(Stage::Fragment));
                            proof {
                                assert(calls@ =~= seq![GpuCall::CreateShader(Stage::Fragment)]);
                            }
                            Phase::AwaitShader(Stage::Fragment)
                        },
                        Stage::Fragment => {
                            calls.push(GpuCall::CreateProgram);
                            proof {
                                assert(calls@ =~= seq![GpuCall::CreateProgram]);
                            }
                            Phase::AwaitProgram
                        },
                    }
                };
                let build = ShaderBuild { phase: next, ..self };
                Progress::Pending { build, calls }
            },
            Phase::AwaitLink => {
                if !ok {
                    calls.push(GpuCall::QueryProgramLog(self.program));
                    proof {
                        assert(calls@ =~= seq![GpuCall::QueryProgramLog(self@.program)]);
                    }
                    let build = ShaderBuild { phase: Phase::AwaitLinkLog, ..self };
                    return Progress::Pending { build, calls };
                }
                if self.vertex != 0 {
                    calls.push(GpuCall::DeleteShader(self.vertex));
                }
                if self.fragment != 0 {
                    calls.push(GpuCall::DeleteShader(self.fragment));
                }
                proof {
                    assert(calls@ =~= stage_release(self@));
                }
                if self.slots.len() >= self.names.len() {
                    let program = ShaderProgram {
                        handle: self.program,
                        names: self.names,
                        slots: self.slots,
                        live: true,
                    };
                    Progress::Built { program, calls }
                } else {
                    calls.push(
                        GpuCall::QueryAttributeLocation {
                            program: self.program,
                            index: self.slots.len(),
                        },
                    );
                    let build = ShaderBuild {
                        vertex: 0,
                        fragment: 0,
                        phase: Phase::AwaitLocation,
                        ..self
                    };
                    Progress::Pending { build, calls }
                }
            },
            _ => self.abandon(BuildError::FatalDriverError),
        }
    }

    /// Takes a diagnostic.
    fn take_log(self, log: String) -> (out: Progress)
        ensures
            out@ == on_log(self@, log@),
    {
        match self.phase {
            Phase::AwaitCompileLog(stage) => self.abandon(
                BuildError::ShaderCompileError { stage, log },
            ),
            Phase::AwaitLinkLog => self.abandon(BuildError::ShaderLinkError { log }),
            _ => self.abandon(BuildError::FatalDriverError),
        }
    }

    /// Takes an attribute location.
    fn take_location(self, at: i32) -> (out: Progress)
        ensures
            out@ == on_location(self@, at),
    {
        proof {
            use_type_invariant(&self);
            step_keeps_order(self@, ReplyModel::Location(at));
        }
        match self.phase {
            Phase::AwaitLocation => {},
            _ => {
                return self.abandon(BuildError::FatalDriverError);
            },
        }
        let next: usize = self.slots.len();
        if next >= self.names.len() {
            return self.abandon(BuildError::FatalDriverError);
        }
        if at < 0 {
            let name = self.names[next].clone();
            return self.abandon(BuildError::AttributeNotFoundError { name });
        }
        let mut slots = self.slots;
        slots.push(at as u32);
        if slots.len() >= self.names.len() {
            let program = ShaderProgram {
                handle: self.program,
                names: self.names,
                slots,
                live: true,
            };
            Progress::Built { program, calls: Vec::new() }
        } else {
            let mut calls: Vec<GpuCall> = Vec::new();
            calls.push(GpuCall::QueryAttributeLocation { program: self.program, index: slots.len() });
            let build = ShaderBuild { slots, ..self };
            proof {
                assert(calls@ =~= seq![
                    GpuCall::QueryAttributeLocation {
                        program: self@.program,
                        index: self@.slots.push(at as u32).len() as usize,
                    },
                ]);
            }
            Progress::Pending { build, calls }
        }
    }

    /// Takes the driver's reply to the last call that the build asked for and
    /// says what is to be done next.
    pub fn step(self, reply: GpuReply) -> (out: Progress)
        ensures
            out@ == model_step(self@, reply@),
            match out@ {
                ProgressModel::Pending { build, .. } => orderly(build),
                ProgressModel::Built { program, .. } => whole(program) && program.live,
                ProgressModel::Failed { .. } => true,
            },
    {
        proof {
            use_type_invariant(&self);
            step_keeps_order(self@, reply@);
        }
        match reply {
            GpuReply::Handle(h) => self.take_handle(h),
            GpuReply::Status(ok) => self.take_status(ok),
            GpuReply::Log(log) => self.take_log(log),
            GpuReply::Location(at) => self.take_location(at),
            GpuReply::Nothing => self.abandon(BuildError::FatalDriverError),
        }
    }
}


/// The objects that are on the books after a step: the two stage objects and
/// the program, zero for none.
pub open spec fn books_after(out: ProgressModel) -> (u32, u32, u32) {
    match out {
        ProgressModel::Pending { build, .. } => (build.vertex, build.fragment, build.program),
        ProgressModel::Built { program, .. } => (0, 0, program.handle),
        ProgressModel::Failed { .. } => (0, 0, 0),
    }
}

/// The calls that a step asks for.
pub open spec fn calls_of(out: ProgressModel) -> Seq<GpuCall> {
    match out {
        ProgressModel::Pending { calls, .. } => calls,
        ProgressModel::Built { calls, .. } => calls,
        ProgressModel::Failed { calls, .. } => calls,
    }
}

/// Every step of a build that is in order leaves it in order. A build that
/// ends with a program hands over a live, non-zero handle and one slot for
/// each name it was given; a build that fails is never handed over at all.
pub proof fn step_keeps_order(m: BuildModel, reply: ReplyModel)
    requires
        orderly(m),
    ensures
        match model_step(m, reply) {
            ProgressModel::Pending { build, .. } => orderly(build) && build.names == m.names
                && build.vertex_text == m.vertex_text && build.fragment_text == m.fragment_text,
            ProgressModel::Built { program, .. } => program.handle != 0 && program.live
                && program.names == m.names && program.slots.len() == m.names.len(),
            ProgressModel::Failed { .. } => true,
        },
{
}

/// No step leaks an object: whatever a build in order owned before a step
/// and no longer has on its books after it, the step asks to delete. A
/// failed build keeps nothing, and a finished one keeps only the program.
pub proof fn step_leaks_nothing(m: BuildModel, reply: ReplyModel)
    requires
        orderly(m),
    ensures
        ({
            let out = model_step(m, reply);
            let after = books_after(out);
            &&& m.vertex != 0 && after.0 != m.vertex ==> calls_of(out).contains(
                GpuCall::DeleteShader(m.vertex),
            )
            &&& m.fragment != 0 && after.1 != m.fragment ==> calls_of(out).contains(
                GpuCall::DeleteShader(m.fragment),
            )
            &&& m.program != 0 && after.2 != m.program ==> calls_of(out).contains(
                GpuCall::DeleteProgram(m.program),
            )
            &&& !(out is Pending) ==> after.0 == 0 && after.1 == 0
            &&& out is Failed ==> calls_of(out) == release_calls(m)
        }),
{
    let out = model_step(m, reply);
    let gone = release_calls(m);
    let stages = stage_release(m);
    if m.vertex != 0 {
        assert(gone[0] == GpuCall::DeleteShader(m.vertex));
        assert(stages[0] == GpuCall::DeleteShader(m.vertex));
        if m.fragment != 0 {
            assert(gone[1] == GpuCall::DeleteShader(m.fragment));
            assert(stages[1] == GpuCall::DeleteShader(m.fragment));
            if m.program != 0 {
                assert(gone[2] == GpuCall::DeleteProgram(m.program));
            }
        }
    }
    if m.phase == Phase::AwaitLink && reply == ReplyModel::Status(true) {
        let asked = calls_of(out);
        assert(asked[0] == stages[0]);
        assert(asked[1] == stages[1]);
    }
}

/// A stage that the driver does not compile ends the build with a compile
/// error that names that stage and carries the driver's diagnostic, after
/// deleting every object created so far.
pub proof fn compile_failure_names_stage(m: BuildModel, stage: Stage, log: Seq<char>)
    requires
        m.phase == Phase::AwaitCompile(stage),
    ensures
        model_step(m, ReplyModel::Status(false)) == (ProgressModel::Pending {
            build: BuildModel { phase: Phase::AwaitCompileLog(stage), ..m },
            calls: seq![GpuCall::QueryShaderLog(shader_of(m, stage))],
        }),
        model_step(
            BuildModel { phase: Phase::AwaitCompileLog(stage), ..m },
            ReplyModel::Log(log),
        ) == (ProgressModel::Failed {
            error: ErrorModel::ShaderCompileError { stage, log },
            calls: release_calls(m),
        }),
{
    assert(release_calls(BuildModel { phase: Phase::AwaitCompileLog(stage), ..m }) == release_calls(m));
}

/// Stages that the driver does not link end the build with a link error that
/// carries the driver's diagnostic, after deleting both stage objects and the
/// program object.
pub proof fn link_failure_releases_all(m: BuildModel, log: Seq<char>)
    requires
        orderly(m),
        m.phase == Phase::AwaitLink,
    ensures
        model_step(m, ReplyModel::Status(false)) == (ProgressModel::Pending {
            build: BuildModel { phase: Phase::AwaitLinkLog, ..m },
            calls: seq![GpuCall::QueryProgramLog(m.program)],
        }),
        model_step(BuildModel { phase: Phase::AwaitLinkLog, ..m }, ReplyModel::Log(log)) == (
        ProgressModel::Failed {
            error: ErrorModel::ShaderLinkError { log },
            calls: seq![
                GpuCall::DeleteShader(m.vertex),
                GpuCall::DeleteShader(m.fragment),
                GpuCall::DeleteProgram(m.program),
            ],
        }),
{
    let waiting = BuildModel { phase: Phase::AwaitLinkLog, ..m };
    assert(release_calls(waiting) =~= seq![
        GpuCall::DeleteShader(m.vertex),
        GpuCall::DeleteShader(m.fragment),
        GpuCall::DeleteProgram(m.program),
    ]);
}

/// A name that the linked program does not declare ends the build with an
/// error that carries that name, after deleting the program.
pub proof fn missing_attribute_is_named(m: BuildModel, at: i32)
    requires
        orderly(m),
        m.phase == Phase::AwaitLocation,
        at < 0,
    ensures
        model_step(m, ReplyModel::Location(at)) == (ProgressModel::Failed {
            error: ErrorModel::AttributeNotFoundError { name: m.names[m.slots.len() as int] },
            calls: seq![GpuCall::DeleteProgram(m.program)],
        }),
{
    assert(release_calls(m) =~= seq![GpuCall::DeleteProgram(m.program)]);
}

} // verus!
