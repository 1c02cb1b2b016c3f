//! The order in which the pieces are set up, used and torn down.

use crate::frame::{frame_calls, render_frame, FrameConfig};
use crate::geometry::{buffer_release_when, BufferModel, GeometryBuffer};
use crate::gpu::GpuCall;
use crate::shader::{program_release_when, ProgramModel, ShaderProgram};
use vstd::prelude::*;

verus! {

/// A key that the windowing system reports.
#[derive(Clone, Copy, Debug, PartialEq, Eq, Structural)]
pub enum Key {
    Escape,
    Other,
}

/// What happened to a key.
#[derive(Clone, Copy, Debug, PartialEq, Eq, Structural)]
pub enum Action {
    Press,
    Release,
    Repeat,
}

/// An event that the windowing system delivers.
#[derive(Clone, Copy, Debug, PartialEq, Eq, Structural)]
pub enum WindowEvent {
    Key { key: Key, action: Action },
    CloseRequested,
    Other,
}

/// Whether an event asks the loop to stop: a press of the escape key, or the
/// window's own close request.
pub open spec fn asks_to_close(event: WindowEvent) -> bool {
    event == (WindowEvent::Key { key: Key::Escape, action: Action::Press }) || event
        == WindowEvent::CloseRequested
}

/// Decides whether an event asks the loop to stop.
pub fn handle_window_event(event: WindowEvent) -> (close: bool)
    ensures
        close == asks_to_close(event),
{
    match event {
        WindowEvent::Key { key: Key::Escape, action: Action::Press } => true,
        WindowEvent::CloseRequested => true,
        _ => false,
    }
}

/// How far the setup has come.
#[derive(Clone, Copy, Debug, PartialEq, Eq, Structural)]
pub enum Lifecycle {
    /// No rendering context yet.
    NoContext,
    /// A context is current; no program yet.
    ContextReady,
    /// The program is built; no buffer yet.
    ProgramReady,
    /// Program and buffer are in place; frames may be drawn.
    Running,
    /// Everything was given back.
    Closed,
}

/// What a bootstrap holds.
pub struct BootstrapModel {
    pub stage: Lifecycle,
    pub config: FrameConfig,
    pub program: Option<ProgramModel>,
    pub buffer: Option<BufferModel>,
}

/// Owner of the program and the buffer for their whole life. It takes them in
/// the order context, program, buffer and gives them back in reverse.
#[derive(Debug)]
pub struct Bootstrap {
    stage: Lifecycle,
    config: FrameConfig,
    program: Option<ShaderProgram>,
    buffer: Option<GeometryBuffer>,
}

/// What a program that may be held is.
pub open spec fn held_program(program: Option<ShaderProgram>) -> Option<ProgramModel> {
    match program {
        Some(p) => Some(p@),
        None => None,
    }
}

/// What a buffer that may be held is.
pub open spec fn held_buffer(buffer: Option<GeometryBuffer>) -> Option<BufferModel> {
    match buffer {
        Some(b) => Some(b@),
        None => None,
    }
}

impl View for Bootstrap {
    type V = BootstrapModel;

    closed spec fn view(&self) -> BootstrapModel {
        BootstrapModel {
            stage: self.stage,
            config: self.config,
            program: held_program(self.program),
            buffer: held_buffer(self.buffer),
        }
    }
}

/// The calls that give a program back, if there is one that is still owned.
pub open spec fn program_teardown(program: Option<ProgramModel>) -> Seq<GpuCall> {
    match program {
        Some(p) => program_release_when(p.live, p.handle),
        None => Seq::empty(),
    }
}

/// The calls that give a buffer back, if there is one that is still owned.
pub open spec fn buffer_teardown(buffer: Option<BufferModel>) -> Seq<GpuCall> {
    match buffer {
        Some(b) => buffer_release_when(b.live, b.handle, b.vertex_array),
        None => Seq::empty(),
    }
}

/// The call that gives the context back, if there is one.
pub open spec fn context_teardown(stage: Lifecycle) -> Seq<GpuCall> {
    if stage == Lifecycle::NoContext || stage == Lifecycle::Closed {
        Seq::empty()
    } else {
        seq![GpuCall::ReleaseContext]
    }
}

/// The calls of a shutdown: the buffer first, then the program, then the
/// context.
pub open spec fn shutdown_calls(m: BootstrapModel) -> Seq<GpuCall> {
    buffer_teardown(m.buffer) + program_teardown(m.program) + context_teardown(m.stage)
}

/// A program that has given up its handle.
pub open spec fn spent_program(program: Option<ProgramModel>) -> Option<ProgramModel> {
    match program {
        Some(p) => Some(ProgramModel { live: false, ..p }),
        None => None,
    }
}

/// A buffer that has given up its handles.
pub open spec fn spent_buffer(buffer: Option<BufferModel>) -> Option<BufferModel> {
    match buffer {
        Some(b) => Some(BufferModel { live: false, ..b }),
        None => None,
    }
}

/// What a bootstrap holds after a shutdown.
pub open spec fn after_shutdown(m: BootstrapModel) -> BootstrapModel {
    BootstrapModel {
        stage: Lifecycle::Closed,
        config: m.config,
        program: spent_program(m.program),
        buffer: spent_buffer(m.buffer),
    }
}

/// The calls of a frame: those of `render_frame` while running, none before
/// or after.
pub open spec fn tick_calls(m: BootstrapModel) -> Seq<GpuCall> {
    match (m.stage, m.program, m.buffer) {
        (Lifecycle::Running, Some(p), Some(b)) => frame_calls(
            p.handle,
            b.handle,
            b.layout,
            b.vertices.len() as u32,
            m.config,
        ),
        _ => Seq::empty(),
    }
}

/// Gives a held buffer back, if it is still owned.
fn give_back_buffer(held: &mut Option<GeometryBuffer>) -> (calls: Vec<GpuCall>)
    ensures
        calls@ == buffer_teardown(held_buffer(*old(held))),
        held_buffer(*final(held)) == spent_buffer(held_buffer(*old(held))),
{
    match held {
        Some(buffer) => buffer.release(),
        None => Vec::new(),
    }
}

/// Gives a held program back, if it is still owned.
fn give_back_program(held: &mut Option<ShaderProgram>) -> (calls: Vec<GpuCall>)
    ensures
        calls@ == program_teardown(held_program(*old(held))),
        held_program(*final(held)) == spent_program(held_program(*old(held))),
{
    match held {
        Some(program) => program.release(),
        None => Vec::new(),
    }
}

/// A bootstrap holds what its stage says: nothing before the program is
/// built, the program before the buffer, both while running, and nothing
/// that is still owned once closed.
pub open spec fn consistent(m: BootstrapModel) -> bool {
    &&& m.stage == Lifecycle::NoContext ==> m.program is None
    &&& m.stage == Lifecycle::NoContext || m.stage == Lifecycle::ContextReady ==> m.buffer is None
    &&& m.stage == Lifecycle::ProgramReady || m.stage == Lifecycle::Running ==> m.program is Some
    &&& m.stage == Lifecycle::Running ==> m.buffer is Some
    &&& m.buffer is Some ==> m.program is Some
    &&& m.stage == Lifecycle::Closed ==> program_teardown(m.program) == Seq::<GpuCall>::empty()
        && buffer_teardown(m.buffer) == Seq::<GpuCall>::empty()
}

impl Bootstrap {
    /// A bootstrap that holds nothing and has no context.
    pub fn new(config: FrameConfig) -> (boot: Bootstrap)
        ensures
            boot@ == (BootstrapModel {
                stage: Lifecycle::NoContext,
                config,
                program: None,
                buffer: None,
            }),
            consistent(boot@),
    {
        Bootstrap { stage: Lifecycle::NoContext, config, program: None, buffer: None }
    }

    /// How far the setup has come.
    pub fn stage(&self) -> (stage: Lifecycle)
        ensures
            stage == self@.stage,
    {
        self.stage
    }

    /// Notes that a rendering context is current. Accepted only as the first
    /// step; otherwise nothing changes.
    pub fn context_ready(&mut self) -> (accepted: bool)
        ensures
            accepted == (old(self)@.stage == Lifecycle::NoContext),
            accepted ==> final(self)@ == (BootstrapModel {
                stage: Lifecycle::ContextReady,
                ..old(self)@
            }),
            !accepted ==> final(self)@ == old(self)@,
            consistent(old(self)@) ==> consistent(final(self)@),
    {
        match self.stage {
            Lifecycle::NoContext => {
                self.stage = Lifecycle::ContextReady;
                true
            },
            _ => false,
        }
    }

    /// Takes the program. Accepted only right after the context; a program
    /// that comes at any other time is handed back untouched.
    pub fn install_program(&mut self, program: ShaderProgram) -> (refused: Option<ShaderProgram>)
        ensures
            refused is None <==> old(self)@.stage == Lifecycle::ContextReady,
            refused is None ==> final(self)@ == (BootstrapModel {
                stage: Lifecycle::ProgramReady,
                program: Some(program@),
                ..old(self)@
            }),
            refused is Some ==> refused == Some(program) && final(self)@ == old(self)@,
            consistent(old(self)@) ==> consistent(final(self)@),
    {
        match self.stage {
            Lifecycle::ContextReady => {
                self.program = Some(program);
                self.stage = Lifecycle::ProgramReady;
                None
            },
            _ => Some(program),
        }
    }

    /// Takes the buffer. Accepted only right after the program; a buffer that
    /// comes at any other time is handed back untouched.
    pub fn install_buffer(&mut self, buffer: GeometryBuffer) -> (refused: Option<GeometryBuffer>)
        ensures
            refused is None <==> old(self)@.stage == Lifecycle::ProgramReady,
            refused is None ==> final(self)@ == (BootstrapModel {
                stage: Lifecycle::Running,
                buffer: Some(buffer@),
                ..old(self)@
            }),
            refused is Some ==> refused == Some(buffer) && final(self)@ == old(self)@,
            consistent(old(self)@) ==> consistent(final(self)@),
    {
        match self.stage {
            Lifecycle::ProgramReady => {
                self.buffer = Some(buffer);
                self.stage = Lifecycle::Running;
                None
            },
            _ => Some(buffer),
        }
    }

    /// The calls of the next frame. Outside the running stage there are none.
    pub fn tick(&self) -> (calls: Vec<GpuCall>)
        ensures
            calls@ == tick_calls(self@),
    {
        match self.stage {
            Lifecycle::Running => {},
            _ => {
                return Vec::new();
            },
        }
        match &self.program {
            Some(program) => match &self.buffer {
                Some(buffer) => render_frame(program, buffer, &self.config),
                None => Vec::new(),
            },
            None => Vec::new(),
        }
    }

    /// Gives everything back: the buffer, then the program, then the context.
    /// Each is given back once; a second shutdown asks for nothing.
    pub fn shutdown(&mut self) -> (calls: Vec<GpuCall>)
        ensures
            calls@ == shutdown_calls(old(self)@),
            final(self)@ == after_shutdown(old(self)@),
            consistent(old(self)@) ==> consistent(final(self)@),
    {
        let mut calls: Vec<GpuCall> = give_back_buffer(&mut self.buffer);
        let mut gone = give_back_program(&mut self.program);
        calls.append(&mut gone);
        proof {
            shutdown_closes(old(self)@);
        }
        match self.stage {
            Lifecycle::NoContext => {},
            Lifecycle::Closed => {},
            _ => {
                calls.push(GpuCall::ReleaseContext);
            },
        }
        self.stage = Lifecycle::Closed;
        proof {
            assert(calls@ =~= shutdown_calls(old(self)@));
        }
        calls
    }
}

/// Once closed, a bootstrap asks the driver for nothing, neither for a frame
/// nor at another shutdown: no call targets a context that was given back.
pub proof fn closed_asks_nothing(m: BootstrapModel)
    requires
        consistent(m),
        m.stage == Lifecycle::Closed,
    ensures
        tick_calls(m) == Seq::<GpuCall>::empty(),
        shutdown_calls(m) == Seq::<GpuCall>::empty(),
{
    assert(shutdown_calls(m) =~= Seq::<GpuCall>::empty());
}

/// A shutdown leaves a bootstrap closed, and consistent if it was.
pub proof fn shutdown_closes(m: BootstrapModel)
    ensures
        consistent(m) ==> consistent(after_shutdown(m)),
        after_shutdown(m).stage == Lifecycle::Closed,
{
}

/// A second shutdown asks the driver for nothing and changes nothing: no
/// handle is ever given back twice.
pub proof fn shutdown_is_idempotent(m: BootstrapModel)
    ensures
        shutdown_calls(after_shutdown(m)) == Seq::<GpuCall>::empty(),
        after_shutdown(after_shutdown(m)) == after_shutdown(m),
{
    assert(shutdown_calls(after_shutdown(m)) =~= Seq::<GpuCall>::empty());
}

/// A running bootstrap tears down in the reverse of the order in which it
/// was set up: buffer, program, context.
pub proof fn teardown_reverses_setup(m: BootstrapModel)
    requires
        m.program is Some,
        m.buffer is Some,
        m.program->Some_0.live,
        m.buffer->Some_0.live,
        m.stage == Lifecycle::Running,
    ensures
        shutdown_calls(m) == seq![
            GpuCall::DeleteBuffer(m.buffer->Some_0.handle),
            GpuCall::DeleteVertexArray(m.buffer->Some_0.vertex_array),
            GpuCall::DeleteProgram(m.program->Some_0.handle),
            GpuCall::ReleaseContext,
        ],
{
    assert(shutdown_calls(m) =~= seq![
        GpuCall::DeleteBuffer(m.buffer->Some_0.handle),
        GpuCall::DeleteVertexArray(m.buffer->Some_0.vertex_array),
        GpuCall::DeleteProgram(m.program->Some_0.handle),
        GpuCall::ReleaseContext,
    ]);
}

} // verus!
