//! The vocabulary shared with the graphics driver: the calls the library asks
//! for, the replies it understands, and a model of the driver's bound state.

use vstd::prelude::*;

verus! {

/// One phase of the shader pipeline.
#[derive(Clone, Copy, Debug, PartialEq, Eq, Structural)]
pub enum Stage {
    Vertex,
    Fragment,
}

/// A colour as four IEEE-754 single-precision bit patterns.
#[derive(Clone, Copy, Debug, PartialEq, Eq, Structural)]
pub struct Color {
    pub red: u32,
    pub green: u32,
    pub blue: u32,
    pub alpha: u32,
}

/// The numeric type of an attribute's components.
#[derive(Clone, Copy, Debug, PartialEq, Eq, Structural)]
pub enum ComponentKind {
    /// IEEE-754 single precision.
    Float,
}

/// One call into the graphics driver. Handles are the driver's own numbers;
/// zero is never a valid handle.
#[derive(Clone, Copy, Debug, PartialEq, Eq, Structural)]
pub enum GpuCall {
    /// Clear the colour buffer to `color`, and the depth buffer if `depth`.
    Clear { color: Color, depth: bool },
    UseProgram(u32),
    BindArrayBuffer(u32),
    EnableAttribute(u32),
    /// Describe a slot's data: `components` numbers of `kind` per vertex,
    /// `stride` bytes between vertices, starting at byte `offset`.
    AttributePointer {
        slot: u32,
        components: u32,
        kind: ComponentKind,
        normalized: bool,
        stride: u32,
        offset: u32,
    },
    /// Draw a triangle list of `count` vertices starting at `first`.
    DrawTriangles { first: u32, count: u32 },
    DisableAttribute(u32),
    /// Replied to with `GpuReply::Handle`.
    CreateShader(Stage),
    /// Submit the build's source text of `stage` to `shader`.
    ShaderSource { shader: u32, stage: Stage },
    CompileShader(u32),
    /// Replied to with `GpuReply::Status`.
    QueryCompileStatus(u32),
    /// Replied to with `GpuReply::Log`.
    QueryShaderLog(u32),
    DeleteShader(u32),
    /// Replied to with `GpuReply::Handle`.
    CreateProgram,
    AttachShader { program: u32, shader: u32 },
    LinkProgram(u32),
    /// Replied to with `GpuReply::Status`.
    QueryLinkStatus(u32),
    /// Replied to with `GpuReply::Log`.
    QueryProgramLog(u32),
    DeleteProgram(u32),
    /// Ask where the build's attribute name number `index` is bound.
    /// Replied to with `GpuReply::Location`.
    QueryAttributeLocation { program: u32, index: usize },
    /// Replied to with `GpuReply::Handle`.
    CreateVertexArray,
    BindVertexArray(u32),
    DeleteVertexArray(u32),
    /// Replied to with `GpuReply::Handle`.
    CreateBuffer,
    /// Write the upload's vertex words, `bytes` bytes in all, into `buffer`
    /// once, with static usage.
    UploadStatic { buffer: u32, bytes: usize },
    DeleteBuffer(u32),
    /// Give the rendering context back to the windowing system.
    ReleaseContext,
}

/// What the driver answered to the last call of a batch.
#[derive(Debug)]
pub enum GpuReply {
    Nothing,
    Handle(u32),
    Status(bool),
    Log(String),
    Location(i32),
}

/// A reply with its text as a sequence of characters.
pub enum ReplyModel {
    Nothing,
    Handle(u32),
    Status(bool),
    Log(Seq<char>),
    Location(i32),
}

impl View for GpuReply {
    type V = ReplyModel;

    open spec fn view(&self) -> ReplyModel {
        match *self {
            GpuReply::Nothing => ReplyModel::Nothing,
            GpuReply::Handle(h) => ReplyModel::Handle(h),
            GpuReply::Status(ok) => ReplyModel::Status(ok),
            GpuReply::Log(text) => ReplyModel::Log(text@),
            GpuReply::Location(at) => ReplyModel::Location(at),
        }
    }
}

/// The part of the driver's state that a frame touches.
pub struct FrameState {
    pub program: u32,
    pub array_buffer: u32,
    pub enabled: Set<u32>,
    pub draws: Seq<(u32, u32)>,
    pub clears: nat,
}

/// The neutral state: nothing bound, nothing enabled, nothing drawn.
pub open spec fn idle() -> FrameState {
    FrameState { program: 0, array_buffer: 0, enabled: Set::empty(), draws: Seq::empty(), clears: 0 }
}

/// The state after one call.
pub open spec fn apply(state: FrameState, call: GpuCall) -> FrameState {
    match call {
        GpuCall::Clear { .. } => FrameState { clears: state.clears + 1, ..state },
        GpuCall::UseProgram(p) => FrameState { program: p, ..state },
        GpuCall::BindArrayBuffer(b) => FrameState { array_buffer: b, ..state },
        GpuCall::EnableAttribute(slot) => FrameState { enabled: state.enabled.insert(slot), ..state },
        GpuCall::DisableAttribute(slot) => FrameState { enabled: state.enabled.remove(slot), ..state },
        GpuCall::DrawTriangles { first, count } => FrameState {
            draws: state.draws.push((first, count)),
            ..state
        },
        _ => state,
    }
}

/// The state after a sequence of calls, made in order.
pub open spec fn run(state: FrameState, calls: Seq<GpuCall>) -> FrameState
    decreases calls.len(),
{
    if calls.len() == 0 {
        state
    } else {
        apply(run(state, calls.drop_last()), calls.last())
    }
}

} // verus!
