//! Vertex data and its one-shot upload into a driver buffer.

use crate::gpu::{GpuCall, GpuReply, ReplyModel};
use vstd::prelude::*;

verus! {

/// Three IEEE-754 single-precision bit patterns.
#[derive(Clone, Copy, Debug, PartialEq, Eq, Structural)]
pub struct Triple {
    pub a: u32,
    pub b: u32,
    pub c: u32,
}

/// One vertex: a position and a colour. The colour is uploaded only to a
/// buffer that has a colour slot.
#[derive(Clone, Copy, Debug, PartialEq, Eq, Structural)]
pub struct Vertex {
    pub position: Triple,
    pub color: Triple,
}

/// How one attribute slot reads the buffer: `components` floats per vertex,
/// `stride` bytes from one vertex to the next, the first at byte `offset`.
#[derive(Clone, Copy, Debug, PartialEq, Eq, Structural)]
pub struct AttributeBinding {
    pub slot: u32,
    pub components: u32,
    pub stride: u32,
    pub offset: u32,
}

/// The most vertices that one buffer takes: their bytes must fit a signed
/// 32-bit size.
pub const MAX_VERTICES: usize = 89_478_485;

/// The words of one triple.
pub open spec fn triple_words(t: Triple) -> Seq<u32> {
    seq![t.a, t.b, t.c]
}

/// The words that one vertex takes in the buffer.
pub open spec fn words_of(v: Vertex, colored: bool) -> Seq<u32> {
    if colored {
        triple_words(v.position) + triple_words(v.color)
    } else {
        triple_words(v.position)
    }
}

/// The words of a buffer: those of each vertex, in order.
pub open spec fn flatten(vertices: Seq<Vertex>, colored: bool) -> Seq<u32>
    decreases vertices.len(),
{
    if vertices.len() == 0 {
        Seq::empty()
    } else {
        flatten(vertices.drop_last(), colored) + words_of(vertices.last(), colored)
    }
}

/// Words per vertex.
pub open spec fn vertex_words(colored: bool) -> nat {
    if colored {
        6
    } else {
        3
    }
}

/// Bytes from one vertex to the next.
pub open spec fn stride_of(colored: bool) -> u32 {
    if colored {
        24
    } else {
        12
    }
}

/// The attribute layout of a buffer: the position first, then the colour if
/// there is a slot for it.
pub open spec fn layout_of(position_slot: u32, color_slot: Option<u32>) -> Seq<AttributeBinding> {
    match color_slot {
        None => seq![AttributeBinding { slot: position_slot, components: 3, stride: 12, offset: 0 }],
        Some(c) => seq![
            AttributeBinding { slot: position_slot, components: 3, stride: 24, offset: 0 },
            AttributeBinding { slot: c, components: 3, stride: 24, offset: 12 },
        ],
    }
}

/// A flattened buffer has as many words as its vertices take.
pub proof fn lemma_flatten_len(vertices: Seq<Vertex>, colored: bool)
    ensures
        flatten(vertices, colored).len() == vertices.len() * vertex_words(colored),
    decreases vertices.len(),
{
    if vertices.len() > 0 {
        lemma_flatten_len(vertices.drop_last(), colored);
        assert(vertices.len() * vertex_words(colored) == (vertices.len() - 1) * vertex_words(colored)
            + vertex_words(colored)) by (nonlinear_arith);
    }
}

/// What an uploaded buffer is.
pub struct BufferModel {
    pub vertex_array: u32,
    pub handle: u32,
    pub vertices: Seq<Vertex>,
    pub layout: Seq<AttributeBinding>,
    pub live: bool,
}

/// Vertex data resident in a driver buffer, with its attribute layout. It
/// owns the buffer and its vertex array until `release` gives them up.
#[derive(Debug)]
pub struct GeometryBuffer {
    vertex_array: u32,
    handle: u32,
    vertices: Vec<Vertex>,
    layout: Vec<AttributeBinding>,
    live: bool,
}

impl View for GeometryBuffer {
    type V = BufferModel;

    closed spec fn view(&self) -> BufferModel {
        BufferModel {
            vertex_array: self.vertex_array,
            handle: self.handle,
            vertices: self.vertices@,
            layout: self.layout@,
            live: self.live,
        }
    }
}

/// The calls that delete a buffer and its vertex array, if still owned.
pub open spec fn buffer_release_when(live: bool, handle: u32, vertex_array: u32) -> Seq<GpuCall> {
    if live {
        seq![GpuCall::DeleteBuffer(handle), GpuCall::DeleteVertexArray(vertex_array)]
    } else {
        Seq::empty()
    }
}

/// The layout of a buffer with the given slots.
pub fn layout_for(position_slot: u32, color_slot: Option<u32>) -> (layout: Vec<AttributeBinding>)
    ensures
        layout@ == layout_of(position_slot, color_slot),
{
    let mut layout: Vec<AttributeBinding> = Vec::new();
    match color_slot {
        None => {
            layout.push(AttributeBinding { slot: position_slot, components: 3, stride: 12, offset: 0 });
        },
        Some(c) => {
            layout.push(AttributeBinding { slot: position_slot, components: 3, stride: 24, offset: 0 });
            layout.push(AttributeBinding { slot: c, components: 3, stride: 24, offset: 12 });
        },
    }
    proof {
        assert(layout@ =~= layout_of(position_slot, color_slot));
    }
    layout
}

/// The words that an upload writes: each vertex's position, followed by its
/// colour where `colored`.
pub fn flatten_vertices(vertices: &Vec<Vertex>, colored: bool) -> (words: Vec<u32>)
    ensures
        words@ == flatten(vertices@, colored),
        words@.len() == vertices@.len() * vertex_words(colored),
{
    let mut words: Vec<u32> = Vec::new();
    let mut i: usize = 0;
    while i < vertices.len()
        invariant
            i <= vertices.len(),
            words@ == flatten(vertices@.take(i as int), colored),
        decreases vertices.len() - i,
    {
        let v = vertices[i];
        let ghost before = words@;
        words.push(v.position.a);
        words.push(v.position.b);
        words.push(v.position.c);
        if colored {
            words.push(v.color.a);
            words.push(v.color.b);
            words.push(v.color.c);
        }
        proof {
            assert(vertices@.take(i + 1).drop_last() =~= vertices@.take(i as int));
            assert(vertices@.take(i + 1).last() == v);
            assert(words@ =~= before + words_of(v, colored));
        }
        i += 1;
    }
    proof {
        assert(vertices@.take(i as int) =~= vertices@);
        lemma_flatten_len(vertices@, colored);
    }
    words
}

impl GeometryBuffer {
    /// A buffer never holds more vertices than one upload takes.
    #[verifier::type_invariant]
    spec fn within_limit(self) -> bool {
        self.vertices.len() <= MAX_VERTICES
    }

    /// The driver's handle of the buffer.
    pub fn handle(&self) -> (h: u32)
        ensures
            h == self@.handle,
    {
        self.handle
    }

    /// Whether the buffer still owns its handle.
    pub fn is_live(&self) -> (live: bool)
        ensures
            live == self@.live,
    {
        self.live
    }

    /// The attribute layout, computed once at upload.
    pub fn layout(&self) -> (layout: &Vec<AttributeBinding>)
        ensures
            layout@ == self@.layout,
    {
        &self.layout
    }

    /// How many vertices the buffer holds.
    pub fn vertex_count(&self) -> (n: usize)
        ensures
            n == self@.vertices.len(),
            n <= MAX_VERTICES,
    {
        proof {
            use_type_invariant(self);
        }
        self.vertices.len()
    }

    /// The words that `GpuCall::UploadStatic` writes.
    pub fn words(&self) -> (words: Vec<u32>)
        ensures
            words@ == flatten(self@.vertices, self@.layout.len() > 1),
    {
        flatten_vertices(&self.vertices, self.layout.len() > 1)
    }

    /// Gives up the buffer. The first call asks for the deletion of the
    /// buffer and of its vertex array; every later call asks for nothing.
    pub fn release(&mut self) -> (calls: Vec<GpuCall>)
        ensures
            calls@ == buffer_release_when(old(self)@.live, old(self)@.handle, old(self)@.vertex_array),
            final(self)@ == (BufferModel { live: false, ..old(self)@ }),
    {
        proof {
            use_type_invariant(&*self);
        }
        let mut calls: Vec<GpuCall> = Vec::new();
        if self.live {
            calls.push(GpuCall::DeleteBuffer(self.handle));
            calls.push(GpuCall::DeleteVertexArray(self.vertex_array));
            self.live = false;
        }
        proof {
            assert(calls@ =~= buffer_release_when(
                old(self)@.live,
                old(self)@.handle,
                old(self)@.vertex_array,
            ));
        }
        calls
    }
}

/// What an upload is waiting for.
#[derive(Clone, Copy, Debug, PartialEq, Eq, Structural)]
pub enum UploadPhase {
    /// The handle of the new vertex array.
    AwaitArray,
    /// The handle of the new buffer.
    AwaitBuffer,
}

/// An upload in progress.
pub struct UploadModel {
    pub vertices: Seq<Vertex>,
    pub layout: Seq<AttributeBinding>,
    pub phase: UploadPhase,
    pub vertex_array: u32,
}

/// An upload in progress. It owns the vertex array once that is created.
#[derive(Debug)]
pub struct GeometryUpload {
    vertices: Vec<Vertex>,
    layout: Vec<AttributeBinding>,
    phase: UploadPhase,
    vertex_array: u32,
}

impl View for GeometryUpload {
    type V = UploadModel;

    closed spec fn view(&self) -> UploadModel {
        UploadModel {
            vertices: self.vertices@,
            layout: self.layout@,
            phase: self.phase,
            vertex_array: self.vertex_array,
        }
    }
}

/// Where an upload stands.
pub enum UploadProgressModel {
    Pending { upload: UploadModel, calls: Seq<GpuCall> },
    Built { buffer: BufferModel, calls: Seq<GpuCall> },
    Failed { calls: Seq<GpuCall> },
}

/// Where an upload stands. In each case `calls` are to be made in order. Only
/// `Pending` expects the reply of the last of them. `Failed` is a fatal driver
/// error.
#[derive(Debug)]
pub enum UploadProgress {
    Pending { upload: GeometryUpload, calls: Vec<GpuCall> },
    Built { buffer: GeometryBuffer, calls: Vec<GpuCall> },
    Failed { calls: Vec<GpuCall> },
}

impl View for UploadProgress {
    type V = UploadProgressModel;

    open spec fn view(&self) -> UploadProgressModel {
        match *self {
            UploadProgress::Pending { upload, calls } => UploadProgressModel::Pending {
                upload: upload@,
                calls: calls@,
            },
            UploadProgress::Built { buffer, calls } => UploadProgressModel::Built {
                buffer: buffer@,
                calls: calls@,
            },
            UploadProgress::Failed { calls } => UploadProgressModel::Failed { calls: calls@ },
        }
    }
}

/// The call that deletes a vertex array, if there is one.
pub open spec fn array_release(vertex_array: u32) -> Seq<GpuCall> {
    if vertex_array == 0 {
        Seq::empty()
    } else {
        seq![GpuCall::DeleteVertexArray(vertex_array)]
    }
}

/// Bytes that the vertices of a layout take.
pub open spec fn byte_len(vertices: Seq<Vertex>, layout: Seq<AttributeBinding>) -> nat {
    vertices.len() * vertex_words(layout.len() > 1) * 4
}

/// Where a new upload stands: it asks for a vertex array, unless there are
/// more vertices than one buffer takes.
pub open spec fn upload_start(vertices: Seq<Vertex>, position_slot: u32, color_slot: Option<u32>) -> UploadProgressModel {
    if vertices.len() > MAX_VERTICES {
        UploadProgressModel::Failed { calls: Seq::empty() }
    } else {
        UploadProgressModel::Pending {
            upload: UploadModel {
                vertices,
                layout: layout_of(position_slot, color_slot),
                phase: UploadPhase::AwaitArray,
                vertex_array: 0,
            },
            calls: seq![GpuCall::CreateVertexArray],
        }
    }
}

/// Where an upload stands after the driver's reply to the last call it asked
/// for. A zero handle, or a reply that is no handle, ends it; the second
/// handle completes it with a single static write of every vertex.
pub open spec fn upload_step(m: UploadModel, reply: ReplyModel) -> UploadProgressModel {
    match reply {
        ReplyModel::Handle(h) => if h == 0 {
            UploadProgressModel::Failed { calls: array_release(m.vertex_array) }
        } else {
            match m.phase {
                UploadPhase::AwaitArray => UploadProgressModel::Pending {
                    upload: UploadModel { vertex_array: h, phase: UploadPhase::AwaitBuffer, ..m },
                    calls: seq![GpuCall::BindVertexArray(h), GpuCall::CreateBuffer],
                },
                UploadPhase::AwaitBuffer => UploadProgressModel::Built {
                    buffer: BufferModel {
                        vertex_array: m.vertex_array,
                        handle: h,
                        vertices: m.vertices,
                        layout: m.layout,
                        live: true,
                    },
                    calls: seq![
                        GpuCall::BindArrayBuffer(h),
                        GpuCall::UploadStatic {
                            buffer: h,
                            bytes: byte_len(m.vertices, m.layout) as usize,
                        },
                    ],
                },
            }
        },
        _ => UploadProgressModel::Failed { calls: array_release(m.vertex_array) },
    }
}

impl GeometryUpload {
    /// An upload never holds more vertices than one buffer takes.
    #[verifier::type_invariant]
    spec fn within_limit(self) -> bool {
        self.vertices.len() <= MAX_VERTICES
    }

    /// Starts the upload of `vertices` for a program that reads positions at
    /// `position_slot` and, if it has one, colours at `color_slot`.
    pub fn begin(vertices: Vec<Vertex>, position_slot: u32, color_slot: Option<u32>) -> (out:
        UploadProgress)
        ensures
            out@ == upload_start(vertices@, position_slot, color_slot),
    {
        if vertices.len() > MAX_VERTICES {
            return UploadProgress::Failed { calls: Vec::new() };
        }
        let layout = layout_for(position_slot, color_slot);
        let upload = GeometryUpload { vertices, layout, phase: UploadPhase::AwaitArray, vertex_array: 0 };
        let mut calls: Vec<GpuCall> = Vec::new();
        calls.push(GpuCall::CreateVertexArray);
        proof {
            assert(calls@ =~= seq![GpuCall::CreateVertexArray]);
        }
        UploadProgress::Pending { upload, calls }
    }

    /// Ends the upload and asks for the deletion of what it owns.
    fn abandon(self) -> (out: UploadProgress)
        ensures
            out@ == (UploadProgressModel::Failed { calls: array_release(self@.vertex_array) }),
    {
        let mut calls: Vec<GpuCall> = Vec::new();
        if self.vertex_array != 0 {
            calls.push(GpuCall::DeleteVertexArray(self.vertex_array));
        }
        proof {
            assert(calls@ =~= array_release(self@.vertex_array));
        }
        UploadProgress::Failed { calls }
    }

    /// Takes the driver's reply to the last call that the upload asked for
    /// and says what is to be done next.
    pub fn step(self, reply: GpuReply) -> (out: UploadProgress)
        ensures
            out@ == upload_step(self@, reply@),
    {
        let h: u32 = match reply {
            GpuReply::Handle(h) => h,
            _ => {
                return self.abandon();
            },
        };
        if h == 0 {
            return self.abandon();
        }
        proof {
            use_type_invariant(&self);
        }
        let mut calls: Vec<GpuCall> = Vec::new();
        match self.phase {
            UploadPhase::AwaitArray => {
                let upload = GeometryUpload {
                    vertex_array: h,
                    phase: UploadPhase::AwaitBuffer,
                    ..self
                };
                calls.push(GpuCall::BindVertexArray(h));
                calls.push(GpuCall::CreateBuffer);
                proof {
                    assert(calls@ =~= seq![GpuCall::BindVertexArray(h), GpuCall::CreateBuffer]);
                }
                UploadProgress::Pending { upload, calls }
            },
            UploadPhase::AwaitBuffer => {
                let per_vertex: usize = if self.layout.len() > 1 {
                    24
                } else {
                    12
                };
                let bytes: usize = self.vertices.len() * per_vertex;
                calls.push(GpuCall::BindArrayBuffer(h));
                calls.push(GpuCall::UploadStatic { buffer: h, bytes });
                proof {
                    assert(bytes == byte_len(self@.vertices, self@.layout)) by (nonlinear_arith)
                        requires
                            bytes == self@.vertices.len() * per_vertex,
                            per_vertex == vertex_words(self@.layout.len() > 1) * 4,
                            byte_len(self@.vertices, self@.layout) == self@.vertices.len()
                                * vertex_words(self@.layout.len() > 1) * 4,
                    ;
                    assert(calls@ =~= seq![
                        GpuCall::BindArrayBuffer(h),
                        GpuCall::UploadStatic { buffer: h, bytes },
                    ]);
                }
                let buffer = GeometryBuffer {
                    vertex_array: self.vertex_array,
                    handle: h,
                    vertices: self.vertices,
                    layout: self.layout,
                    live: true,
                };
                UploadProgress::Built { buffer, calls }
            },
        }
    }
}

} // verus!
