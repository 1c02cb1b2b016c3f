//! The calls of one frame.

use crate::geometry::{AttributeBinding, GeometryBuffer};
use crate::gpu::{apply, idle, run, Color, ComponentKind, FrameState, GpuCall};
use crate::shader::ShaderProgram;
use vstd::prelude::*;

verus! {

/// What every frame is cleared with.
#[derive(Clone, Copy, Debug, PartialEq, Eq, Structural)]
pub struct FrameConfig {
    pub background: Color,
    pub clear_depth: bool,
}

/// The call that describes a slot's data: floats, not normalised, laid out
/// as the binding says.
pub open spec fn describe_call(binding: AttributeBinding) -> GpuCall {
    GpuCall::AttributePointer {
        slot: binding.slot,
        components: binding.components,
        kind: ComponentKind::Float,
        normalized: false,
        stride: binding.stride,
        offset: binding.offset,
    }
}

/// The calls that connect the buffer to each slot of a layout: bind the
/// buffer, enable the slot, describe its data.
pub open spec fn bind_calls(buffer: u32, layout: Seq<AttributeBinding>) -> Seq<GpuCall>
    decreases layout.len(),
{
    if layout.len() == 0 {
        Seq::empty()
    } else {
        bind_calls(buffer, layout.drop_last()) + seq![
            GpuCall::BindArrayBuffer(buffer),
            GpuCall::EnableAttribute(layout.last().slot),
            describe_call(layout.last()),
        ]
    }
}

/// The calls that disable each slot of a layout, in the layout's order.
pub open spec fn unbind_calls(layout: Seq<AttributeBinding>) -> Seq<GpuCall> {
    Seq::new(layout.len(), |k: int| GpuCall::DisableAttribute(layout[k].slot))
}

/// The calls of one frame, in order: clear, bind the program, connect the
/// buffer to its slots, draw every vertex once as a triangle list, disable
/// the slots.
pub open spec fn frame_calls(
    program: u32,
    buffer: u32,
    layout: Seq<AttributeBinding>,
    count: u32,
    config: FrameConfig,
) -> Seq<GpuCall> {
    seq![
        GpuCall::Clear { color: config.background, depth: config.clear_depth },
        GpuCall::UseProgram(program),
    ] + bind_calls(buffer, layout) + seq![GpuCall::DrawTriangles { first: 0, count }]
        + unbind_calls(layout)
}

/// The slots that a layout uses.
pub open spec fn slots_of(layout: Seq<AttributeBinding>) -> Set<u32> {
    Set::new(|s: u32| exists|j: int| 0 <= j < layout.len() && (#[trigger] layout[j]).slot == s)
}

/// Running one sequence after another is running the two joined.
pub proof fn lemma_run_concat(state: FrameState, first: Seq<GpuCall>, second: Seq<GpuCall>)
    ensures
        run(state, first + second) == run(run(state, first), second),
    decreases second.len(),
{
    if second.len() == 0 {
        assert(first + second =~= first);
    } else {
        lemma_run_concat(state, first, second.drop_last());
        assert((first + second).drop_last() =~= first + second.drop_last());
        assert((first + second).last() == second.last());
    }
}

/// Connecting a buffer to a layout binds the buffer and enables the layout's
/// slots; it clears nothing, draws nothing and keeps the program.
pub proof fn lemma_bind_effect(state: FrameState, buffer: u32, layout: Seq<AttributeBinding>)
    ensures
        run(state, bind_calls(buffer, layout)).enabled == state.enabled.union(slots_of(layout)),
        run(state, bind_calls(buffer, layout)).draws == state.draws,
        run(state, bind_calls(buffer, layout)).clears == state.clears,
        run(state, bind_calls(buffer, layout)).program == state.program,
    decreases layout.len(),
{
    if layout.len() == 0 {
        assert(state.enabled.union(slots_of(layout)) =~= state.enabled);
    } else {
        let rest = layout.drop_last();
        let last = layout.last();
        let three = seq![
            GpuCall::BindArrayBuffer(buffer),
            GpuCall::EnableAttribute(last.slot),
            describe_call(last),
        ];
        lemma_bind_effect(state, buffer, rest);
        lemma_run_concat(state, bind_calls(buffer, rest), three);
        let mid = run(state, bind_calls(buffer, rest));
        reveal_with_fuel(run, 4);
        assert(three.drop_last() =~= seq![three[0], three[1]]);
        assert(three.drop_last().drop_last() =~= seq![three[0]]);
        assert(three.drop_last().drop_last().drop_last() =~= Seq::<GpuCall>::empty());
        assert(run(mid, three).enabled == mid.enabled.insert(last.slot));
        assert forall|s: u32| slots_of(layout).contains(s) <==> (slots_of(rest).contains(s) || s
            == last.slot) by {
            if slots_of(layout).contains(s) {
                let j = choose|j: int| 0 <= j < layout.len() && (#[trigger] layout[j]).slot == s;
                if j < rest.len() {
                    assert(rest[j].slot == s);
                }
            }
            if slots_of(rest).contains(s) {
                let j = choose|j: int| 0 <= j < rest.len() && (#[trigger] rest[j]).slot == s;
                assert(layout[j].slot == s);
            }
            if s == last.slot {
                assert(layout[layout.len() - 1].slot == s);
            }
        }
        assert(mid.enabled.insert(last.slot) =~= state.enabled.union(slots_of(layout)));
    }
}

/// Disabling the slots of a layout leaves enabled what was enabled and is no
/// slot of the layout; it clears nothing, draws nothing and keeps the program.
pub proof fn lemma_unbind_effect(state: FrameState, layout: Seq<AttributeBinding>)
    ensures
        run(state, unbind_calls(layout)).enabled == state.enabled.difference(slots_of(layout)),
        run(state, unbind_calls(layout)).draws == state.draws,
        run(state, unbind_calls(layout)).clears == state.clears,
        run(state, unbind_calls(layout)).program == state.program,
    decreases layout.len(),
{
    if layout.len() == 0 {
        assert(state.enabled.difference(slots_of(layout)) =~= state.enabled);
    } else {
        let rest = layout.drop_last();
        let last = layout.last();
        lemma_unbind_effect(state, rest);
        assert(unbind_calls(layout).drop_last() =~= unbind_calls(rest));
        assert(unbind_calls(layout).last() == GpuCall::DisableAttribute(last.slot));
        let mid = run(state, unbind_calls(rest));
        assert(run(state, unbind_calls(layout)).enabled == mid.enabled.remove(last.slot));
        assert forall|s: u32| slots_of(layout).contains(s) <==> (slots_of(rest).contains(s) || s
            == last.slot) by {
            if slots_of(layout).contains(s) {
                let j = choose|j: int| 0 <= j < layout.len() && (#[trigger] layout[j]).slot == s;
                if j < rest.len() {
                    assert(rest[j].slot == s);
                }
            }
            if slots_of(rest).contains(s) {
                let j = choose|j: int| 0 <= j < rest.len() && (#[trigger] rest[j]).slot == s;
                assert(layout[j].slot == s);
            }
            if s == last.slot {
                assert(layout[layout.len() - 1].slot == s);
            }
        }
        assert(mid.enabled.remove(last.slot) =~= state.enabled.difference(slots_of(layout)));
    }
}

/// A frame is symmetric. Whatever state it starts in, it clears once, binds
/// its program, adds exactly one draw call of all its vertices, and leaves
/// none of its slots enabled: what is enabled afterwards was enabled before
/// and is no slot of the frame.
pub proof fn frame_is_symmetric(
    state: FrameState,
    program: u32,
    buffer: u32,
    layout: Seq<AttributeBinding>,
    count: u32,
    config: FrameConfig,
)
    ensures
        run(state, frame_calls(program, buffer, layout, count, config)).clears == state.clears + 1,
        run(state, frame_calls(program, buffer, layout, count, config)).program == program,
        run(state, frame_calls(program, buffer, layout, count, config)).draws == state.draws.push(
            (0u32, count),
        ),
        run(state, frame_calls(program, buffer, layout, count, config)).enabled
            == state.enabled.difference(slots_of(layout)),
{
    let head = seq![
        GpuCall::Clear { color: config.background, depth: config.clear_depth },
        GpuCall::UseProgram(program),
    ];
    let draw = seq![GpuCall::DrawTriangles { first: 0, count }];
    let binds = bind_calls(buffer, layout);
    let unbinds = unbind_calls(layout);
    let s1 = run(state, head);
    reveal_with_fuel(run, 3);
    assert(head.drop_last() =~= seq![head[0]]);
    assert(head.drop_last().drop_last() =~= Seq::<GpuCall>::empty());
    assert(s1 == apply(apply(state, head[0]), head[1]));
    lemma_run_concat(state, head, binds);
    lemma_bind_effect(s1, buffer, layout);
    let s2 = run(s1, binds);
    lemma_run_concat(state, head + binds, draw);
    assert(draw.drop_last() =~= Seq::<GpuCall>::empty());
    let s3 = run(s2, draw);
    assert(s3 == apply(s2, draw[0]));
    lemma_run_concat(state, head + binds + draw, unbinds);
    lemma_unbind_effect(s3, layout);
    assert(state.enabled.union(slots_of(layout)).difference(slots_of(layout))
        =~= state.enabled.difference(slots_of(layout)));
}

/// The calls of one frame. Run from the neutral state they clear once, draw
/// the buffer's vertices in exactly one draw call and leave no slot enabled.
pub fn render_frame(program: &ShaderProgram, buffer: &GeometryBuffer, config: &FrameConfig) -> (calls:
    Vec<GpuCall>)
    ensures
        calls@ == frame_calls(
            program@.handle,
            buffer@.handle,
            buffer@.layout,
            buffer@.vertices.len() as u32,
            *config,
        ),
        run(idle(), calls@).clears == 1,
        run(idle(), calls@).program == program@.handle,
        run(idle(), calls@).draws == seq![(0u32, buffer@.vertices.len() as u32)],
        run(idle(), calls@).enabled == Set::<u32>::empty(),
{
    let handle: u32 = buffer.handle();
    let layout = buffer.layout();
    let count: u32 = buffer.vertex_count() as u32;
    let n: usize = layout.len();
    let ghost head = seq![
        GpuCall::Clear { color: config.background, depth: config.clear_depth },
        GpuCall::UseProgram(program@.handle),
    ];
    let mut calls: Vec<GpuCall> = Vec::new();
    calls.push(GpuCall::Clear { color: config.background, depth: config.clear_depth });
    calls.push(GpuCall::UseProgram(program.handle()));
    proof {
        assert(calls@ =~= head + bind_calls(handle, layout@.take(0)));
    }
    let mut i: usize = 0;
    while i < n
        invariant
            i <= n,
            n == layout@.len(),
            calls@ == head + bind_calls(handle, layout@.take(i as int)),
        decreases n - i,
    {
        let binding = layout[i];
        calls.push(GpuCall::BindArrayBuffer(handle));
        calls.push(GpuCall::EnableAttribute(binding.slot));
        calls.push(
            GpuCall::AttributePointer {
                slot: binding.slot,
                components: binding.components,
                kind: ComponentKind::Float,
                normalized: false,
                stride: binding.stride,
                offset: binding.offset,
            },
        );
        proof {
            assert(layout@.take(i + 1).drop_last() =~= layout@.take(i as int));
            assert(layout@.take(i + 1).last() == binding);
            assert(calls@ =~= head + bind_calls(handle, layout@.take(i + 1)));
        }
        i += 1;
    }
    proof {
        assert(layout@.take(n as int) =~= layout@);
    }
    calls.push(GpuCall::DrawTriangles { first: 0, count });
    let ghost body = calls@;
    proof {
        assert(calls@ =~= body + unbind_calls(layout@.take(0)));
    }
    let mut k: usize = 0;
    while k < n
        invariant
            k <= n,
            n == layout@.len(),
            calls@ == body + unbind_calls(layout@.take(k as int)),
        decreases n - k,
    {
        let binding = layout[k];
        calls.push(GpuCall::DisableAttribute(binding.slot));
        proof {
            assert(calls@ =~= body + unbind_calls(layout@.take(k + 1)));
        }
        k += 1;
    }
    proof {
        assert(layout@.take(n as int) =~= layout@);
        assert(calls@ =~= frame_calls(
            program@.handle,
            buffer@.handle,
            buffer@.layout,
            buffer@.vertices.len() as u32,
            *config,
        ));
        frame_is_symmetric(
            idle(),
            program@.handle,
            buffer@.handle,
            buffer@.layout,
            buffer@.vertices.len() as u32,
            *config,
        );
        assert(idle().enabled.difference(slots_of(buffer@.layout)) =~= Set::<u32>::empty());
        assert(idle().draws.push((0u32, buffer@.vertices.len() as u32)) =~= seq![
            (0u32, buffer@.vertices.len() as u32),
        ]);
    }
    calls
}

} // verus!
