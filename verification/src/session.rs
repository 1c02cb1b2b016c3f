//! Whole builds: what a run of driver replies leads to, from the first call
//! to the end.

use crate::gpu::{GpuCall, ReplyModel, Stage};
use crate::shader::{
    link_failure_releases_all, missing_attribute_is_named, model_step, orderly, fresh,
    release_calls, stage_release, step_keeps_order, whole, BuildModel, ErrorModel, Phase,
    ProgramModel, ProgressModel,
};
use vstd::prelude::*;

verus! {

/// Where a build stands after a run of replies, each fed to the step that
/// the one before left pending. Replies that come after the build has ended
/// change nothing.
pub open spec fn session(m: BuildModel, replies: Seq<ReplyModel>) -> ProgressModel
    decreases replies.len(),
{
    if replies.len() == 0 {
        ProgressModel::Pending { build: m, calls: Seq::empty() }
    } else {
        match session(m, replies.drop_last()) {
            ProgressModel::Pending { build, .. } => model_step(build, replies.last()),
            ended => ended,
        }
    }
}

/// One more reply continues a session that is pending and leaves an ended
/// one as it is.
pub proof fn session_push(m: BuildModel, replies: Seq<ReplyModel>, reply: ReplyModel)
    ensures
        session(m, replies.push(reply)) == match session(m, replies) {
            ProgressModel::Pending { build, .. } => model_step(build, reply),
            ended => ended,
        },
{
    assert(replies.push(reply).drop_last() =~= replies);
}

/// Whatever the driver replies, a build that started in order stays in
/// order, keeps its names, and hands over nothing but a whole, live program.
pub proof fn session_keeps_order(m: BuildModel, replies: Seq<ReplyModel>)
    requires
        orderly(m),
    ensures
        match session(m, replies) {
            ProgressModel::Pending { build, .. } => orderly(build) && build.names == m.names,
            ProgressModel::Built { program, .. } => whole(program) && program.live && program.names
                == m.names,
            ProgressModel::Failed { .. } => true,
        },
    decreases replies.len(),
{
    if replies.len() > 0 {
        session_keeps_order(m, replies.drop_last());
        match session(m, replies.drop_last()) {
            ProgressModel::Pending { build, .. } => {
                step_keeps_order(build, replies.last());
            },
            _ => {},
        }
    }
}

/// The replies of a driver that creates the vertex stage object `v` and
/// compiles it.
pub open spec fn vertex_compiled(v: u32) -> Seq<ReplyModel> {
    seq![ReplyModel::Handle(v), ReplyModel::Status(true)]
}

/// The replies of a driver that then creates the fragment stage object `f`
/// and compiles it too.
pub open spec fn stages_compiled(v: u32, f: u32) -> Seq<ReplyModel> {
    vertex_compiled(v).push(ReplyModel::Handle(f)).push(ReplyModel::Status(true))
}

/// A fresh build whose two stages compile waits for the program object and
/// owns both stage objects.
pub proof fn compiled_stages_await_program(start: BuildModel, v: u32, f: u32)
    requires
        start == fresh(start.vertex_text, start.fragment_text, start.names),
        v != 0,
        f != 0,
    ensures
        session(start, stages_compiled(v, f)) == (ProgressModel::Pending {
            build: BuildModel { vertex: v, fragment: f, phase: Phase::AwaitProgram, ..start },
            calls: seq![GpuCall::CreateProgram],
        }),
{
    let none = Seq::<ReplyModel>::empty();
    session_push(start, none, ReplyModel::Handle(v));
    session_push(start, none.push(ReplyModel::Handle(v)), ReplyModel::Status(true));
    assert(vertex_compiled(v) =~= none.push(ReplyModel::Handle(v)).push(ReplyModel::Status(true)));
    session_push(start, vertex_compiled(v), ReplyModel::Handle(f));
    session_push(start, vertex_compiled(v).push(ReplyModel::Handle(f)), ReplyModel::Status(true));
}

/// A vertex source that the driver does not compile: the build fails with a
/// compile error for the vertex stage that carries the driver's diagnostic,
/// and the one object created is deleted. No program is ever created.
pub proof fn invalid_vertex_source_fails(start: BuildModel, v: u32, log: Seq<char>)
    requires
        start == fresh(start.vertex_text, start.fragment_text, start.names),
        v != 0,
    ensures
        session(
            start,
            seq![ReplyModel::Handle(v), ReplyModel::Status(false), ReplyModel::Log(log)],
        ) == (ProgressModel::Failed {
            error: ErrorModel::ShaderCompileError { stage: Stage::Vertex, log },
            calls: seq![GpuCall::DeleteShader(v)],
        }),
{
    let none = Seq::<ReplyModel>::empty();
    let one = none.push(ReplyModel::Handle(v));
    let two = one.push(ReplyModel::Status(false));
    session_push(start, none, ReplyModel::Handle(v));
    session_push(start, one, ReplyModel::Status(false));
    session_push(start, two, ReplyModel::Log(log));
    assert(two.push(ReplyModel::Log(log)) =~= seq![
        ReplyModel::Handle(v),
        ReplyModel::Status(false),
        ReplyModel::Log(log),
    ]);
    let waiting = BuildModel { vertex: v, phase: Phase::AwaitCompileLog(Stage::Vertex), ..start };
    assert(release_calls(waiting) =~= seq![GpuCall::DeleteShader(v)]);
}

/// A fragment source that the driver does not compile: the build fails with
/// a compile error for the fragment stage that carries the driver's
/// diagnostic, and both stage objects are deleted. No program is ever
/// created.
pub proof fn invalid_fragment_source_fails(start: BuildModel, v: u32, f: u32, log: Seq<char>)
    requires
        start == fresh(start.vertex_text, start.fragment_text, start.names),
        v != 0,
        f != 0,
    ensures
        session(
            start,
            vertex_compiled(v).push(ReplyModel::Handle(f)).push(ReplyModel::Status(false)).push(
                ReplyModel::Log(log),
            ),
        ) == (ProgressModel::Failed {
            error: ErrorModel::ShaderCompileError { stage: Stage::Fragment, log },
            calls: seq![GpuCall::DeleteShader(v), GpuCall::DeleteShader(f)],
        }),
{
    let none = Seq::<ReplyModel>::empty();
    session_push(start, none, ReplyModel::Handle(v));
    session_push(start, none.push(ReplyModel::Handle(v)), ReplyModel::Status(true));
    assert(vertex_compiled(v) =~= none.push(ReplyModel::Handle(v)).push(ReplyModel::Status(true)));
    let three = vertex_compiled(v).push(ReplyModel::Handle(f));
    let four = three.push(ReplyModel::Status(false));
    session_push(start, vertex_compiled(v), ReplyModel::Handle(f));
    session_push(start, three, ReplyModel::Status(false));
    session_push(start, four, ReplyModel::Log(log));
    let waiting = BuildModel {
        vertex: v,
        fragment: f,
        phase: Phase::AwaitCompileLog(Stage::Fragment),
        ..start
    };
    assert(release_calls(waiting) =~= seq![GpuCall::DeleteShader(v), GpuCall::DeleteShader(f)]);
}

/// Two stages that compile but do not link: the build fails with a link
/// error that carries the driver's diagnostic, and both stage objects and the
/// program object are deleted, so nothing is left behind however often this
/// is repeated.
pub proof fn incompatible_stages_fail(start: BuildModel, v: u32, f: u32, p: u32, log: Seq<char>)
    requires
        start == fresh(start.vertex_text, start.fragment_text, start.names),
        v != 0,
        f != 0,
        p != 0,
    ensures
        session(
            start,
            stages_compiled(v, f).push(ReplyModel::Handle(p)).push(ReplyModel::Status(false)).push(
                ReplyModel::Log(log),
            ),
        ) == (ProgressModel::Failed {
            error: ErrorModel::ShaderLinkError { log },
            calls: seq![
                GpuCall::DeleteShader(v),
                GpuCall::DeleteShader(f),
                GpuCall::DeleteProgram(p),
            ],
        }),
{
    compiled_stages_await_program(start, v, f);
    let five = stages_compiled(v, f).push(ReplyModel::Handle(p));
    let six = five.push(ReplyModel::Status(false));
    session_push(start, stages_compiled(v, f), ReplyModel::Handle(p));
    session_push(start, five, ReplyModel::Status(false));
    session_push(start, six, ReplyModel::Log(log));
    let linking = BuildModel {
        vertex: v,
        fragment: f,
        program: p,
        phase: Phase::AwaitLink,
        ..start
    };
    link_failure_releases_all(linking, log);
}

/// Two stages that compile and link, and a name that the program does not
/// declare: the build fails with an error that carries the first such name,
/// and the program is deleted.
pub proof fn undeclared_first_name_fails(start: BuildModel, v: u32, f: u32, p: u32, at: i32)
    requires
        start == fresh(start.vertex_text, start.fragment_text, start.names),
        start.names.len() > 0,
        v != 0,
        f != 0,
        p != 0,
        at < 0,
    ensures
        session(
            start,
            stages_compiled(v, f).push(ReplyModel::Handle(p)).push(ReplyModel::Status(true)).push(
                ReplyModel::Location(at),
            ),
        ) == (ProgressModel::Failed {
            error: ErrorModel::AttributeNotFoundError { name: start.names[0] },
            calls: seq![GpuCall::DeleteProgram(p)],
        }),
{
    compiled_stages_await_program(start, v, f);
    let five = stages_compiled(v, f).push(ReplyModel::Handle(p));
    let six = five.push(ReplyModel::Status(true));
    session_push(start, stages_compiled(v, f), ReplyModel::Handle(p));
    session_push(start, five, ReplyModel::Status(true));
    session_push(start, six, ReplyModel::Location(at));
    let linked = BuildModel { program: p, phase: Phase::AwaitLocation, ..start };
    missing_attribute_is_named(linked, at);
}

/// Two stages that compile and link, and one name that the program declares
/// at `at`: the build ends with a live program that has the driver's handle
/// and that name's slot, and both stage objects were deleted on the way.
pub proof fn valid_sources_build(start: BuildModel, v: u32, f: u32, p: u32, at: i32)
    requires
        start == fresh(start.vertex_text, start.fragment_text, start.names),
        start.names.len() == 1,
        v != 0,
        f != 0,
        p != 0,
        at >= 0,
    ensures
        session(start, stages_compiled(v, f).push(ReplyModel::Handle(p)).push(ReplyModel::Status(true)))
            == (ProgressModel::Pending {
            build: BuildModel { program: p, phase: Phase::AwaitLocation, ..start },
            calls: seq![
                GpuCall::DeleteShader(v),
                GpuCall::DeleteShader(f),
                GpuCall::QueryAttributeLocation { program: p, index: 0 },
            ],
        }),
        session(
            start,
            stages_compiled(v, f).push(ReplyModel::Handle(p)).push(ReplyModel::Status(true)).push(
                ReplyModel::Location(at),
            ),
        ) == (ProgressModel::Built {
            program: ProgramModel { handle: p, names: start.names, slots: seq![at as u32], live: true },
            calls: Seq::empty(),
        }),
{
    compiled_stages_await_program(start, v, f);
    let five = stages_compiled(v, f).push(ReplyModel::Handle(p));
    let six = five.push(ReplyModel::Status(true));
    session_push(start, stages_compiled(v, f), ReplyModel::Handle(p));
    session_push(start, five, ReplyModel::Status(true));
    session_push(start, six, ReplyModel::Location(at));
    let linking = BuildModel {
        vertex: v,
        fragment: f,
        program: p,
        phase: Phase::AwaitLink,
        ..start
    };
    assert(stage_release(linking).push(GpuCall::QueryAttributeLocation { program: p, index: 0 })
        =~= seq![
        GpuCall::DeleteShader(v),
        GpuCall::DeleteShader(f),
        GpuCall::QueryAttributeLocation { program: p, index: 0 },
    ]);
    assert(start.slots.push(at as u32) =~= seq![at as u32]);
}

/// The replies of a driver that finds one attribute after the other.
pub open spec fn locations(at: Seq<i32>) -> Seq<ReplyModel> {
    Seq::new(at.len(), |i: int| ReplyModel::Location(at[i]))
}

/// The slots that found locations stand for.
pub open spec fn as_slots(at: Seq<i32>) -> Seq<u32> {
    Seq::new(at.len(), |i: int| at[i] as u32)
}

/// A linked build whose names the driver finds one after the other records
/// each location as the slot of its name, in order. It asks for the next
/// name while one is left and ends with a live program when none is.
pub proof fn found_names_get_their_slots(m: BuildModel, at: Seq<i32>)
    requires
        orderly(m),
        m.phase == Phase::AwaitLocation,
        at.len() > 0,
        m.slots.len() + at.len() <= m.names.len(),
        m.names.len() <= usize::MAX,
        forall|i: int| 0 <= i < at.len() ==> at[i] >= 0,
    ensures
        session(m, locations(at)) == if m.slots.len() + at.len() == m.names.len() {
            ProgressModel::Built {
                program: ProgramModel {
                    handle: m.program,
                    names: m.names,
                    slots: m.slots + as_slots(at),
                    live: true,
                },
                calls: Seq::empty(),
            }
        } else {
            ProgressModel::Pending {
                build: BuildModel { slots: m.slots + as_slots(at), ..m },
                calls: seq![
                    GpuCall::QueryAttributeLocation {
                        program: m.program,
                        index: (m.slots.len() + at.len()) as usize,
                    },
                ],
            }
        },
    decreases at.len(),
{
    let before = at.drop_last();
    let last = at.last();
    assert(locations(at).drop_last() =~= locations(before));
    assert(locations(at).last() == ReplyModel::Location(last));
    if before.len() == 0 {
        assert(session(m, locations(before)) == (ProgressModel::Pending {
            build: m,
            calls: Seq::empty(),
        }));
        assert(m.slots.push(last as u32) =~= m.slots + as_slots(at));
        assert(session(m, locations(at)) == model_step(m, ReplyModel::Location(last)));
    } else {
        assert forall|i: int| 0 <= i < before.len() implies before[i] >= 0 by {
            assert(before[i] == at[i]);
        }
        found_names_get_their_slots(m, before);
        let so_far = BuildModel { slots: m.slots + as_slots(before), ..m };
        assert(so_far.slots.push(last as u32) =~= m.slots + as_slots(at));
        assert(session(m, locations(at)) == model_step(so_far, ReplyModel::Location(last)));
    }
}

} // verus!
