use vstd::prelude::*;
use vstd::utf8::{decode_utf8, valid_utf8};
use crate::app::{
    next, run_actions, run_from, start_spec, ActionView, App, BuildStatusView, EventView, Fatal,
    StageView,
};
use crate::software::SoftwareProjectBuilder;

verus! {

/// The stages that belong to setting up the software subdirectory.
pub open spec fn software_stage(s: StageView) -> bool {
    match s {
        StageView::MakeSoftwareDir | StageView::EnterSoftwareDir | StageView::CreateSoftware
        | StageView::LeaveSoftwareDir(_) | StageView::ReportBuild => true,
        _ => false,
    }
}

/// An action that a run without a builder may issue: it creates no directory
/// but the project's own and `docs`, enters none but the project's, never
/// ascends, writes no file, and runs only the version-control and hosting tools.
pub open spec fn plain_action(app: &App, a: ActionView) -> bool {
    match a {
        ActionView::CreateDir(p) => p == app.name@ || p == "docs"@,
        ActionView::EnterDir(p) => p == app.name@,
        ActionView::LeaveDir => false,
        ActionView::WriteFile(_, _) => false,
        ActionView::Run(p, _) => p == "git"@ || p == "gh"@,
        _ => true,
    }
}

proof fn lemma_plain_run(app: &App, s: StageView, events: Seq<EventView>)
    requires
        app.software_builder is None,
        !software_stage(s),
    ensures
        forall|i: int| 0 <= i < run_from(app, s, events).1.len()
            ==> plain_action(app, #[trigger] run_from(app, s, events).1[i]),
    decreases events.len(),
{
    if events.len() > 0 {
        let (s1, a) = next(app, s, events[0]);
        lemma_plain_run(app, s1, events.drop_first());
        let acts = run_from(app, s1, events.drop_first()).1;
        assert forall|i: int| 0 <= i < run_from(app, s, events).1.len()
            implies plain_action(app, #[trigger] run_from(app, s, events).1[i]) by {
            if i > 0 {
                assert(run_from(app, s, events).1[i] == acts[i - 1]);
            }
        }
    }
}

/// Without a builder, no run creates or enters the software subdirectory,
/// writes an ignore file, or runs a toolchain, whatever the outcomes of its
/// steps.
pub proof fn lemma_no_software_without_builder(app: &App, events: Seq<EventView>)
    requires
        app.software_builder is None,
    ensures
        forall|i: int| 0 <= i < run_actions(app, events).len()
            ==> plain_action(app, #[trigger] run_actions(app, events)[i]),
{
    lemma_plain_run(app, start_spec(app).0, events);
    let acts = run_from(app, start_spec(app).0, events).1;
    assert forall|i: int| 0 <= i < run_actions(app, events).len()
        implies plain_action(app, #[trigger] run_actions(app, events)[i]) by {
        if i > 0 {
            assert(run_actions(app, events)[i] == acts[i - 1]);
        }
    }
}

/// An ignore file written by a run with builder `b` holds exactly `b`'s
/// pattern, which is one of the two fixed texts.
pub open spec fn ignore_write_ok(b_ignore: Seq<char>, a: ActionView) -> bool {
    match a {
        ActionView::WriteFile(p, c) => p == ".gitignore"@ && c == b_ignore
            && (c == "target"@ || c == "bin\nobj"@),
        _ => true,
    }
}

proof fn lemma_ignore_run(app: &App, s: StageView, events: Seq<EventView>)
    requires
        app.software_builder is Some,
    ensures
        forall|i: int| 0 <= i < run_from(app, s, events).1.len()
            ==> ignore_write_ok(app.software_builder->Some_0.spec_ignore(),
                #[trigger] run_from(app, s, events).1[i]),
    decreases events.len(),
{
    let b = app.software_builder->Some_0;
    if events.len() > 0 {
        let (s1, a) = next(app, s, events[0]);
        lemma_ignore_run(app, s1, events.drop_first());
        let acts = run_from(app, s1, events.drop_first()).1;
        assert forall|i: int| 0 <= i < run_from(app, s, events).1.len()
            implies ignore_write_ok(b.spec_ignore(), #[trigger] run_from(app, s, events).1[i]) by {
            if i > 0 {
                assert(run_from(app, s, events).1[i] == acts[i - 1]);
            }
        }
    }
}

/// With a builder, every write of the ignore file in a run carries exactly
/// the builder's pattern: `target`, or `bin` and `obj` on two lines.
pub proof fn lemma_ignore_matches_builder(app: &App, events: Seq<EventView>)
    requires
        app.software_builder is Some,
    ensures
        forall|i: int| 0 <= i < run_actions(app, events).len()
            ==> ignore_write_ok(app.software_builder->Some_0.spec_ignore(),
                #[trigger] run_actions(app, events)[i]),
{
    lemma_ignore_run(app, start_spec(app).0, events);
    let acts = run_from(app, start_spec(app).0, events).1;
    assert forall|i: int| 0 <= i < run_actions(app, events).len()
        implies ignore_write_ok(app.software_builder->Some_0.spec_ignore(),
            #[trigger] run_actions(app, events)[i]) by {
        if i > 0 {
            assert(run_actions(app, events)[i] == acts[i - 1]);
        }
    }
}

/// How an event moves the working directory into (`1`) or out of (`-1`) the
/// software subdirectory: only a descent or an ascent that succeeded counts.
pub open spec fn software_move(s: StageView, e: EventView) -> int {
    match s {
        StageView::EnterSoftwareDir => if e is Failed { 0 } else { 1 },
        StageView::LeaveSoftwareDir(_) => if e is Failed { 0 } else { -1 },
        _ => 0,
    }
}

/// The net number of descents into the software subdirectory while `events`
/// answer a run that waits in stage `s`.
pub open spec fn software_depth(app: &App, s: StageView, events: Seq<EventView>) -> int
    decreases events.len(),
{
    if events.len() == 0 {
        0
    } else {
        software_move(s, events[0]) + software_depth(app, next(app, s, events[0]).0, events.drop_first())
    }
}

/// The stages in which the process stands in the software subdirectory:
/// while the builder runs, while the ascent is pending, and after the ascent
/// itself failed.
pub open spec fn inside_software(s: StageView) -> bool {
    match s {
        StageView::CreateSoftware | StageView::LeaveSoftwareDir(_) => true,
        StageView::Aborted(f) => f == Fatal::LeaveSoftware,
        _ => false,
    }
}

pub open spec fn depth_of(s: StageView) -> int {
    if inside_software(s) { 1 } else { 0 }
}

pub open spec fn coherent(app: &App, s: StageView) -> bool {
    app.software_builder is None ==> !software_stage(s)
}

proof fn lemma_depth_run(app: &App, s: StageView, events: Seq<EventView>)
    requires
        coherent(app, s),
    ensures
        depth_of(s) + software_depth(app, s, events) == depth_of(run_from(app, s, events).0),
    decreases events.len(),
{
    if events.len() > 0 {
        lemma_depth_run(app, next(app, s, events[0]).0, events.drop_first());
    }
}

/// Every descent into the software subdirectory is matched by an ascent: at
/// any point of a run, whatever its events (a failed creation command
/// included), the net number of descents is one while the builder runs or its
/// ascent is pending, and zero otherwise, unless the ascent itself failed.
pub proof fn lemma_software_dir_balanced(app: &App, events: Seq<EventView>)
    ensures
        software_depth(app, start_spec(app).0, events) == (if inside_software(
            run_from(app, start_spec(app).0, events).0,
        ) {
            1int
        } else {
            0int
        }),
{
    lemma_depth_run(app, start_spec(app).0, events);
}

/// A creation command that exits non-zero does not end the run: once the
/// process has ascended from the software subdirectory, its diagnostic is
/// reported and the hosted repository is created next.
pub proof fn lemma_build_failure_continues(
    app: &App,
    stdout: Seq<u8>,
    stderr: Seq<u8>,
    ascended: EventView,
    reported: EventView,
)
    requires
        valid_utf8(stderr),
        !(ascended is Failed),
    ensures
        run_from(
            app,
            StageView::CreateSoftware,
            seq![EventView::Ran(false, stdout, stderr), ascended, reported],
        ) == (StageView::CreateRemote, seq![
            ActionView::LeaveDir,
            ActionView::Report(decode_utf8(stderr)),
            app.remote_action(),
        ]),
{
    let events = seq![EventView::Ran(false, stdout, stderr), ascended, reported];
    let s1 = StageView::LeaveSoftwareDir(BuildStatusView::Failed(decode_utf8(stderr)));
    assert(next(app, StageView::CreateSoftware, events[0]) == (s1, ActionView::LeaveDir));
    assert(events.drop_first() =~= seq![ascended, reported]);
    assert(events.drop_first().drop_first() =~= seq![reported]);
    assert(seq![reported].drop_first() =~= Seq::<EventView>::empty());
    reveal_with_fuel(run_from, 4);
    assert(run_from(app, StageView::CreateSoftware, events).1 =~= seq![
        ActionView::LeaveDir,
        ActionView::Report(decode_utf8(stderr)),
        app.remote_action(),
    ]);
}

} // verus!
