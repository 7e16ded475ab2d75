use vstd::prelude::*;
use crate::failure::{failure_line, ErrorKind, Failure, EXIT_FAILURE, EXIT_SUCCESS};
use crate::pixels::{is_texture_of, TexturePixels};
use crate::session::{phase_wf, plan_stages, transition, Action, Event, Phase, Plan, Stage};
use crate::watch::any_modify;

verus! {

/// A build reaches a running session only when the last stage of its plan
/// reports success; before that, a finished stage leads to the next stage and
/// any failure ends the process. No session runs on part of a resource set.
pub proof fn lemma_build_all_or_nothing(plan: Plan, next: usize, e: Event)
    requires
        next < plan_stages(plan).len(),
    ensures
        transition(Phase::Building { plan, next }, e).0 is Running <==> (e is StageDone && next
            + 1 == plan_stages(plan).len()),
        e is Failed ==> transition(Phase::Building { plan, next }, e).0 == (Phase::Stopped {
            code: EXIT_FAILURE,
        }),
        (e is StageDone && next + 1 < plan_stages(plan).len()) ==> transition(
            Phase::Building { plan, next },
            e,
        ).0 == (Phase::Building { plan, next: (next + 1) as usize }),
{
}

/// Rebuilding from unchanged files twice gives the same result: each rebuild
/// runs the same stages from the first, and the texture depends on the
/// decoded image alone.
pub proof fn lemma_rebuild_deterministic(
    width: u32,
    height: u32,
    px: Seq<u8>,
    t1: TexturePixels,
    t2: TexturePixels,
)
    requires
        is_texture_of(width, height, px, t1),
        is_texture_of(width, height, px, t2),
    ensures
        t1.width == t2.width,
        t1.height == t2.height,
        t1.rgba@ == t2.rgba@,
        transition(Phase::Running, Event::FrameShown { closed: false, changed: true }).0 == (
        Phase::Building { plan: Plan::Rebuild, next: 0 }),
        transition(Phase::Running, Event::FrameShown { closed: false, changed: true }).1 == Action::Perform(Stage::LoadImage),
{
}

/// A failing stage, a shader that does not compile among them, stops the
/// process with a non-zero status and hands the failure on to be reported,
/// whatever phase the controller was in short of stopped.
pub proof fn lemma_failure_stops(p: Phase, f: Failure)
    requires
        phase_wf(p),
        !(p is Stopped),
    ensures
        transition(p, Event::Failed(f)) == (Phase::Stopped { code: EXIT_FAILURE }, Action::Exit {
            code: EXIT_FAILURE,
            failure: Some(f),
        }),
        EXIT_FAILURE != 0,
{
}

/// The reported line of a failure ends with its diagnostic, so a compiler's
/// log reaches the user whole.
pub proof fn lemma_message_keeps_detail(kind: ErrorKind, detail: Seq<char>)
    ensures
        failure_line(kind, detail).len() >= detail.len(),
        failure_line(kind, detail).subrange(
            failure_line(kind, detail).len() - detail.len(),
            failure_line(kind, detail).len() as int,
        ) == detail,
{
    let line = failure_line(kind, detail);
    assert(line.subrange(line.len() - detail.len(), line.len() as int) =~= detail);
}

/// A content change seen while a session renders ends that session after the
/// frame in which it was seen and starts one rebuild, however many events the
/// watcher reported; frame reports that arrive during the rebuild change
/// nothing, so no second rebuild starts.
pub proof fn lemma_change_reloads_once(masks: Seq<u32>, plan: Plan, next: usize, e: Event)
    requires
        any_modify(masks),
        next < plan_stages(plan).len(),
        e is FrameShown,
    ensures
        transition(Phase::Running, Event::FrameShown { closed: false, changed: any_modify(masks) }).0
            == (Phase::Building { plan: Plan::Rebuild, next: 0 }),
        transition(Phase::Building { plan, next }, e).0 == (Phase::Building { plan, next }),
{
}

/// Closing the window ends the session with success, even when a file change
/// was seen in the same frame.
pub proof fn lemma_close_wins(changed: bool)
    ensures
        transition(Phase::Running, Event::FrameShown { closed: true, changed }) == (
        Phase::Stopped { code: EXIT_SUCCESS }, Action::Exit { code: EXIT_SUCCESS, failure: None }),
        EXIT_SUCCESS == 0,
{
}

} // verus!
