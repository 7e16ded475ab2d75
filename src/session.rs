use vstd::prelude::*;
use crate::failure::{Failure, EXIT_FAILURE, EXIT_SUCCESS};

verus! {

/// One piece of work that the driver performs on the controller's behalf.
#[derive(Clone, Copy, Debug, PartialEq, Eq, Structural)]
pub enum Stage {
    /// Decode the image file into RGBA pixels.
    LoadImage,
    /// Create the file-change watcher.
    InitWatcher,
    /// Watch the image file for content changes.
    WatchImage,
    /// Watch the shader file for content changes.
    WatchShader,
    /// Open the window and its GL context.
    OpenDisplay,
    /// Upload the decoded pixels as a 2D texture.
    CreateTexture,
    /// Read the fragment shader's source text.
    ReadShader,
    /// Compile the fixed vertex shader with the fragment shader.
    CompileProgram,
    /// Upload the fullscreen quad.
    UploadGeometry,
}

/// Which sequence of stages a build follows.
#[derive(Clone, Copy, Debug, PartialEq, Eq, Structural)]
pub enum Plan {
    /// The first build: the image is decoded before any window exists, and the
    /// watcher and the display are set up once, for the process's lifetime.
    Startup,
    /// A build after a file changed: only the resource set is made anew,
    /// against the display and watcher that already exist.
    Rebuild,
}

/// The stages of a plan, in the order in which they run.
pub open spec fn plan_stages(plan: Plan) -> Seq<Stage> {
    match plan {
        Plan::Startup => seq![
            Stage::LoadImage,
            Stage::InitWatcher,
            Stage::WatchImage,
            Stage::WatchShader,
            Stage::OpenDisplay,
            Stage::CreateTexture,
            Stage::ReadShader,
            Stage::CompileProgram,
            Stage::UploadGeometry,
        ],
        Plan::Rebuild => seq![
            Stage::LoadImage,
            Stage::CreateTexture,
            Stage::ReadShader,
            Stage::CompileProgram,
            Stage::UploadGeometry,
        ],
    }
}

/// Number of stages of a plan.
fn plan_len(plan: Plan) -> (n: usize)
    ensures
        n == plan_stages(plan).len(),
{
    match plan {
        Plan::Startup => 9,
        Plan::Rebuild => 5,
    }
}

/// The stage at a position of a plan.
fn stage_at(plan: Plan, i: usize) -> (s: Stage)
    requires
        i < plan_stages(plan).len(),
    ensures
        s == plan_stages(plan)[i as int],
{
    match plan {
        Plan::Startup => {
            if i == 0 {
                Stage::LoadImage
            } else if i == 1 {
                Stage::InitWatcher
            } else if i == 2 {
                Stage::WatchImage
            } else if i == 3 {
                Stage::WatchShader
            } else if i == 4 {
                Stage::OpenDisplay
            } else if i == 5 {
                Stage::CreateTexture
            } else if i == 6 {
                Stage::ReadShader
            } else if i == 7 {
                Stage::CompileProgram
            } else {
                Stage::UploadGeometry
            }
        },
        Plan::Rebuild => {
            if i == 0 {
                Stage::LoadImage
            } else if i == 1 {
                Stage::CreateTexture
            } else if i == 2 {
                Stage::ReadShader
            } else if i == 3 {
                Stage::CompileProgram
            } else {
                Stage::UploadGeometry
            }
        },
    }
}

/// Where the controller stands.
#[derive(Clone, Copy, Debug, PartialEq, Eq, Structural)]
pub enum Phase {
    /// A build is under way; `next` is the position of the stage in progress.
    Building { plan: Plan, next: usize },
    /// A session is rendering frames with a complete resource set.
    Running,
    /// The process is exiting with the given status.
    Stopped { code: i32 },
}

/// What the driver reports back after carrying out an action.
pub enum Event {
    /// The stage that was asked for succeeded.
    StageDone,
    /// The action that was asked for failed (a stage, a draw, or reading the
    /// watcher's events).
    Failed(Failure),
    /// A frame was drawn and presented; then the window's events were drained
    /// (`closed`: a close was among them) and the watcher was polled
    /// (`changed`: a watched file's content changed).
    FrameShown { closed: bool, changed: bool },
}

/// What the controller asks the driver to do next.
pub enum Action {
    /// Carry out one stage of a build.
    Perform(Stage),
    /// Draw one frame with the current resource set, present it, then poll.
    Draw,
    /// End the process with this status, reporting the failure if there is one.
    Exit { code: i32, failure: Option<Failure> },
}

/// The action that a phase waits on.
pub open spec fn pending_action(p: Phase) -> Action {
    match p {
        Phase::Building { plan, next } => Action::Perform(plan_stages(plan)[next as int]),
        Phase::Running => Action::Draw,
        Phase::Stopped { code } => Action::Exit { code, failure: None },
    }
}

/// A phase that the controller can be in: a build's position lies inside its plan.
pub open spec fn phase_wf(p: Phase) -> bool {
    match p {
        Phase::Building { plan, next } => next < plan_stages(plan).len(),
        _ => true,
    }
}

/// The phase that follows a finished frame: close wins over a file change,
/// and a file change starts a rebuild.
pub open spec fn after_frame(closed: bool, changed: bool) -> Phase {
    if closed {
        Phase::Stopped { code: EXIT_SUCCESS }
    } else if changed {
        Phase::Building { plan: Plan::Rebuild, next: 0 }
    } else {
        Phase::Running
    }
}

/// The next phase, and the action to perform there, after an event.
/// An event that does not answer the action of the phase (a frame report
/// during a build, a finished stage while rendering) changes nothing and the
/// pending action is asked for again; once stopped, nothing changes.
pub open spec fn transition(p: Phase, e: Event) -> (Phase, Action) {
    match p {
        Phase::Stopped { code } => (p, Action::Exit { code, failure: None }),
        _ => match e {
            Event::Failed(f) => (
                Phase::Stopped { code: EXIT_FAILURE },
                Action::Exit { code: EXIT_FAILURE, failure: Some(f) },
            ),
            Event::StageDone => match p {
                Phase::Building { plan, next } => {
                    if next + 1 < plan_stages(plan).len() {
                        let q = Phase::Building { plan, next: (next + 1) as usize };
                        (q, pending_action(q))
                    } else {
                        (Phase::Running, Action::Draw)
                    }
                },
                _ => (p, pending_action(p)),
            },
            Event::FrameShown { closed, changed } => match p {
                Phase::Running => {
                    let q = after_frame(closed, changed);
                    match q {
                        Phase::Stopped { code } => (q, Action::Exit { code, failure: None }),
                        _ => (q, pending_action(q)),
                    }
                },
                _ => (p, pending_action(p)),
            },
        },
    }
}

/// The session controller: runs builds stage by stage, renders while a
/// session lasts, and decides between ending the process and rebuilding.
pub struct Controller {
    pub phase: Phase,
}

impl Controller {
    /// Well-formedness: the phase is one the controller can be in.
    pub open spec fn wf(&self) -> bool {
        phase_wf(self.phase)
    }

    /// The action that the current phase waits on.
    fn current_action(&self) -> (a: Action)
        requires
            self.wf(),
        ensures
            a == pending_action(self.phase),
    {
        match self.phase {
            Phase::Building { plan, next } => Action::Perform(stage_at(plan, next)),
            Phase::Running => Action::Draw,
            Phase::Stopped { code } => Action::Exit { code, failure: None },
        }
    }

    /// A controller at the start of the process, with the first action: the
    /// first stage of the startup build.
    pub fn start() -> (r: (Controller, Action))
        ensures
            r.0.wf(),
            r.0.phase == (Phase::Building { plan: Plan::Startup, next: 0 }),
            r.1 == Action::Perform(Stage::LoadImage),
    {
        let c = Controller { phase: Phase::Building { plan: Plan::Startup, next: 0 } };
        (c, Action::Perform(Stage::LoadImage))
    }

    /// Takes in the result of the last action and returns the next one.
    pub fn step(&mut self, e: Event) -> (a: Action)
        requires
            old(self).wf(),
        ensures
            final(self).wf(),
            (final(self).phase, a) == transition(old(self).phase, e),
    {
        match self.phase {
            Phase::Stopped { code } => {
                return Action::Exit { code, failure: None };
            },
            _ => {},
        }
        match e {
            Event::Failed(f) => {
                self.phase = Phase::Stopped { code: EXIT_FAILURE };
                Action::Exit { code: EXIT_FAILURE, failure: Some(f) }
            },
            Event::StageDone => {
                match self.phase {
                    Phase::Building { plan, next } => {
                        if next + 1 < plan_len(plan) {
                            self.phase = Phase::Building { plan, next: next + 1 };
                        } else {
                            self.phase = Phase::Running;
                        }
                    },
                    _ => {},
                }
                self.current_action()
            },
            Event::FrameShown { closed, changed } => {
                match self.phase {
                    Phase::Running => {
                        if closed {
                            self.phase = Phase::Stopped { code: EXIT_SUCCESS };
                        } else if changed {
                            self.phase = Phase::Building { plan: Plan::Rebuild, next: 0 };
                        }
                    },
                    _ => {},
                }
                self.current_action()
            },
        }
    }

    /// Whether the process has reached its end.
    pub fn is_stopped(&self) -> (r: bool)
        ensures
            r == self.phase is Stopped,
    {
        match self.phase {
            Phase::Stopped { .. } => true,
            _ => false,
        }
    }
}

} // verus!
