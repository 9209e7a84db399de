use vstd::prelude::*;

use crate::commands::{Command, CommandModel};
use crate::session::SessionPlan;

verus! {

/// Where a build stands: at a step of the setup, of a window or of the
/// finish, or over.
#[derive(Debug, Clone, Copy, PartialEq, Eq, Structural)]
pub enum Stage {
    Setup { step: usize },
    Window { index: usize, step: usize },
    Finish { step: usize },
    Done,
    Failed,
}

/// What a recorded outcome meant for the build.
#[derive(Debug, Clone, Copy, PartialEq, Eq, Structural)]
pub enum Progress {
    /// The build goes on with the next command.
    Continue,
    /// A command of this window failed: the rest of the window is skipped and
    /// the build goes on with the next window.
    WindowAbandoned { index: usize },
    /// A setup or finish command failed: the build stops.
    Aborted,
    /// The last command has run.
    Complete,
}

/// A build in progress: the plan, and the stage that the next outcome is for.
/// Failures in the setup or the finish end the build; a failure inside a
/// window abandons that window only.
#[derive(Debug, Clone)]
pub struct SessionBuild {
    pub plan: SessionPlan,
    pub stage: Stage,
}

impl SessionBuild {
    /// The stage at the finish step `k`, or the end.
    pub open spec fn enter_finish(&self, k: int) -> Stage {
        if k < self.plan.finish@.len() {
            Stage::Finish { step: k as usize }
        } else {
            Stage::Done
        }
    }

    /// The stage at the first step of window `i`, or the finish.
    pub open spec fn enter_window(&self, i: int) -> Stage {
        if i < self.plan.windows@.len() {
            Stage::Window { index: i as usize, step: 0 }
        } else {
            self.enter_finish(0)
        }
    }

    /// The stage at the setup step `k`, or the first window.
    pub open spec fn enter_setup(&self, k: int) -> Stage {
        if k < self.plan.setup@.len() {
            Stage::Setup { step: k as usize }
        } else {
            self.enter_window(0)
        }
    }

    /// The plan is well formed and the stage points at one of its commands.
    pub open spec fn wf(&self) -> bool {
        &&& self.plan.wf()
        &&& match self.stage {
            Stage::Setup { step } => step < self.plan.setup@.len(),
            Stage::Window { index, step } => index < self.plan.windows@.len() && step
                < self.plan.windows@[index as int]@.len(),
            Stage::Finish { step } => step < self.plan.finish@.len(),
            _ => true,
        }
    }

    /// The command that runs at the current stage.
    pub open spec fn command_at(&self) -> Option<CommandModel> {
        match self.stage {
            Stage::Setup { step } => Some(self.plan.setup@[step as int]@),
            Stage::Window { index, step } => Some(
                self.plan.windows@[index as int]@[step as int]@,
            ),
            Stage::Finish { step } => Some(self.plan.finish@[step as int]@),
            _ => None,
        }
    }

    /// The stage after the current command succeeded (`ok`) or failed.
    pub open spec fn stage_after(&self, ok: bool) -> Stage {
        match self.stage {
            Stage::Setup { step } => if ok {
                self.enter_setup(step + 1)
            } else {
                Stage::Failed
            },
            Stage::Window { index, step } => if ok && step + 1
                < self.plan.windows@[index as int]@.len() {
                Stage::Window { index, step: (step + 1) as usize }
            } else {
                self.enter_window(index + 1)
            },
            Stage::Finish { step } => if ok {
                self.enter_finish(step + 1)
            } else {
                Stage::Failed
            },
            Stage::Done => Stage::Done,
            Stage::Failed => Stage::Failed,
        }
    }

    /// What the outcome of the current command means for the build.
    pub open spec fn progress_after(&self, ok: bool) -> Progress {
        match self.stage {
            Stage::Window { index, step } => if ok {
                if self.stage_after(ok) == Stage::Done {
                    Progress::Complete
                } else {
                    Progress::Continue
                }
            } else {
                Progress::WindowAbandoned { index }
            },
            Stage::Done => Progress::Complete,
            Stage::Failed => Progress::Aborted,
            _ => if !ok {
                Progress::Aborted
            } else if self.stage_after(ok) == Stage::Done {
                Progress::Complete
            } else {
                Progress::Continue
            },
        }
    }

    fn finish_from(plan: &SessionPlan, k: usize) -> (r: Stage)
        ensures
            r == (SessionBuild { plan: *plan, stage: Stage::Done }).enter_finish(k as int),
    {
        if k < plan.finish.len() {
            Stage::Finish { step: k }
        } else {
            Stage::Done
        }
    }

    fn window_from(plan: &SessionPlan, i: usize) -> (r: Stage)
        ensures
            r == (SessionBuild { plan: *plan, stage: Stage::Done }).enter_window(i as int),
    {
        if i < plan.windows.len() {
            Stage::Window { index: i, step: 0 }
        } else {
            Self::finish_from(plan, 0)
        }
    }

    fn setup_from(plan: &SessionPlan, k: usize) -> (r: Stage)
        ensures
            r == (SessionBuild { plan: *plan, stage: Stage::Done }).enter_setup(k as int),
    {
        if k < plan.setup.len() {
            Stage::Setup { step: k }
        } else {
            Self::window_from(plan, 0)
        }
    }

    /// A build of `plan` that has run nothing yet.
    pub fn start(plan: SessionPlan) -> (r: SessionBuild)
        requires
            plan.wf(),
        ensures
            r.plan == plan,
            r.stage == r.enter_setup(0),
            r.wf(),
    {
        let stage = Self::setup_from(&plan, 0);
        SessionBuild { plan, stage }
    }

    /// The command to run now; none once the build is over.
    pub fn current(&self) -> (r: Option<&Command>)
        requires
            self.wf(),
        ensures
            r is None <==> self.command_at() is None,
            r matches Some(c) ==> Some(c@) == self.command_at(),
    {
        match self.stage {
            Stage::Setup { step } => Some(&self.plan.setup[step]),
            Stage::Window { index, step } => Some(&self.plan.windows[index][step]),
            Stage::Finish { step } => Some(&self.plan.finish[step]),
            _ => None,
        }
    }

    /// Whether the build is over, completed or aborted.
    pub fn is_over(&self) -> (r: bool)
        ensures
            r == (self.stage is Done || self.stage is Failed),
    {
        match self.stage {
            Stage::Done | Stage::Failed => true,
            _ => false,
        }
    }

    /// Records whether the current command succeeded and moves to the next stage.
    pub fn record(&mut self, succeeded: bool) -> (r: Progress)
        requires
            old(self).wf(),
        ensures
            final(self).plan == old(self).plan,
            final(self).stage == old(self).stage_after(succeeded),
            final(self).wf(),
            r == old(self).progress_after(succeeded),
    {
        // Reading the lengths bounds every step and index below them.
        let _setup_len = self.plan.setup.len();
        let _windows_len = self.plan.windows.len();
        let _finish_len = self.plan.finish.len();
        let next = match self.stage {
            Stage::Setup { step } => if succeeded {
                Self::setup_from(&self.plan, step + 1)
            } else {
                Stage::Failed
            },
            Stage::Window { index, step } => {
                let window_len = self.plan.windows[index].len();
                if succeeded && step + 1 < window_len {
                    Stage::Window { index, step: step + 1 }
                } else {
                    Self::window_from(&self.plan, index + 1)
                }
            },
            Stage::Finish { step } => if succeeded {
                Self::finish_from(&self.plan, step + 1)
            } else {
                Stage::Failed
            },
            Stage::Done => Stage::Done,
            Stage::Failed => Stage::Failed,
        };
        let progress = match self.stage {
            Stage::Window { index, step } => if !succeeded {
                Progress::WindowAbandoned { index }
            } else if next == Stage::Done {
                Progress::Complete
            } else {
                Progress::Continue
            },
            Stage::Done => Progress::Complete,
            Stage::Failed => Progress::Aborted,
            _ => if !succeeded {
                Progress::Aborted
            } else if next == Stage::Done {
                Progress::Complete
            } else {
                Progress::Continue
            },
        };
        self.stage = next;
        progress
    }
}

/// A failed command inside a window abandons that window alone: the build is
/// not aborted, and the next window, if there is one, starts at its first command.
pub proof fn lemma_window_failure_isolated(b: SessionBuild, index: usize, step: usize)
    requires
        b.wf(),
        b.stage == (Stage::Window { index, step }),
    ensures
        b.stage_after(false) != Stage::Failed,
        index + 1 < b.plan.windows@.len() ==> b.stage_after(false) == (Stage::Window {
            index: (index + 1) as usize,
            step: 0,
        }),
        b.progress_after(false) == (Progress::WindowAbandoned { index }),
{
}

/// While a window's commands succeed, they run one after another to its last.
pub proof fn lemma_window_runs_in_order(b: SessionBuild, index: usize, step: usize)
    requires
        b.wf(),
        b.stage == (Stage::Window { index, step }),
    ensures
        step + 1 < b.plan.windows@[index as int]@.len() ==> b.stage_after(true) == (Stage::Window {
            index,
            step: (step + 1) as usize,
        }),
        step + 1 == b.plan.windows@[index as int]@.len() ==> b.stage_after(true) == b.enter_window(
            index + 1,
        ),
{
}

/// The stage reached from `b` after `k` commands in a row succeeded.
pub open spec fn after_successes(b: SessionBuild, k: nat) -> Stage
    decreases k,
{
    if k == 0 {
        b.stage
    } else {
        (SessionBuild { plan: b.plan, stage: after_successes(b, (k - 1) as nat) }).stage_after(true)
    }
}

/// From the first command of window `index`, while its commands succeed, the
/// build runs each of them in order and then moves on past the window.
pub proof fn lemma_window_runs_whole(b: SessionBuild, index: usize, k: nat)
    requires
        b.wf(),
        b.stage == (Stage::Window { index, step: 0 }),
        k <= b.plan.windows@[index as int]@.len(),
    ensures
        k < b.plan.windows@[index as int]@.len() ==> after_successes(b, k) == (Stage::Window {
            index,
            step: k as usize,
        }),
        k == b.plan.windows@[index as int]@.len() ==> after_successes(b, k) == b.enter_window(
            index + 1,
        ),
    decreases k,
{
    let w = b.plan.windows@[index as int];
    assert(w.len() as int == w@.len());
    if k > 0 {
        lemma_window_runs_whole(b, index, (k - 1) as nat);
        let prev = SessionBuild { plan: b.plan, stage: after_successes(b, (k - 1) as nat) };
        assert(after_successes(b, k) == prev.stage_after(true));
    }
}

/// When any command of a window fails (its post-hook included), the next
/// window is still attempted from its first command and, while its own
/// commands succeed, runs each of them in order.
pub proof fn lemma_next_window_runs_after_failure(b: SessionBuild, index: usize, step: usize, k: nat)
    requires
        b.wf(),
        b.stage == (Stage::Window { index, step }),
        index + 1 < b.plan.windows@.len(),
        k < b.plan.windows@[index + 1]@.len(),
    ensures
        after_successes(SessionBuild { plan: b.plan, stage: b.stage_after(false) }, k) == (
        Stage::Window { index: (index + 1) as usize, step: k as usize }),
{
    assert(b.plan.windows.len() as int == b.plan.windows@.len());
    let next = SessionBuild { plan: b.plan, stage: b.stage_after(false) };
    assert(next.wf());
    lemma_window_runs_whole(next, (index + 1) as usize, k);
}

} // verus!
