use vstd::prelude::*;
use crate::error::ErrorKind;
use crate::outcome::{ascii_bytes, classify_step, lossy_of, spells, stdout_bytes, step_outcome, ExecutionOutcome, OutcomeModel, StepResult};
use crate::profile::{command_line, resolve_command, CommandSpec, LanguageProfile, PartModel};
use crate::workspace::Workspace;

verus! {

/// The mathematical state of a dispatch: the resolved command lines (build
/// steps, then the run step), how many of them are build steps, the index of
/// the next step and, once settled, the outcome.
pub ghost struct DispatchModel {
    pub commands: Seq<Seq<Seq<char>>>,
    pub n_build: nat,
    pub next: nat,
    pub outcome: Option<OutcomeModel>,
}

impl DispatchModel {
    pub open spec fn wf(self) -> bool {
        &&& self.commands.len() == self.n_build + 1
        &&& self.next <= self.n_build
    }

    /// The index of the step to run now, or `None` once the outcome is settled.
    pub open spec fn pending(self) -> Option<nat> {
        if self.outcome is None { Some(self.next) } else { None }
    }

    /// The state after the pending step reported `r`.
    pub open spec fn after(self, r: StepResult) -> DispatchModel {
        match step_outcome(r, self.next < self.n_build) {
            None => DispatchModel { next: self.next + 1, ..self },
            Some(o) => DispatchModel { outcome: Some(o), ..self },
        }
    }

    /// The state after the pending steps reported `rs`, one by one; results
    /// that arrive after the outcome is settled are ignored.
    pub open spec fn replay(self, rs: Seq<StepResult>) -> DispatchModel
        decreases rs.len(),
    {
        if rs.len() == 0 || self.outcome is Some {
            self
        } else {
            self.after(rs[0]).replay(rs.drop_first())
        }
    }
}

pub open spec fn lines_of(v: Seq<Vec<String>>) -> Seq<Seq<Seq<char>>> {
    v.map_values(|c: Vec<String>| c@.map_values(|s: String| s@))
}

/// Drives one profile through its steps: each build step in order, stopping
/// at the first that fails, then the run step.
pub struct Dispatcher {
    commands: Vec<Vec<String>>,
    n_build: usize,
    next: usize,
    outcome: Option<ExecutionOutcome>,
}

impl View for Dispatcher {
    type V = DispatchModel;

    closed spec fn view(&self) -> DispatchModel {
        DispatchModel {
            commands: lines_of(self.commands@),
            n_build: self.n_build as nat,
            next: self.next as nat,
            outcome: match self.outcome {
                Some(o) => Some(o@),
                None => None,
            },
        }
    }
}

impl Dispatcher {
    pub closed spec fn wf(&self) -> bool {
        &&& self@.wf()
        &&& self.commands@.len() == self.n_build + 1
    }

    /// The dispatch of `profile` in `ws`: every command template resolved
    /// against the workspace, nothing run yet.
    pub fn new(profile: &LanguageProfile, ws: &Workspace) -> (r: Dispatcher)
        requires
            profile.build_steps@.len() < usize::MAX,
        ensures
            r.wf(),
            r@.commands == profile.build_view().map_values(|c: Seq<PartModel>| command_line(c, *ws)).push(
                command_line(profile.run_step@, *ws),
            ),
            r@.n_build == profile.build_steps@.len(),
            r@.next == 0,
            r@.outcome is None,
    {
        let mut commands: Vec<Vec<String>> = Vec::new();
        let mut i: usize = 0;
        while i < profile.build_steps.len()
            invariant
                i <= profile.build_steps@.len(),
                commands@.len() == i,
                forall|k: int| 0 <= k < i ==> (#[trigger] commands@[k])@.map_values(|s: String| s@)
                    == command_line(profile.build_steps@[k]@, *ws),
            decreases profile.build_steps@.len() - i,
        {
            let c = resolve_command(&profile.build_steps[i], ws);
            commands.push(c);
            i = i + 1;
        }
        let run = resolve_command(&profile.run_step, ws);
        commands.push(run);
        let r = Dispatcher { commands, n_build: i, next: 0, outcome: None };
        assert(r@.commands =~= profile.build_view().map_values(|c: Seq<PartModel>| command_line(c, *ws)).push(
            command_line(profile.run_step@, *ws),
        ));
        r
    }

    /// The command line of the pending step, or `None` once settled.
    pub fn current(&self) -> (r: Option<&Vec<String>>)
        requires
            self.wf(),
        ensures
            match r {
                Some(c) => self@.pending() == Some(self@.next) && c@.map_values(|s: String| s@)
                    == self@.commands[self@.next as int],
                None => self@.pending() is None,
            },
    {
        if self.outcome.is_none() {
            Some(&self.commands[self.next])
        } else {
            None
        }
    }

    /// Whether the pending step is a build step.
    pub fn is_build_step(&self) -> (r: bool)
        ensures
            r == (self@.next < self@.n_build),
    {
        self.next < self.n_build
    }

    /// Records what the pending step reported and moves on.
    pub fn finish_step(&mut self, r: StepResult)
        requires
            old(self).wf(),
            old(self)@.outcome is None,
        ensures
            final(self).wf(),
            final(self)@ == old(self)@.after(r),
            final(self)@.outcome matches Some(o) ==> (stdout_bytes(r) matches Some(b) ==> ascii_bytes(b)
                ==> spells(b, o.stdout)),
    {
        let is_build = self.next < self.n_build;
        let o = classify_step(&r, is_build);
        match o {
            None => {
                self.next = self.next + 1;
            },
            Some(x) => {
                self.outcome = Some(x);
            },
        }
    }

    /// The settled outcome, if any.
    pub fn outcome(&self) -> (r: Option<&ExecutionOutcome>)
        ensures
            match r {
                Some(o) => self@.outcome == Some(o@),
                None => self@.outcome is None,
            },
    {
        match &self.outcome {
            Some(o) => Some(o),
            None => None,
        }
    }

    /// Consumes the dispatch and hands out its settled outcome, if any.
    pub fn into_outcome(self) -> (r: Option<ExecutionOutcome>)
        ensures
            match r {
                Some(o) => self@.outcome == Some(o@),
                None => self@.outcome is None,
            },
    {
        self.outcome
    }
}

/// The step ran to completion with exit status 0.
pub open spec fn exited_ok(r: StepResult) -> bool {
    r matches StepResult::Exited { code, .. } && code == Some(0i32)
}

/// A build step that fails settles the dispatch as a compile error carrying
/// the step's diagnostics, and no later step, the run step included, is ever
/// issued.
pub proof fn lemma_compile_failure_skips_run(
    m: DispatchModel,
    stdout: Vec<u8>,
    stderr: Vec<u8>,
    code: Option<i32>,
    rest: Seq<StepResult>,
)
    requires
        m.wf(),
        m.outcome is None,
        m.next < m.n_build,
        code != Some(0i32),
    ensures
        ({
            let r = StepResult::Exited { stdout, stderr, code };
            let m2 = m.after(r);
            &&& m2.outcome == Some(OutcomeModel {
                stdout: lossy_of(stdout@),
                stderr: lossy_of(stderr@),
                exit_status: code,
                error_kind: Some(ErrorKind::CompileError),
            })
            &&& m2.pending() is None
            &&& m2.replay(rest) == m2
        }),
{
    let r = StepResult::Exited { stdout, stderr, code };
    let m2 = m.after(r);
    assert(m2.outcome is Some);
    if rest.len() > 0 {
        assert(m2.replay(rest) == m2);
    }
}

/// A step that times out, build or run, settles the dispatch as `TimedOut`
/// with the output captured so far, never as a program exit.
pub proof fn lemma_timeout_reported(m: DispatchModel, stdout: Vec<u8>, stderr: Vec<u8>)
    requires
        m.wf(),
        m.outcome is None,
    ensures
        m.after(StepResult::TimedOut { stdout, stderr }).outcome == Some(OutcomeModel {
            stdout: lossy_of(stdout@),
            stderr: lossy_of(stderr@),
            exit_status: None,
            error_kind: Some(ErrorKind::TimedOut),
        }),
        m.after(StepResult::TimedOut { stdout, stderr }).pending() is None,
{
}

/// Build steps that all succeed are followed by the run step, and a run step
/// that exits with status 0 settles a plain outcome: exit status 0, its own
/// output, no error kind.
pub proof fn lemma_successful_pipeline(m: DispatchModel, builds: Seq<StepResult>, run: StepResult)
    requires
        m.wf(),
        m.outcome is None,
        m.next == 0,
        builds.len() == m.n_build,
        forall|i: int| 0 <= i < builds.len() ==> exited_ok(#[trigger] builds[i]),
        exited_ok(run),
    ensures
        ({
            let end = m.replay(builds.push(run));
            &&& end.outcome matches Some(o) && o.exit_status == Some(0i32) && o.error_kind is None
                && o.stdout == lossy_of(run->Exited_stdout@)
            &&& end.pending() is None
        }),
{
    lemma_builds_pass(m, builds, run);
    let mid = DispatchModel { next: m.n_build, ..m };
    assert(mid.replay(seq![run]) == mid.after(run).replay(seq![run].drop_first()));
    assert(seq![run].drop_first() =~= Seq::<StepResult>::empty());
}

proof fn lemma_builds_pass(m: DispatchModel, builds: Seq<StepResult>, run: StepResult)
    requires
        m.wf(),
        m.outcome is None,
        m.next + builds.len() == m.n_build,
        forall|i: int| 0 <= i < builds.len() ==> exited_ok(#[trigger] builds[i]),
    ensures
        m.replay(builds.push(run)) == (DispatchModel { next: m.n_build, ..m }).replay(seq![run]),
    decreases builds.len(),
{
    if builds.len() == 0 {
        assert(builds.push(run) =~= seq![run]);
    } else {
        let m1 = m.after(builds[0]);
        assert(m1 == DispatchModel { next: m.next + 1, ..m });
        let tail = builds.drop_first();
        assert(builds.push(run).drop_first() =~= tail.push(run));
        assert forall|i: int| 0 <= i < tail.len() implies exited_ok(#[trigger] tail[i]) by {
            assert(tail[i] == builds[i + 1]);
        }
        lemma_builds_pass(m1, tail, run);
    }
}

} // verus!
