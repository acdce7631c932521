use vstd::prelude::*;
use crate::dispatch::Dispatcher;
use crate::error::ErrorKind;
use crate::language::{lower_of, resolve_spec, Language};
use crate::outcome::{failure, ExecutionOutcome, OutcomeModel, StepResult};
use crate::profile::{
    command_line, container_profile, container_run_spec, direct_build_spec, direct_profile,
    direct_run_spec, runner_profile, runner_run_spec, LanguageProfile, PartModel,
};
use crate::tracker::{accept, record_spec, InvocationCounters};
use crate::workspace::{is_id, Workspace, ID_LEN};

verus! {

/// How the host runs submitted code.
#[derive(Clone, Copy, Debug, PartialEq, Eq, Structural)]
pub enum Deployment {
    /// Per-language runner scripts under a restricted identity.
    Runner,
    /// Per-language container images with resource ceilings.
    Container,
    /// The host's own interpreters and compilers.
    Direct,
}

pub open spec fn build_spec(d: Deployment, l: Language) -> Seq<Seq<PartModel>> {
    match d {
        Deployment::Direct => direct_build_spec(l),
        _ => Seq::empty(),
    }
}

pub open spec fn run_spec(d: Deployment, l: Language) -> Seq<PartModel> {
    match d {
        Deployment::Runner => runner_run_spec(l),
        Deployment::Container => container_run_spec(l),
        Deployment::Direct => direct_run_spec(l),
    }
}

/// The profile of `l` under deployment `d`.
pub fn profile_for(d: Deployment, l: Language) -> (r: LanguageProfile)
    ensures
        r.language == l,
        r.build_view() == build_spec(d, l),
        r.run_step@ == run_spec(d, l),
{
    match d {
        Deployment::Runner => runner_profile(l),
        Deployment::Container => container_profile(l),
        Deployment::Direct => direct_profile(l),
    }
}

/// Where a request stands.
#[derive(Clone, Copy, Debug, PartialEq, Eq, Structural)]
pub enum Phase {
    /// Waiting for an admission slot.
    Admit,
    /// Holding a slot; the source is to be written to the workspace.
    Stage,
    /// Running build and run steps.
    Run,
    /// Settled; the workspace is to be removed.
    Dispose,
    /// Settled and cleaned up; the slot is to be given back.
    Release,
    /// Finished.
    Done,
}

/// What the environment reports back after performing the requested action.
pub enum Event {
    /// An admission slot was granted.
    Granted,
    /// The workspace directory and source file were written.
    Staged,
    /// Writing the workspace failed.
    StageFailed { message: String },
    /// The pending step finished.
    StepDone { result: StepResult },
    /// Removal of the workspace was attempted; its failure is not reported.
    Disposed,
    /// The admission slot was given back.
    Released,
}

/// One request from admission to release: which action comes next, and how
/// each reported event moves it on.
pub struct Session {
    language: Language,
    workspace: Workspace,
    phase: Phase,
    dispatch: Dispatcher,
    stage_failure: Option<ExecutionOutcome>,
    granted: bool,
    disposed: bool,
    released: bool,
}

impl Session {
    pub closed spec fn language_spec(&self) -> Language {
        self.language
    }

    pub closed spec fn workspace_spec(&self) -> Workspace {
        self.workspace
    }

    pub closed spec fn phase_spec(&self) -> Phase {
        self.phase
    }

    pub closed spec fn dispatch_spec(&self) -> Dispatcher {
        self.dispatch
    }

    /// Whether an admission slot was granted to this request.
    pub closed spec fn granted_spec(&self) -> bool {
        self.granted
    }

    /// Whether removal of the workspace was attempted.
    pub closed spec fn disposed_spec(&self) -> bool {
        self.disposed
    }

    /// Whether the admission slot was given back.
    pub closed spec fn released_spec(&self) -> bool {
        self.released
    }

    /// The settled outcome, if any.
    pub closed spec fn outcome_spec(&self) -> Option<OutcomeModel> {
        match self.stage_failure {
            Some(o) => Some(o@),
            None => self.dispatch@.outcome,
        }
    }

    pub closed spec fn wf(&self) -> bool {
        &&& self.dispatch.wf()
        &&& self.phase == Phase::Admit ==> !self.granted && !self.disposed && !self.released
            && self.outcome_spec() is None
        &&& self.phase == Phase::Stage ==> self.granted && !self.disposed && !self.released
            && self.outcome_spec() is None
        &&& self.phase == Phase::Run ==> self.granted && !self.disposed && !self.released
            && self.stage_failure is None && self.dispatch@.outcome is None
        &&& self.phase == Phase::Dispose ==> self.granted && !self.disposed && !self.released
            && self.outcome_spec() is Some
        &&& self.phase == Phase::Release ==> self.granted && self.disposed && !self.released
            && self.outcome_spec() is Some
        &&& self.phase == Phase::Done ==> self.granted && self.disposed && self.released
            && self.outcome_spec() is Some
        &&& self.stage_failure is Some ==> self.dispatch@.outcome is None
    }

    /// A request for `language`, staged in `ws` and run by `profile`,
    /// waiting for admission.
    pub fn new(profile: &LanguageProfile, ws: Workspace) -> (r: Session)
        requires
            profile.build_steps@.len() < usize::MAX,
        ensures
            r.wf(),
            r.language_spec() == profile.language,
            r.workspace_spec() == ws,
            r.phase_spec() == Phase::Admit,
            r.dispatch_spec()@.commands == profile.build_view().map_values(
                |c: Seq<PartModel>| command_line(c, ws),
            ).push(command_line(profile.run_step@, ws)),
            r.dispatch_spec()@.n_build == profile.build_steps@.len(),
            r.dispatch_spec()@.next == 0,
            r.outcome_spec() is None,
    {
        let dispatch = Dispatcher::new(profile, &ws);
        Session {
            language: profile.language,
            workspace: ws,
            phase: Phase::Admit,
            dispatch,
            stage_failure: None,
            granted: false,
            disposed: false,
            released: false,
        }
    }

    pub fn phase(&self) -> (r: Phase)
        ensures
            r == self.phase_spec(),
    {
        self.phase
    }

    pub fn language(&self) -> (r: Language)
        ensures
            r == self.language_spec(),
    {
        self.language
    }

    pub fn workspace(&self) -> (r: &Workspace)
        ensures
            *r == self.workspace_spec(),
    {
        &self.workspace
    }

    /// The command line to spawn now: present exactly while steps are running.
    pub fn command(&self) -> (r: Option<&Vec<String>>)
        requires
            self.wf(),
        ensures
            match r {
                Some(c) => self.phase_spec() == Phase::Run && c@.map_values(|s: String| s@)
                    == self.dispatch_spec()@.commands[self.dispatch_spec()@.next as int],
                None => self.phase_spec() != Phase::Run,
            },
    {
        if self.phase == Phase::Run {
            self.dispatch.current()
        } else {
            None
        }
    }

    /// Whether the step to spawn now is a build step.
    pub fn is_build_step(&self) -> (r: bool)
        ensures
            r == (self.dispatch_spec()@.next < self.dispatch_spec()@.n_build),
    {
        self.dispatch.is_build_step()
    }

    /// Moves the request on by what the environment reported. An event that
    /// does not answer the current phase's action leaves the request as it is.
    pub fn on_event(&mut self, e: Event)
        requires
            old(self).wf(),
        ensures
            final(self).wf(),
            final(self).language_spec() == old(self).language_spec(),
            final(self).workspace_spec() == old(self).workspace_spec(),
            final(self).phase_spec() == match (old(self).phase_spec(), e) {
                (Phase::Admit, Event::Granted) => Phase::Stage,
                (Phase::Stage, Event::Staged) => Phase::Run,
                (Phase::Stage, Event::StageFailed { .. }) => Phase::Dispose,
                (Phase::Run, Event::StepDone { .. }) => if final(self).outcome_spec() is Some {
                    Phase::Dispose
                } else {
                    Phase::Run
                },
                (Phase::Dispose, Event::Disposed) => Phase::Release,
                (Phase::Release, Event::Released) => Phase::Done,
                (p, _) => p,
            },
            final(self).dispatch_spec()@ == match (old(self).phase_spec(), e) {
                (Phase::Run, Event::StepDone { result }) => old(self).dispatch_spec()@.after(result),
                _ => old(self).dispatch_spec()@,
            },
            final(self).outcome_spec() == match (old(self).phase_spec(), e) {
                (Phase::Stage, Event::StageFailed { message }) => Some(OutcomeModel {
                    stdout: Seq::empty(),
                    stderr: message@,
                    exit_status: None,
                    error_kind: Some(ErrorKind::WorkspaceIo),
                }),
                (Phase::Run, Event::StepDone { result }) => old(self).dispatch_spec()@.after(result).outcome,
                _ => old(self).outcome_spec(),
            },
    {
        match e {
            Event::Granted => {
                if self.phase == Phase::Admit {
                    self.granted = true;
                    self.phase = Phase::Stage;
                }
            },
            Event::Staged => {
                if self.phase == Phase::Stage {
                    self.phase = Phase::Run;
                }
            },
            Event::StageFailed { message } => {
                if self.phase == Phase::Stage {
                    self.stage_failure = Some(failure(ErrorKind::WorkspaceIo, message.as_str()));
                    self.phase = Phase::Dispose;
                }
            },
            Event::StepDone { result } => {
                if self.phase == Phase::Run {
                    self.dispatch.finish_step(result);
                    if self.dispatch.outcome().is_some() {
                        self.phase = Phase::Dispose;
                    }
                }
            },
            Event::Disposed => {
                if self.phase == Phase::Dispose {
                    self.disposed = true;
                    self.phase = Phase::Release;
                }
            },
            Event::Released => {
                if self.phase == Phase::Release {
                    self.released = true;
                    self.phase = Phase::Done;
                }
            },
        }
    }

    /// The settled outcome, if any.
    pub fn outcome(&self) -> (r: Option<&ExecutionOutcome>)
        ensures
            match r {
                Some(o) => self.outcome_spec() == Some(o@),
                None => self.outcome_spec() is None,
            },
    {
        match &self.stage_failure {
            Some(o) => Some(o),
            None => self.dispatch.outcome(),
        }
    }

    /// Consumes the request and hands out its settled outcome, if any.
    pub fn into_outcome(self) -> (r: Option<ExecutionOutcome>)
        ensures
            match r {
                Some(o) => self.outcome_spec() == Some(o@),
                None => self.outcome_spec() is None,
            },
    {
        match self.stage_failure {
            Some(o) => Some(o),
            None => self.dispatch.into_outcome(),
        }
    }
}

/// Opens a request for the language named `id`: an unsupported name is
/// rejected at once, with nothing counted, admitted or staged; a supported
/// one is counted and gets a freshly named workspace under `root`, laid out
/// for the profile of `deployment`, and waits for admission.
pub fn open_request(
    counters: &mut InvocationCounters,
    id: &str,
    root: &str,
    deployment: Deployment,
) -> (r: Result<Session, ErrorKind>)
    requires
        old(counters).wf(),
    ensures
        final(counters).wf(),
        match resolve_spec(lower_of(id@)) {
            Err(k) => r == Err::<Session, ErrorKind>(k) && final(counters)@ == old(counters)@,
            Ok(l) => r matches Ok(s) && {
                &&& s.wf()
                &&& s.phase_spec() == Phase::Admit
                &&& s.language_spec() == l
                &&& s.workspace_spec().laid_out(root@)
                &&& s.workspace_spec().id@.len() == ID_LEN
                &&& is_id(s.workspace_spec().id@)
                &&& s.workspace_spec().extension@ == l.extension_spec()
                &&& s.dispatch_spec()@.n_build == build_spec(deployment, l).len()
                &&& s.dispatch_spec()@.commands == build_spec(deployment, l).map_values(
                    |c: Seq<PartModel>| command_line(c, s.workspace_spec()),
                ).push(command_line(run_spec(deployment, l), s.workspace_spec()))
                &&& s.outcome_spec() is None
                &&& final(counters)@ == record_spec(old(counters)@, l)
            },
        },
{
    match accept(counters, id) {
        Err(k) => Err(k),
        Ok(l) => {
            let profile = profile_for(deployment, l);
            assert(profile.build_steps@.len() == profile.build_view().len());
            let ws = Workspace::fresh(root, l);
            Ok(Session::new(&profile, ws))
        },
    }
}

/// A request that has finished has given its admission slot back and had
/// its workspace removal attempted, and no slot is given back that was not
/// granted.
pub proof fn lemma_finished_request_cleaned_up(s: Session)
    requires
        s.wf(),
    ensures
        s.phase_spec() == Phase::Done ==> s.granted_spec() && s.released_spec() && s.disposed_spec()
            && s.outcome_spec() is Some,
        s.released_spec() ==> s.granted_spec(),
        s.phase_spec() == Phase::Run ==> s.granted_spec() && !s.released_spec(),
{
}

} // verus!
