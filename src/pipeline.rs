use vstd::prelude::*;

use crate::mode::{opt_view, select_mode, select_mode_spec, HookMode, ModePolicy, ModeSelection};

verus! {

/// The kind of a program found in the image. Only programs for the early
/// receive hook are managed here.
#[derive(Clone, Copy, Debug, PartialEq, Eq, Structural)]
pub enum ProgramKind {
    EarlyReceive,
    Other,
}

/// Why a program could not be attached.
#[derive(Debug, PartialEq, Eq)]
pub enum AttachCause {
    /// The program is not an early-receive-hook program.
    WrongKind,
    /// The kernel refused the program's final load step.
    LoadRejected { reason: String },
    /// The kernel refused to attach the program to the interface.
    AttachRejected { reason: String },
}

/// A fatal failure of a run. Tables and programs are named by their index in
/// the loaded module.
#[derive(Debug, PartialEq, Eq)]
pub enum RunError {
    /// The strict policy refused the mode string.
    Configuration { mode: String },
    /// The program image could not be read or copied.
    Image { reason: String },
    /// The image is not a well-formed loadable object.
    Parse { reason: String },
    /// The kernel refused a program or table of the image.
    Load { reason: String },
    /// The diagnostics channel could not be installed.
    DiagnosticsInit { reason: String },
    /// A table could not be published at its path.
    Publish { table: usize, reason: String },
    /// A program could not be attached. Programs attached before it stay
    /// attached: nothing is rolled back, they go with the module's handles.
    Attach { program: usize, cause: AttachCause },
}

/// What the pipeline asks its driver to do next.
#[derive(Debug, PartialEq, Eq)]
pub enum Action {
    /// Log that the generic mode is only fit for testing.
    WarnGenericMode,
    /// Remove the limit on locked memory, and report the result code.
    RaiseMemlockLimit,
    /// Log that the limit on locked memory stayed, with the result code.
    WarnMemlockLimit { code: i32 },
    /// Read the image and copy it into an aligned buffer.
    BuildImage,
    /// Hand the aligned buffer to the kernel loader.
    LoadModule,
    /// Forward the kernel-side log records to the process's logger.
    InstallDiagnostics,
    /// Remove whatever stands at the table's path, ignoring a failure, then
    /// pin the table there.
    PublishTable { index: usize },
    /// Run the kernel's final load step for the program.
    LoadProgram { index: usize },
    /// Attach the program to the interface in the given mode.
    AttachProgram { index: usize, mode: HookMode },
    /// Everything is in place: keep the handles alive until terminated.
    KeepAlive,
    /// The run failed and must end with this error.
    Stop { error: RunError },
}

/// What the driver reports after performing an action.
#[derive(Debug, PartialEq, Eq)]
pub enum Event {
    /// The action completed.
    Proceed,
    /// The result code of the attempt to remove the locked-memory limit.
    LimitResult { code: i32 },
    /// The loader accepted the image: the kinds of its programs, in the
    /// module's order, and the number of its tables.
    ModuleLoaded { programs: Vec<ProgramKind>, tables: usize },
    /// The loader refused the image; `malformed` when it could not be parsed.
    ModuleRejected { malformed: bool, reason: String },
    /// The diagnostics channel is installed. It takes the module's log
    /// table for itself: `tables` is the number of tables that are left.
    DiagnosticsInstalled { tables: usize },
    /// The action failed.
    Rejected { reason: String },
}

/// Where the pipeline stands: which action it has asked for last.
#[derive(Clone, Copy, Debug, PartialEq, Eq, Structural)]
pub enum Phase {
    Idle,
    WarningMode,
    RaisingLimit,
    WarningLimit,
    BuildingImage,
    LoadingModule,
    InstallingDiagnostics,
    Publishing { index: usize },
    LoadingProgram { index: usize },
    Attaching { index: usize },
    Running,
    Stopped,
}

/// The state of one run.
pub struct Pipeline {
    /// The hook mode of every attachment in this run.
    pub selection: ModeSelection,
    /// Whether kernel-side log records are to be forwarded.
    pub diagnostics: bool,
    /// Whether the module's tables are to be published.
    pub publish_tables: bool,
    /// The kinds of the loaded module's programs, in the module's order.
    pub programs: Vec<ProgramKind>,
    /// The number of the loaded module's tables.
    pub tables: usize,
    /// The action asked for last.
    pub phase: Phase,
}

impl Pipeline {
    /// The indices that the phase names are those of the loaded module, and
    /// a program that is being loaded or attached is an early-receive one.
    pub open spec fn wf(&self) -> bool {
        match self.phase {
            Phase::Publishing { index } => self.publish_tables && index < self.tables,
            Phase::LoadingProgram { index } => index < self.programs.len()
                && self.programs@[index as int] == ProgramKind::EarlyReceive,
            Phase::Attaching { index } => index < self.programs.len()
                && self.programs@[index as int] == ProgramKind::EarlyReceive,
            _ => true,
        }
    }

    /// Whether the pipeline expects `e` in its phase.
    pub open spec fn accepts_spec(&self, e: &Event) -> bool {
        match (self.phase, e) {
            (Phase::Idle, Event::Proceed) => true,
            (Phase::WarningMode, Event::Proceed) => true,
            (Phase::RaisingLimit, Event::LimitResult { .. }) => true,
            (Phase::WarningLimit, Event::Proceed) => true,
            (Phase::BuildingImage, Event::Proceed) => true,
            (Phase::BuildingImage, Event::Rejected { .. }) => true,
            (Phase::LoadingModule, Event::ModuleLoaded { .. }) => true,
            (Phase::LoadingModule, Event::ModuleRejected { .. }) => true,
            (Phase::InstallingDiagnostics, Event::DiagnosticsInstalled { .. }) => true,
            (Phase::InstallingDiagnostics, Event::Rejected { .. }) => true,
            (Phase::Publishing { .. }, Event::Proceed) => true,
            (Phase::Publishing { .. }, Event::Rejected { .. }) => true,
            (Phase::LoadingProgram { .. }, Event::Proceed) => true,
            (Phase::LoadingProgram { .. }, Event::Rejected { .. }) => true,
            (Phase::Attaching { .. }, Event::Proceed) => true,
            (Phase::Attaching { .. }, Event::Rejected { .. }) => true,
            _ => false,
        }
    }

    /// The step that goes over the programs from `i` on: the first one that
    /// is not an early-receive program ends the run; an early-receive one is
    /// loaded; past the last one the run is in place.
    pub open spec fn attach_from(&self, i: int) -> (Phase, Action) {
        if 0 <= i < self.programs.len() {
            if self.programs@[i] == ProgramKind::EarlyReceive {
                (Phase::LoadingProgram { index: i as usize }, Action::LoadProgram { index: i as usize })
            } else {
                (
                    Phase::Stopped,
                    Action::Stop {
                        error: RunError::Attach { program: i as usize, cause: AttachCause::WrongKind },
                    },
                )
            }
        } else {
            (Phase::Running, Action::KeepAlive)
        }
    }

    /// The step that publishes the tables from `i` on, when asked to, and
    /// then turns to the programs.
    pub open spec fn publish_from(&self, i: int) -> (Phase, Action) {
        if self.publish_tables && 0 <= i < self.tables {
            (Phase::Publishing { index: i as usize }, Action::PublishTable { index: i as usize })
        } else {
            self.attach_from(0)
        }
    }

    /// The step after the module was loaded.
    pub open spec fn after_load(&self) -> (Phase, Action) {
        if self.diagnostics {
            (Phase::InstallingDiagnostics, Action::InstallDiagnostics)
        } else {
            self.publish_from(0)
        }
    }

    /// The pipeline with another phase.
    pub open spec fn in_phase(self, phase: Phase) -> Pipeline {
        Pipeline { phase, ..self }
    }

    /// The pipeline moved to the phase of `pa`, beside the action of `pa`.
    pub open spec fn moved(self, pa: (Phase, Action)) -> (Pipeline, Action) {
        (self.in_phase(pa.0), pa.1)
    }

    /// The state and action that follow event `e`.
    pub open spec fn next(self, e: Event) -> (Pipeline, Action) {
        match (self.phase, e) {
            (Phase::Idle, _) => if self.selection.fallback {
                (self.in_phase(Phase::WarningMode), Action::WarnGenericMode)
            } else {
                (self.in_phase(Phase::RaisingLimit), Action::RaiseMemlockLimit)
            },
            (Phase::WarningMode, _) => (self.in_phase(Phase::RaisingLimit), Action::RaiseMemlockLimit),
            (Phase::RaisingLimit, Event::LimitResult { code }) => if code != 0 {
                (self.in_phase(Phase::WarningLimit), Action::WarnMemlockLimit { code })
            } else {
                (self.in_phase(Phase::BuildingImage), Action::BuildImage)
            },
            (Phase::WarningLimit, _) => (self.in_phase(Phase::BuildingImage), Action::BuildImage),
            (Phase::BuildingImage, Event::Rejected { reason }) => (
                self.in_phase(Phase::Stopped),
                Action::Stop { error: RunError::Image { reason } },
            ),
            (Phase::BuildingImage, _) => (self.in_phase(Phase::LoadingModule), Action::LoadModule),
            (Phase::LoadingModule, Event::ModuleLoaded { programs, tables }) => {
                let loaded = Pipeline { programs, tables, ..self };
                loaded.moved(loaded.after_load())
            },
            (Phase::LoadingModule, Event::ModuleRejected { malformed, reason }) => (
                self.in_phase(Phase::Stopped),
                Action::Stop {
                    error: if malformed {
                        RunError::Parse { reason }
                    } else {
                        RunError::Load { reason }
                    },
                },
            ),
            (Phase::InstallingDiagnostics, Event::Rejected { reason }) => (
                self.in_phase(Phase::Stopped),
                Action::Stop { error: RunError::DiagnosticsInit { reason } },
            ),
            (Phase::InstallingDiagnostics, Event::DiagnosticsInstalled { tables }) => {
                let left = Pipeline { tables, ..self };
                left.moved(left.publish_from(0))
            },
            (Phase::Publishing { index }, Event::Rejected { reason }) => (
                self.in_phase(Phase::Stopped),
                Action::Stop { error: RunError::Publish { table: index, reason } },
            ),
            (Phase::Publishing { index }, _) => self.moved(self.publish_from(index + 1)),
            (Phase::LoadingProgram { index }, Event::Rejected { reason }) => (
                self.in_phase(Phase::Stopped),
                Action::Stop {
                    error: RunError::Attach {
                        program: index,
                        cause: AttachCause::LoadRejected { reason },
                    },
                },
            ),
            (Phase::LoadingProgram { index }, _) => (
                self.in_phase(Phase::Attaching { index }),
                Action::AttachProgram { index, mode: self.selection.mode },
            ),
            (Phase::Attaching { index }, Event::Rejected { reason }) => (
                self.in_phase(Phase::Stopped),
                Action::Stop {
                    error: RunError::Attach {
                        program: index,
                        cause: AttachCause::AttachRejected { reason },
                    },
                },
            ),
            (Phase::Attaching { index }, _) => self.moved(self.attach_from(index + 1)),
            _ => (self, Action::KeepAlive),
        }
    }
}

impl Pipeline {
    /// Starts a run with the given mode string and policy, and the flags for
    /// diagnostics and table publishing. Fails with a configuration error,
    /// before any other work, where the policy refuses the mode string.
    pub fn new(mode: Option<&str>, policy: ModePolicy, diagnostics: bool, publish_tables: bool) -> (r:
        Result<Pipeline, RunError>)
        ensures
            match select_mode_spec(opt_view(mode), policy) {
                Some(selection) => r matches Ok(p) && {
                    &&& p.selection == selection
                    &&& p.diagnostics == diagnostics
                    &&& p.publish_tables == publish_tables
                    &&& p.programs@.len() == 0
                    &&& p.tables == 0
                    &&& p.phase == Phase::Idle
                },
                None => r matches Err(RunError::Configuration { mode: m }) && opt_view(mode) == Some(
                    m@,
                ),
            },
            r matches Ok(p) ==> p.wf(),
    {
        match select_mode(mode, policy) {
            Some(selection) => Ok(
                Pipeline {
                    selection,
                    diagnostics,
                    publish_tables,
                    programs: Vec::new(),
                    tables: 0,
                    phase: Phase::Idle,
                },
            ),
            None => {
                let text = match mode {
                    Some(s) => String::from_str(s),
                    None => String::new(),
                };
                Err(RunError::Configuration { mode: text })
            },
        }
    }

    /// Whether the pipeline expects `e` in its phase.
    pub fn accepts(&self, e: &Event) -> (r: bool)
        ensures
            r == self.accepts_spec(e),
    {
        match (self.phase, e) {
            (Phase::Idle, Event::Proceed) => true,
            (Phase::WarningMode, Event::Proceed) => true,
            (Phase::RaisingLimit, Event::LimitResult { .. }) => true,
            (Phase::WarningLimit, Event::Proceed) => true,
            (Phase::BuildingImage, Event::Proceed) => true,
            (Phase::BuildingImage, Event::Rejected { .. }) => true,
            (Phase::LoadingModule, Event::ModuleLoaded { .. }) => true,
            (Phase::LoadingModule, Event::ModuleRejected { .. }) => true,
            (Phase::InstallingDiagnostics, Event::DiagnosticsInstalled { .. }) => true,
            (Phase::InstallingDiagnostics, Event::Rejected { .. }) => true,
            (Phase::Publishing { .. }, Event::Proceed) => true,
            (Phase::Publishing { .. }, Event::Rejected { .. }) => true,
            (Phase::LoadingProgram { .. }, Event::Proceed) => true,
            (Phase::LoadingProgram { .. }, Event::Rejected { .. }) => true,
            (Phase::Attaching { .. }, Event::Proceed) => true,
            (Phase::Attaching { .. }, Event::Rejected { .. }) => true,
            _ => false,
        }
    }

    fn go_attach_from(&mut self, i: usize) -> (r: Action)
        ensures
            (*final(self), r) == old(self).moved(old(self).attach_from(i as int)),
            final(self).wf(),
    {
        if i < self.programs.len() {
            if self.programs[i] == ProgramKind::EarlyReceive {
                self.phase = Phase::LoadingProgram { index: i };
                Action::LoadProgram { index: i }
            } else {
                self.phase = Phase::Stopped;
                Action::Stop {
                    error: RunError::Attach { program: i, cause: AttachCause::WrongKind },
                }
            }
        } else {
            self.phase = Phase::Running;
            Action::KeepAlive
        }
    }

    fn go_publish_from(&mut self, i: usize) -> (r: Action)
        ensures
            (*final(self), r) == old(self).moved(old(self).publish_from(i as int)),
            final(self).wf(),
    {
        if self.publish_tables && i < self.tables {
            self.phase = Phase::Publishing { index: i };
            Action::PublishTable { index: i }
        } else {
            self.go_attach_from(0)
        }
    }

    /// Takes the driver's report on the last action and returns the next
    /// action; the pipeline's new state is `next` of the old one.
    pub fn step(&mut self, e: Event) -> (r: Action)
        requires
            old(self).wf(),
            old(self).accepts_spec(&e),
        ensures
            (*final(self), r) == old(self).next(e),
            final(self).wf(),
    {
        match (self.phase, e) {
            (Phase::Idle, _) => {
                if self.selection.fallback {
                    self.phase = Phase::WarningMode;
                    Action::WarnGenericMode
                } else {
                    self.phase = Phase::RaisingLimit;
                    Action::RaiseMemlockLimit
                }
            },
            (Phase::WarningMode, _) => {
                self.phase = Phase::RaisingLimit;
                Action::RaiseMemlockLimit
            },
            (Phase::RaisingLimit, Event::LimitResult { code }) => {
                if code != 0 {
                    self.phase = Phase::WarningLimit;
                    Action::WarnMemlockLimit { code }
                } else {
                    self.phase = Phase::BuildingImage;
                    Action::BuildImage
                }
            },
            (Phase::WarningLimit, _) => {
                self.phase = Phase::BuildingImage;
                Action::BuildImage
            },
            (Phase::BuildingImage, Event::Rejected { reason }) => {
                self.phase = Phase::Stopped;
                Action::Stop { error: RunError::Image { reason } }
            },
            (Phase::BuildingImage, _) => {
                self.phase = Phase::LoadingModule;
                Action::LoadModule
            },
            (Phase::LoadingModule, Event::ModuleLoaded { programs, tables }) => {
                self.programs = programs;
                self.tables = tables;
                if self.diagnostics {
                    self.phase = Phase::InstallingDiagnostics;
                    Action::InstallDiagnostics
                } else {
                    self.go_publish_from(0)
                }
            },
            (Phase::LoadingModule, Event::ModuleRejected { malformed, reason }) => {
                self.phase = Phase::Stopped;
                let error = if malformed {
                    RunError::Parse { reason }
                } else {
                    RunError::Load { reason }
                };
                Action::Stop { error }
            },
            (Phase::InstallingDiagnostics, Event::Rejected { reason }) => {
                self.phase = Phase::Stopped;
                Action::Stop { error: RunError::DiagnosticsInit { reason } }
            },
            (Phase::InstallingDiagnostics, Event::DiagnosticsInstalled { tables }) => {
                self.tables = tables;
                self.go_publish_from(0)
            },
            (Phase::Publishing { index }, Event::Rejected { reason }) => {
                self.phase = Phase::Stopped;
                Action::Stop { error: RunError::Publish { table: index, reason } }
            },
            (Phase::Publishing { index }, _) => self.go_publish_from(index + 1),
            (Phase::LoadingProgram { index }, Event::Rejected { reason }) => {
                self.phase = Phase::Stopped;
                Action::Stop {
                    error: RunError::Attach {
                        program: index,
                        cause: AttachCause::LoadRejected { reason },
                    },
                }
            },
            (Phase::LoadingProgram { index }, _) => {
                self.phase = Phase::Attaching { index };
                Action::AttachProgram { index, mode: self.selection.mode }
            },
            (Phase::Attaching { index }, Event::Rejected { reason }) => {
                self.phase = Phase::Stopped;
                Action::Stop {
                    error: RunError::Attach {
                        program: index,
                        cause: AttachCause::AttachRejected { reason },
                    },
                }
            },
            (Phase::Attaching { index }, _) => {
                self.go_attach_from(index + 1)
            },
            _ => Action::KeepAlive,
        }
    }
}

/// Only early-receive programs are ever loaded or attached, every attach
/// uses the run's one mode, and a program of another kind ends the run with
/// an attach error that names it, at the point where it comes up.
pub proof fn lemma_only_early_receive_attached(p: Pipeline, e: Event)
    requires
        p.wf(),
        p.accepts_spec(&e),
    ensures
        ({
            let (q, a) = p.next(e);
            &&& q.wf()
            &&& q.selection == p.selection
            &&& a matches Action::AttachProgram { index, mode } ==> {
                &&& index < q.programs.len()
                &&& q.programs@[index as int] == ProgramKind::EarlyReceive
                &&& mode == p.selection.mode
            }
            &&& a matches Action::LoadProgram { index } ==> {
                &&& index < q.programs.len()
                &&& q.programs@[index as int] == ProgramKind::EarlyReceive
            }
            &&& a matches Action::Stop {
                error: RunError::Attach { program, cause: AttachCause::WrongKind },
            } ==> {
                &&& program < q.programs.len()
                &&& q.programs@[program as int] == ProgramKind::Other
                &&& p.phase matches Phase::Attaching { index } ==> program == index + 1
                &&& !(p.phase is Attaching) ==> program == 0
            }
        }),
{
}

/// The actions of a run that starts from `p` and is told `events` in turn.
pub open spec fn run_actions(p: Pipeline, events: Seq<Event>) -> Seq<Action>
    decreases events.len(),
{
    if events.len() == 0 {
        Seq::empty()
    } else {
        let (q, a) = p.next(events[0]);
        seq![a] + run_actions(q, events.subrange(1, events.len() as int))
    }
}

/// Whether each of `events` is expected by the pipeline when it comes.
pub open spec fn expected_run(p: Pipeline, events: Seq<Event>) -> bool
    decreases events.len(),
{
    events.len() == 0 || (p.accepts_spec(&events[0]) && expected_run(
        p.next(events[0]).0,
        events.subrange(1, events.len() as int),
    ))
}

/// Over a whole run, every program is attached in the one mode chosen when
/// the run began.
pub proof fn lemma_one_mode_per_run(p: Pipeline, events: Seq<Event>)
    requires
        p.wf(),
        expected_run(p, events),
    ensures
        forall|k: int|
            0 <= k < run_actions(p, events).len() ==> (#[trigger] run_actions(p, events)[k] matches Action::AttachProgram {
                mode,
                ..
            } ==> mode == p.selection.mode),
    decreases events.len(),
{
    if events.len() > 0 {
        let (q, a) = p.next(events[0]);
        let rest = events.subrange(1, events.len() as int);
        lemma_only_early_receive_attached(p, events[0]);
        lemma_one_mode_per_run(q, rest);
        assert(run_actions(p, events) == seq![a] + run_actions(q, rest));
    }
}

/// With no programs in the module nothing is loaded or attached, and no
/// step fails for want of one; once the tables are done the run is in place.
pub proof fn lemma_no_programs_nothing_attached(p: Pipeline, e: Event)
    requires
        p.wf(),
        p.accepts_spec(&e),
        p.programs@.len() == 0,
        e matches Event::ModuleLoaded { programs, .. } ==> programs@.len() == 0,
    ensures
        ({
            let (q, a) = p.next(e);
            &&& q.programs@.len() == 0
            &&& !(a is LoadProgram)
            &&& !(a is AttachProgram)
            &&& !(a matches Action::Stop { error: RunError::Attach { .. } })
        }),
        forall|i: int|
            #![trigger p.publish_from(i)]
            i >= p.tables || !p.publish_tables ==> p.publish_from(i) == (
                Phase::Running,
                Action::KeepAlive,
            ),
{
}

/// What happens to the programs does not depend on how many tables the
/// module has.
pub proof fn lemma_attach_independent_of_tables(p: Pipeline, tables: usize, i: int)
    ensures
        (Pipeline { tables, ..p }).attach_from(i) == p.attach_from(i),
{
}

/// A refused image ends the run with a parse or load error, before any
/// table is published or program attached.
pub proof fn lemma_rejected_image_stops(p: Pipeline, malformed: bool, reason: String)
    requires
        p.phase == Phase::LoadingModule,
    ensures
        ({
            let (q, a) = p.next(Event::ModuleRejected { malformed, reason });
            &&& q.phase == Phase::Stopped
            &&& malformed ==> a == Action::Stop { error: RunError::Parse { reason } }
            &&& !malformed ==> a == Action::Stop { error: RunError::Load { reason } }
        }),
{
}

} // verus!
