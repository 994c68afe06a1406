//! The lifecycle orchestrator: a state machine that, fed the results of
//! engine queries and operations as events, decides the next engine action
//! for the subcommand at hand — ensure the image through the
//! exists → pull → build fallback chain, run fresh or exec into a running
//! container, start/launch/stop/remove the named background container, or
//! report status — until it finishes with an exit code or an error.
//!
//! The caller owns every side effect: it performs each returned action and
//! hands the outcome back as the next event.

use vstd::prelude::*;
use crate::assemble::{
    assemble_build_args, assemble_exec_args, assemble_run_args, assemble_up_args, build_args_spec,
    exec_args_spec, run_args_spec, up_args_spec,
};
use crate::errors::{Error, ErrorModel};
use crate::model::{Configuration, ContainerInfo, GlobalOptions, Identity, InfoModel};
use crate::text::{eq_ignore_ascii_case, lower_spec, str_starts_with};

verus! {

/// The five subcommands the orchestrator serves.
#[derive(Debug, Clone, Copy, PartialEq, Eq, Structural)]
pub enum Subcommand {
    Run,
    Shell,
    Up,
    Down,
    Status,
}

/// Where the orchestrator stands; each waiting phase names the event it
/// expects next.
#[derive(Debug, Clone, Copy, PartialEq, Eq, Structural)]
pub enum Phase {
    Start,
    CheckImage,
    Pulling,
    Building,
    QueryRunForExec,
    AwaitCommand,
    UpQueryRunning,
    UpQueryKnown,
    UpStarting,
    DownQueryRunning,
    DownStopping,
    DownQueryKnown,
    DownRemoving,
    StatusQuery,
    Done,
}

/// What the caller reports back: the outcome of the previously returned
/// action.
#[derive(Debug)]
pub enum EngineEvent {
    Begin,
    ImagePresent(bool),
    PullDone(bool),
    BuildDone(bool),
    RunningQueried(bool),
    KnownQueried(bool),
    StartDone(bool),
    StopDone(bool),
    RemoveDone(bool),
    CommandDone(Option<i32>),
    InfoQueried(Option<ContainerInfo>),
}

/// An informational line for the user, rendered by the caller.
#[derive(Debug)]
pub enum Note {
    /// What would have been run; nothing was.
    DryRun(Vec<String>),
    /// The stopped container was started again.
    Started(String),
    /// The container was removed.
    Removed(String),
    /// Neither running nor known: nothing to do.
    NothingToDo(String),
    /// No container of this name was ever created.
    NotCreated(String),
    /// The named container is running.
    Running(ContainerInfo),
    /// The named container exists but is stopped.
    Stopped(ContainerInfo),
    /// Executing inside a container already; the engine is not consulted.
    InsideContainer,
}

/// Spec-level shape of a [`Note`].
pub enum NoteModel {
    DryRun(Seq<Seq<char>>),
    Started(Seq<char>),
    Removed(Seq<char>),
    NothingToDo(Seq<char>),
    NotCreated(Seq<char>),
    Running(InfoModel),
    Stopped(InfoModel),
    InsideContainer,
}

impl View for Note {
    type V = NoteModel;

    open spec fn view(&self) -> NoteModel {
        match self {
            Note::DryRun(v) => NoteModel::DryRun(v.deep_view()),
            Note::Started(n) => NoteModel::Started(n@),
            Note::Removed(n) => NoteModel::Removed(n@),
            Note::NothingToDo(n) => NoteModel::NothingToDo(n@),
            Note::NotCreated(n) => NoteModel::NotCreated(n@),
            Note::Running(i) => NoteModel::Running(i@),
            Note::Stopped(i) => NoteModel::Stopped(i@),
            Note::InsideContainer => NoteModel::InsideContainer,
        }
    }
}

/// What the caller must do next. Queries are read-only; `Invoke` hands the
/// assembled argument list to the engine and waits for the exit code;
/// `Finish` and `Fail` are terminal.
#[derive(Debug)]
pub enum EngineAction {
    QueryImage(String),
    Pull(String),
    Build(Vec<String>),
    QueryRunning(String),
    QueryKnown(String),
    QueryInfo(String),
    StartContainer(String),
    StopContainer(String),
    RemoveContainer(String),
    Invoke(Vec<String>),
    Finish { code: i32, note: Option<Note> },
    Fail(Error),
}

/// Spec-level shape of an [`EngineAction`].
pub enum ActionModel {
    QueryImage(Seq<char>),
    Pull(Seq<char>),
    Build(Seq<Seq<char>>),
    QueryRunning(Seq<char>),
    QueryKnown(Seq<char>),
    QueryInfo(Seq<char>),
    StartContainer(Seq<char>),
    StopContainer(Seq<char>),
    RemoveContainer(Seq<char>),
    Invoke(Seq<Seq<char>>),
    Finish { code: i32, note: Option<NoteModel> },
    Fail(ErrorModel),
}

impl View for EngineAction {
    type V = ActionModel;

    open spec fn view(&self) -> ActionModel {
        match self {
            EngineAction::QueryImage(s) => ActionModel::QueryImage(s@),
            EngineAction::Pull(s) => ActionModel::Pull(s@),
            EngineAction::Build(v) => ActionModel::Build(v.deep_view()),
            EngineAction::QueryRunning(s) => ActionModel::QueryRunning(s@),
            EngineAction::QueryKnown(s) => ActionModel::QueryKnown(s@),
            EngineAction::QueryInfo(s) => ActionModel::QueryInfo(s@),
            EngineAction::StartContainer(s) => ActionModel::StartContainer(s@),
            EngineAction::StopContainer(s) => ActionModel::StopContainer(s@),
            EngineAction::RemoveContainer(s) => ActionModel::RemoveContainer(s@),
            EngineAction::Invoke(v) => ActionModel::Invoke(v.deep_view()),
            EngineAction::Finish { code, note } => ActionModel::Finish {
                code: *code,
                note: match note {
                    Option::Some(n) => Option::Some(n@),
                    Option::None => Option::None,
                },
            },
            EngineAction::Fail(e) => ActionModel::Fail(e@),
        }
    }
}

/// One invocation's orchestration state.
#[derive(Debug)]
pub struct Orchestrator {
    pub cfg: Configuration,
    pub opts: GlobalOptions,
    pub sub: Subcommand,
    pub command: String,
    pub args: Vec<String>,
    pub dir: String,
    pub uid: u32,
    pub gid: u32,
    pub username: String,
    pub passthrough: bool,
    pub phase: Phase,
}

impl Orchestrator {
    /// Every phase that speaks of the named container demands that the
    /// configuration names one.
    pub open spec fn wf(&self) -> bool {
        &&& (self.phase == Phase::QueryRunForExec || self.phase == Phase::UpQueryRunning
            || self.phase == Phase::UpQueryKnown || self.phase == Phase::UpStarting || self.phase
            == Phase::DownQueryRunning || self.phase == Phase::DownStopping || self.phase
            == Phase::DownQueryKnown || self.phase == Phase::DownRemoving || self.phase
            == Phase::StatusQuery) ==> self.cfg.name is Some
        &&& (self.sub == Subcommand::Up && (self.phase == Phase::CheckImage || self.phase
            == Phase::Pulling || self.phase == Phase::Building)) ==> self.cfg.name is Some
    }

    /// The configured container name; meaningful only under [`Self::wf`] in
    /// the phases that use it.
    pub open spec fn spec_name(&self) -> Seq<char> {
        self.cfg.name->Some_0@
    }

    /// Whether the orchestrator expects this event in its current phase.
    pub open spec fn accepts_spec(&self, ev: EngineEvent) -> bool {
        match self.phase {
            Phase::Start => ev is Begin,
            Phase::CheckImage => ev is ImagePresent,
            Phase::Pulling => ev is PullDone,
            Phase::Building => ev is BuildDone,
            Phase::QueryRunForExec => ev is RunningQueried,
            Phase::AwaitCommand => ev is CommandDone,
            Phase::UpQueryRunning => ev is RunningQueried,
            Phase::UpQueryKnown => ev is KnownQueried,
            Phase::UpStarting => ev is StartDone,
            Phase::DownQueryRunning => ev is RunningQueried,
            Phase::DownStopping => ev is StopDone,
            Phase::DownQueryKnown => ev is KnownQueried,
            Phase::DownRemoving => ev is RemoveDone,
            Phase::StatusQuery => ev is InfoQueried,
            Phase::Done => false,
        }
    }

    /// Executable twin of [`Self::accepts_spec`].
    pub fn accepts(&self, ev: &EngineEvent) -> (r: bool)
        ensures
            r == self.accepts_spec(*ev),
    {
        match self.phase {
            Phase::Start => matches!(ev, EngineEvent::Begin),
            Phase::CheckImage => matches!(ev, EngineEvent::ImagePresent(_)),
            Phase::Pulling => matches!(ev, EngineEvent::PullDone(_)),
            Phase::Building => matches!(ev, EngineEvent::BuildDone(_)),
            Phase::QueryRunForExec => matches!(ev, EngineEvent::RunningQueried(_)),
            Phase::AwaitCommand => matches!(ev, EngineEvent::CommandDone(_)),
            Phase::UpQueryRunning => matches!(ev, EngineEvent::RunningQueried(_)),
            Phase::UpQueryKnown => matches!(ev, EngineEvent::KnownQueried(_)),
            Phase::UpStarting => matches!(ev, EngineEvent::StartDone(_)),
            Phase::DownQueryRunning => matches!(ev, EngineEvent::RunningQueried(_)),
            Phase::DownStopping => matches!(ev, EngineEvent::StopDone(_)),
            Phase::DownQueryKnown => matches!(ev, EngineEvent::KnownQueried(_)),
            Phase::DownRemoving => matches!(ev, EngineEvent::RemoveDone(_)),
            Phase::StatusQuery => matches!(ev, EngineEvent::InfoQueried(_)),
            Phase::Done => false,
        }
    }

    /// Whether the orchestration has reached its terminal phase.
    pub fn finished(&self) -> (r: bool)
        ensures
            r == (self.phase == Phase::Done),
    {
        self.phase == Phase::Done
    }

    /// Sets up orchestration for one resolved invocation.
    pub fn new(
        cfg: Configuration,
        opts: GlobalOptions,
        sub: Subcommand,
        command: String,
        args: Vec<String>,
        dir: String,
        ident: Identity,
        passthrough: bool,
    ) -> (r: Orchestrator)
        ensures
            r.phase == Phase::Start,
            r.wf(),
            r.cfg == cfg,
            r.opts == opts,
            r.sub == sub,
            r.command == command,
            r.args == args,
            r.dir == dir,
            r.uid == ident.uid,
            r.gid == ident.gid,
            r.username == ident.username,
            r.passthrough == passthrough,
    {
        Orchestrator {
            cfg,
            opts,
            sub,
            command,
            args,
            dir,
            uid: ident.uid,
            gid: ident.gid,
            username: ident.username,
            passthrough,
            phase: Phase::Start,
        }
    }
}

/// A transition's outcome: the next phase and the action handed out.
pub struct StepModel {
    pub phase: Phase,
    pub action: ActionModel,
}

/// The fresh-run invocation of this orchestration.
pub open spec fn run_invoke_model(o: Orchestrator) -> ActionModel {
    ActionModel::Invoke(
        run_args_spec(o.cfg@, o.opts@, o.uid, o.gid, o.dir@, o.command@, o.args.deep_view()),
    )
}

/// The exec-into-running invocation of this orchestration.
pub open spec fn exec_invoke_model(o: Orchestrator) -> ActionModel {
    ActionModel::Invoke(
        exec_args_spec(
            o.cfg@,
            o.opts@,
            o.uid,
            o.gid,
            o.dir@,
            o.spec_name(),
            o.command@,
            o.args.deep_view(),
        ),
    )
}

/// The detached launch of the named background container.
pub open spec fn up_invoke_model(o: Orchestrator) -> ActionModel {
    ActionModel::Invoke(up_args_spec(o.cfg@, o.opts@, o.uid, o.gid, o.dir@, o.spec_name()))
}

/// The image build of this orchestration.
pub open spec fn build_model(o: Orchestrator) -> ActionModel {
    ActionModel::Build(
        build_args_spec(
            o.cfg@.image,
            o.cfg@.dockerfile,
            o.cfg@.root_path,
            o.cfg@.workdir_path,
            o.uid,
            o.gid,
            o.username@,
            o.cfg@.build_args,
        ),
    )
}

/// Where to go once the image is known to exist: `up` launches detached;
/// `run`/`shell` with a named configuration first ask whether that container
/// is running, otherwise they launch fresh.
pub open spec fn after_image_spec(o: Orchestrator) -> StepModel {
    match o.sub {
        Subcommand::Up => StepModel { phase: Phase::AwaitCommand, action: up_invoke_model(o) },
        _ => match o.cfg.name {
            Option::Some(_) => StepModel {
                phase: Phase::QueryRunForExec,
                action: ActionModel::QueryRunning(o.spec_name()),
            },
            Option::None => StepModel { phase: Phase::AwaitCommand, action: run_invoke_model(o) },
        },
    }
}

/// The first transition of each subcommand. `run`/`shell` ensure the image
/// unless this is a dry run, which skips the whole ensure chain; `up`, `down`
/// and `status` need a named configuration, and `up` and `down` refuse to act
/// from inside a container, while `status` only reports that.
pub open spec fn begin_spec(o: Orchestrator) -> StepModel {
    match o.sub {
        Subcommand::Up => if o.cfg.name is None {
            StepModel {
                phase: Phase::Done,
                action: ActionModel::Fail(ErrorModel::NameRequired { subcommand: "up"@ }),
            }
        } else if o.passthrough {
            StepModel {
                phase: Phase::Done,
                action: ActionModel::Fail(ErrorModel::InsideContainer { subcommand: "up"@ }),
            }
        } else {
            StepModel {
                phase: Phase::UpQueryRunning,
                action: ActionModel::QueryRunning(o.spec_name()),
            }
        },
        Subcommand::Down => if o.cfg.name is None {
            StepModel {
                phase: Phase::Done,
                action: ActionModel::Fail(ErrorModel::NameRequired { subcommand: "down"@ }),
            }
        } else if o.passthrough {
            StepModel {
                phase: Phase::Done,
                action: ActionModel::Fail(ErrorModel::InsideContainer { subcommand: "down"@ }),
            }
        } else {
            StepModel {
                phase: Phase::DownQueryRunning,
                action: ActionModel::QueryRunning(o.spec_name()),
            }
        },
        Subcommand::Status => if o.cfg.name is None {
            StepModel {
                phase: Phase::Done,
                action: ActionModel::Fail(ErrorModel::NameRequired { subcommand: "status"@ }),
            }
        } else if o.passthrough {
            StepModel {
                phase: Phase::Done,
                action: ActionModel::Finish {
                    code: 0,
                    note: Option::Some(NoteModel::InsideContainer),
                },
            }
        } else {
            StepModel {
                phase: Phase::StatusQuery,
                action: ActionModel::QueryInfo(o.spec_name()),
            }
        },
        _ => if o.opts.dry_run {
            match o.cfg.name {
                Option::Some(_) => StepModel {
                    phase: Phase::QueryRunForExec,
                    action: ActionModel::QueryRunning(o.spec_name()),
                },
                Option::None => StepModel {
                    phase: Phase::Done,
                    action: ActionModel::Finish {
                        code: 0,
                        note: Option::Some(
                            NoteModel::DryRun(
                                run_args_spec(
                                    o.cfg@,
                                    o.opts@,
                                    o.uid,
                                    o.gid,
                                    o.dir@,
                                    o.command@,
                                    o.args.deep_view(),
                                ),
                            ),
                        ),
                    },
                },
            }
        } else {
            StepModel { phase: Phase::CheckImage, action: ActionModel::QueryImage(o.cfg@.image) }
        },
    }
}

/// The full transition table: from the current phase and the reported event
/// to the next phase and action.
pub open spec fn spec_step(o: Orchestrator, ev: EngineEvent) -> StepModel {
    match (o.phase, ev) {
        (Phase::Start, EngineEvent::Begin) => begin_spec(o),
        (Phase::CheckImage, EngineEvent::ImagePresent(present)) => if present {
            after_image_spec(o)
        } else {
            StepModel { phase: Phase::Pulling, action: ActionModel::Pull(o.cfg@.image) }
        },
        (Phase::Pulling, EngineEvent::PullDone(ok)) => if ok {
            after_image_spec(o)
        } else {
            StepModel { phase: Phase::Building, action: build_model(o) }
        },
        (Phase::Building, EngineEvent::BuildDone(ok)) => if ok {
            after_image_spec(o)
        } else {
            StepModel {
                phase: Phase::Done,
                action: ActionModel::Fail(ErrorModel::ImageBuildFailed { image: o.cfg@.image }),
            }
        },
        (Phase::QueryRunForExec, EngineEvent::RunningQueried(running)) => if o.opts.dry_run {
            StepModel {
                phase: Phase::Done,
                action: ActionModel::Finish {
                    code: 0,
                    note: Option::Some(
                        NoteModel::DryRun(
                            if running {
                                exec_args_spec(
                                    o.cfg@,
                                    o.opts@,
                                    o.uid,
                                    o.gid,
                                    o.dir@,
                                    o.spec_name(),
                                    o.command@,
                                    o.args.deep_view(),
                                )
                            } else {
                                run_args_spec(
                                    o.cfg@,
                                    o.opts@,
                                    o.uid,
                                    o.gid,
                                    o.dir@,
                                    o.command@,
                                    o.args.deep_view(),
                                )
                            },
                        ),
                    ),
                },
            }
        } else if running {
            StepModel { phase: Phase::AwaitCommand, action: exec_invoke_model(o) }
        } else {
            StepModel { phase: Phase::AwaitCommand, action: run_invoke_model(o) }
        },
        (Phase::AwaitCommand, EngineEvent::CommandDone(code)) => StepModel {
            phase: Phase::Done,
            action: ActionModel::Finish {
                code: match code {
                    Option::Some(c) => c,
                    Option::None => 0,
                },
                note: Option::None,
            },
        },
        (Phase::UpQueryRunning, EngineEvent::RunningQueried(running)) => if running {
            StepModel {
                phase: Phase::Done,
                action: ActionModel::Fail(ErrorModel::AlreadyRunning { name: o.spec_name() }),
            }
        } else {
            StepModel {
                phase: Phase::UpQueryKnown,
                action: ActionModel::QueryKnown(o.spec_name()),
            }
        },
        (Phase::UpQueryKnown, EngineEvent::KnownQueried(known)) => if known {
            if o.opts.dry_run {
                StepModel {
                    phase: Phase::Done,
                    action: ActionModel::Finish {
                        code: 0,
                        note: Option::Some(NoteModel::DryRun(seq!["start"@, o.spec_name()])),
                    },
                }
            } else {
                StepModel {
                    phase: Phase::UpStarting,
                    action: ActionModel::StartContainer(o.spec_name()),
                }
            }
        } else {
            if o.opts.dry_run {
                StepModel {
                    phase: Phase::Done,
                    action: ActionModel::Finish {
                        code: 0,
                        note: Option::Some(
                            NoteModel::DryRun(
                                up_args_spec(o.cfg@, o.opts@, o.uid, o.gid, o.dir@, o.spec_name()),
                            ),
                        ),
                    },
                }
            } else {
                StepModel {
                    phase: Phase::CheckImage,
                    action: ActionModel::QueryImage(o.cfg@.image),
                }
            }
        },
        (Phase::UpStarting, EngineEvent::StartDone(ok)) => if ok {
            StepModel {
                phase: Phase::Done,
                action: ActionModel::Finish {
                    code: 0,
                    note: Option::Some(NoteModel::Started(o.spec_name())),
                },
            }
        } else {
            StepModel {
                phase: Phase::Done,
                action: ActionModel::Fail(ErrorModel::StartFailed { name: o.spec_name() }),
            }
        },
        (Phase::DownQueryRunning, EngineEvent::RunningQueried(running)) => if running {
            if o.opts.dry_run {
                StepModel {
                    phase: Phase::Done,
                    action: ActionModel::Finish {
                        code: 0,
                        note: Option::Some(NoteModel::DryRun(seq!["stop"@, o.spec_name()])),
                    },
                }
            } else {
                StepModel {
                    phase: Phase::DownStopping,
                    action: ActionModel::StopContainer(o.spec_name()),
                }
            }
        } else {
            StepModel {
                phase: Phase::DownQueryKnown,
                action: ActionModel::QueryKnown(o.spec_name()),
            }
        },
        (Phase::DownStopping, EngineEvent::StopDone(ok)) => if ok {
            StepModel {
                phase: Phase::DownRemoving,
                action: ActionModel::RemoveContainer(o.spec_name()),
            }
        } else {
            StepModel {
                phase: Phase::Done,
                action: ActionModel::Fail(ErrorModel::StopFailed { name: o.spec_name() }),
            }
        },
        (Phase::DownQueryKnown, EngineEvent::KnownQueried(known)) => if known {
            if o.opts.dry_run {
                StepModel {
                    phase: Phase::Done,
                    action: ActionModel::Finish {
                        code: 0,
                        note: Option::Some(NoteModel::DryRun(seq!["rm"@, o.spec_name()])),
                    },
                }
            } else {
                StepModel {
                    phase: Phase::DownRemoving,
                    action: ActionModel::RemoveContainer(o.spec_name()),
                }
            }
        } else {
            StepModel {
                phase: Phase::Done,
                action: ActionModel::Finish {
                    code: 0,
                    note: Option::Some(NoteModel::NothingToDo(o.spec_name())),
                },
            }
        },
        (Phase::DownRemoving, EngineEvent::RemoveDone(ok)) => if ok {
            StepModel {
                phase: Phase::Done,
                action: ActionModel::Finish {
                    code: 0,
                    note: Option::Some(NoteModel::Removed(o.spec_name())),
                },
            }
        } else {
            StepModel {
                phase: Phase::Done,
                action: ActionModel::Fail(ErrorModel::RemoveFailed { name: o.spec_name() }),
            }
        },
        (Phase::StatusQuery, EngineEvent::InfoQueried(io)) => match io {
            Option::None => StepModel {
                phase: Phase::Done,
                action: ActionModel::Finish {
                    code: 0,
                    note: Option::Some(NoteModel::NotCreated(o.spec_name())),
                },
            },
            Option::Some(info) => StepModel {
                phase: Phase::Done,
                action: ActionModel::Finish {
                    code: 0,
                    note: Option::Some(
                        if info.running {
                            NoteModel::Running(info@)
                        } else {
                            NoteModel::Stopped(info@)
                        },
                    ),
                },
            },
        },
        _ => StepModel {
            phase: Phase::Done,
            action: ActionModel::Fail(ErrorModel::MissingCommand),
        },
    }
}

impl Orchestrator {
    /// The configured container name.
    fn name_clone(&self) -> (r: String)
        requires
            self.cfg.name is Some,
        ensures
            r@ == self.spec_name(),
    {
        match &self.cfg.name {
            Option::Some(n) => n.clone(),
            Option::None => {
                proof {
                    assert(false);
                }
                String::new()
            },
        }
    }

    fn assemble_run(&self) -> (r: Vec<String>)
        ensures
            r.deep_view() == run_args_spec(
                self.cfg@,
                self.opts@,
                self.uid,
                self.gid,
                self.dir@,
                self.command@,
                self.args.deep_view(),
            ),
    {
        assemble_run_args(
            &self.cfg,
            &self.opts,
            self.uid,
            self.gid,
            self.dir.as_str(),
            self.command.as_str(),
            &self.args,
        )
    }

    fn assemble_exec(&self) -> (r: Vec<String>)
        requires
            self.cfg.name is Some,
        ensures
            r.deep_view() == exec_args_spec(
                self.cfg@,
                self.opts@,
                self.uid,
                self.gid,
                self.dir@,
                self.spec_name(),
                self.command@,
                self.args.deep_view(),
            ),
    {
        let name = self.name_clone();
        assemble_exec_args(
            &self.cfg,
            &self.opts,
            self.uid,
            self.gid,
            self.dir.as_str(),
            name.as_str(),
            self.command.as_str(),
            &self.args,
        )
    }

    fn assemble_up(&self) -> (r: Vec<String>)
        requires
            self.cfg.name is Some,
        ensures
            r.deep_view() == up_args_spec(
                self.cfg@,
                self.opts@,
                self.uid,
                self.gid,
                self.dir@,
                self.spec_name(),
            ),
    {
        let name = self.name_clone();
        assemble_up_args(&self.cfg, &self.opts, self.uid, self.gid, self.dir.as_str(), name.as_str())
    }

    fn assemble_build(&self) -> (r: Vec<String>)
        ensures
            r.deep_view() == build_args_spec(
                self.cfg@.image,
                self.cfg@.dockerfile,
                self.cfg@.root_path,
                self.cfg@.workdir_path,
                self.uid,
                self.gid,
                self.username@,
                self.cfg@.build_args,
            ),
    {
        let ident = Identity { uid: self.uid, gid: self.gid, username: self.username.clone() };
        assemble_build_args(&self.cfg, &ident)
    }

    fn after_image(&mut self) -> (a: EngineAction)
        requires
            old(self).wf(),
            old(self).phase == Phase::CheckImage || old(self).phase == Phase::Pulling || old(
                self,
            ).phase == Phase::Building,
        ensures
            final(self).phase == after_image_spec(*old(self)).phase,
            a@ == after_image_spec(*old(self)).action,
            final(self).wf(),
            final(self).cfg == old(self).cfg,
            final(self).opts == old(self).opts,
            final(self).sub == old(self).sub,
            final(self).command == old(self).command,
            final(self).args == old(self).args,
            final(self).dir == old(self).dir,
            final(self).uid == old(self).uid,
            final(self).gid == old(self).gid,
            final(self).username == old(self).username,
            final(self).passthrough == old(self).passthrough,
    {
        match self.sub {
            Subcommand::Up => {
                let args = self.assemble_up();
                self.phase = Phase::AwaitCommand;
                EngineAction::Invoke(args)
            },
            _ => match &self.cfg.name {
                Option::Some(_) => {
                    let name = self.name_clone();
                    self.phase = Phase::QueryRunForExec;
                    EngineAction::QueryRunning(name)
                },
                Option::None => {
                    let args = self.assemble_run();
                    self.phase = Phase::AwaitCommand;
                    EngineAction::Invoke(args)
                },
            },
        }
    }

    /// One transition: takes the outcome of the previous action and returns
    /// the next one. The phase moves and every other field stays; what comes
    /// back is exactly what the transition table says.
    #[verifier::rlimit(100)]
    #[verifier::spinoff_prover]
    pub fn step(&mut self, ev: EngineEvent) -> (a: EngineAction)
        requires
            old(self).wf(),
            old(self).accepts_spec(ev),
        ensures
            final(self).wf(),
            final(self).phase == spec_step(*old(self), ev).phase,
            a@ == spec_step(*old(self), ev).action,
            final(self).cfg == old(self).cfg,
            final(self).opts == old(self).opts,
            final(self).sub == old(self).sub,
            final(self).command == old(self).command,
            final(self).args == old(self).args,
            final(self).dir == old(self).dir,
            final(self).uid == old(self).uid,
            final(self).gid == old(self).gid,
            final(self).username == old(self).username,
            final(self).passthrough == old(self).passthrough,
    {
        match self.phase {
            Phase::Start => self.begin(),
            Phase::CheckImage => {
                let present = match ev {
                    EngineEvent::ImagePresent(p) => p,
                    _ => {
                        proof {
                            assert(false);
                        }
                        false
                    },
                };
                if present {
                    self.after_image()
                } else {
                    self.phase = Phase::Pulling;
                    EngineAction::Pull(self.cfg.image.clone())
                }
            },
            Phase::Pulling => {
                let ok = match ev {
                    EngineEvent::PullDone(p) => p,
                    _ => {
                        proof {
                            assert(false);
                        }
                        false
                    },
                };
                if ok {
                    self.after_image()
                } else {
                    let args = self.assemble_build();
                    self.phase = Phase::Building;
                    EngineAction::Build(args)
                }
            },
            Phase::Building => {
                let ok = match ev {
                    EngineEvent::BuildDone(p) => p,
                    _ => {
                        proof {
                            assert(false);
                        }
                        false
                    },
                };
                if ok {
                    self.after_image()
                } else {
                    self.phase = Phase::Done;
                    EngineAction::Fail(Error::ImageBuildFailed { image: self.cfg.image.clone() })
                }
            },
            Phase::QueryRunForExec => {
                let running = match ev {
                    EngineEvent::RunningQueried(r) => r,
                    _ => {
                        proof {
                            assert(false);
                        }
                        false
                    },
                };
                if self.opts.dry_run {
                    let args = if running {
                        self.assemble_exec()
                    } else {
                        self.assemble_run()
                    };
                    self.phase = Phase::Done;
                    EngineAction::Finish { code: 0, note: Option::Some(Note::DryRun(args)) }
                } else if running {
                    let args = self.assemble_exec();
                    self.phase = Phase::AwaitCommand;
                    EngineAction::Invoke(args)
                } else {
                    let args = self.assemble_run();
                    self.phase = Phase::AwaitCommand;
                    EngineAction::Invoke(args)
                }
            },
            Phase::AwaitCommand => {
                let code = match ev {
                    EngineEvent::CommandDone(c) => c,
                    _ => {
                        proof {
                            assert(false);
                        }
                        Option::None
                    },
                };
                self.phase = Phase::Done;
                EngineAction::Finish {
                    code: match code {
                        Option::Some(c) => c,
                        Option::None => 0,
                    },
                    note: Option::None,
                }
            },
            Phase::UpQueryRunning => {
                let running = match ev {
                    EngineEvent::RunningQueried(r) => r,
                    _ => {
                        proof {
                            assert(false);
                        }
                        false
                    },
                };
                let name = self.name_clone();
                if running {
                    self.phase = Phase::Done;
                    EngineAction::Fail(Error::AlreadyRunning { name })
                } else {
                    self.phase = Phase::UpQueryKnown;
                    EngineAction::QueryKnown(name)
                }
            },
            Phase::UpQueryKnown => {
                let known = match ev {
                    EngineEvent::KnownQueried(k) => k,
                    _ => {
                        proof {
                            assert(false);
                        }
                        false
                    },
                };
                let name = self.name_clone();
                if known {
                    if self.opts.dry_run {
                        let what = vec!["start".to_owned(), name];
                        proof {
                            assert(what.deep_view() =~= seq!["start"@, old(self).spec_name()]);
                        }
                        self.phase = Phase::Done;
                        EngineAction::Finish { code: 0, note: Option::Some(Note::DryRun(what)) }
                    } else {
                        self.phase = Phase::UpStarting;
                        EngineAction::StartContainer(name)
                    }
                } else {
                    if self.opts.dry_run {
                        let args = self.assemble_up();
                        self.phase = Phase::Done;
                        EngineAction::Finish { code: 0, note: Option::Some(Note::DryRun(args)) }
                    } else {
                        self.phase = Phase::CheckImage;
                        EngineAction::QueryImage(self.cfg.image.clone())
                    }
                }
            },
            Phase::UpStarting => {
                let ok = match ev {
                    EngineEvent::StartDone(k) => k,
                    _ => {
                        proof {
                            assert(false);
                        }
                        false
                    },
                };
                let name = self.name_clone();
                self.phase = Phase::Done;
                if ok {
                    EngineAction::Finish { code: 0, note: Option::Some(Note::Started(name)) }
                } else {
                    EngineAction::Fail(Error::StartFailed { name })
                }
            },
            Phase::DownQueryRunning => {
                let running = match ev {
                    EngineEvent::RunningQueried(r) => r,
                    _ => {
                        proof {
                            assert(false);
                        }
                        false
                    },
                };
                let name = self.name_clone();
                if running {
                    if self.opts.dry_run {
                        let what = vec!["stop".to_owned(), name];
                        proof {
                            assert(what.deep_view() =~= seq!["stop"@, old(self).spec_name()]);
                        }
                        self.phase = Phase::Done;
                        EngineAction::Finish { code: 0, note: Option::Some(Note::DryRun(what)) }
                    } else {
                        self.phase = Phase::DownStopping;
                        EngineAction::StopContainer(name)
                    }
                } else {
                    self.phase = Phase::DownQueryKnown;
                    EngineAction::QueryKnown(name)
                }
            },
            Phase::DownStopping => {
                let ok = match ev {
                    EngineEvent::StopDone(k) => k,
                    _ => {
                        proof {
                            assert(false);
                        }
                        false
                    },
                };
                let name = self.name_clone();
                if ok {
                    self.phase = Phase::DownRemoving;
                    EngineAction::RemoveContainer(name)
                } else {
                    self.phase = Phase::Done;
                    EngineAction::Fail(Error::StopFailed { name })
                }
            },
            Phase::DownQueryKnown => {
                let known = match ev {
                    EngineEvent::KnownQueried(k) => k,
                    _ => {
                        proof {
                            assert(false);
                        }
                        false
                    },
                };
                let name = self.name_clone();
                if known {
                    if self.opts.dry_run {
                        let what = vec!["rm".to_owned(), name];
                        proof {
                            assert(what.deep_view() =~= seq!["rm"@, old(self).spec_name()]);
                        }
                        self.phase = Phase::Done;
                        EngineAction::Finish { code: 0, note: Option::Some(Note::DryRun(what)) }
                    } else {
                        self.phase = Phase::DownRemoving;
                        EngineAction::RemoveContainer(name)
                    }
                } else {
                    self.phase = Phase::Done;
                    EngineAction::Finish { code: 0, note: Option::Some(Note::NothingToDo(name)) }
                }
            },
            Phase::DownRemoving => {
                let ok = match ev {
                    EngineEvent::RemoveDone(k) => k,
                    _ => {
                        proof {
                            assert(false);
                        }
                        false
                    },
                };
                let name = self.name_clone();
                self.phase = Phase::Done;
                if ok {
                    EngineAction::Finish { code: 0, note: Option::Some(Note::Removed(name)) }
                } else {
                    EngineAction::Fail(Error::RemoveFailed { name })
                }
            },
            Phase::StatusQuery => {
                let info = match ev {
                    EngineEvent::InfoQueried(io) => io,
                    _ => {
                        proof {
                            assert(false);
                        }
                        Option::None
                    },
                };
                let name = self.name_clone();
                self.phase = Phase::Done;
                match info {
                    Option::None => EngineAction::Finish {
                        code: 0,
                        note: Option::Some(Note::NotCreated(name)),
                    },
                    Option::Some(i) => EngineAction::Finish {
                        code: 0,
                        note: Option::Some(
                            if i.running {
                                Note::Running(i)
                            } else {
                                Note::Stopped(i)
                            },
                        ),
                    },
                }
            },
            Phase::Done => {
                proof {
                    assert(false);
                }
                EngineAction::Fail(Error::MissingCommand)
            },
        }
    }

    fn begin(&mut self) -> (a: EngineAction)
        requires
            old(self).wf(),
            old(self).phase == Phase::Start,
        ensures
            final(self).phase == begin_spec(*old(self)).phase,
            a@ == begin_spec(*old(self)).action,
            final(self).wf(),
            final(self).cfg == old(self).cfg,
            final(self).opts == old(self).opts,
            final(self).sub == old(self).sub,
            final(self).command == old(self).command,
            final(self).args == old(self).args,
            final(self).dir == old(self).dir,
            final(self).uid == old(self).uid,
            final(self).gid == old(self).gid,
            final(self).username == old(self).username,
            final(self).passthrough == old(self).passthrough,
    {
        match self.sub {
            Subcommand::Up => {
                if self.cfg.name.is_none() {
                    self.phase = Phase::Done;
                    EngineAction::Fail(Error::NameRequired { subcommand: "up".to_owned() })
                } else if self.passthrough {
                    self.phase = Phase::Done;
                    EngineAction::Fail(Error::InsideContainer { subcommand: "up".to_owned() })
                } else {
                    let name = self.name_clone();
                    self.phase = Phase::UpQueryRunning;
                    EngineAction::QueryRunning(name)
                }
            },
            Subcommand::Down => {
                if self.cfg.name.is_none() {
                    self.phase = Phase::Done;
                    EngineAction::Fail(Error::NameRequired { subcommand: "down".to_owned() })
                } else if self.passthrough {
                    self.phase = Phase::Done;
                    EngineAction::Fail(Error::InsideContainer { subcommand: "down".to_owned() })
                } else {
                    let name = self.name_clone();
                    self.phase = Phase::DownQueryRunning;
                    EngineAction::QueryRunning(name)
                }
            },
            Subcommand::Status => {
                if self.cfg.name.is_none() {
                    self.phase = Phase::Done;
                    EngineAction::Fail(Error::NameRequired { subcommand: "status".to_owned() })
                } else if self.passthrough {
                    self.phase = Phase::Done;
                    EngineAction::Finish { code: 0, note: Option::Some(Note::InsideContainer) }
                } else {
                    let name = self.name_clone();
                    self.phase = Phase::StatusQuery;
                    EngineAction::QueryInfo(name)
                }
            },
            _ => {
                if self.opts.dry_run {
                    match &self.cfg.name {
                        Option::Some(_) => {
                            let name = self.name_clone();
                            self.phase = Phase::QueryRunForExec;
                            EngineAction::QueryRunning(name)
                        },
                        Option::None => {
                            let args = self.assemble_run();
                            self.phase = Phase::Done;
                            EngineAction::Finish {
                                code: 0,
                                note: Option::Some(Note::DryRun(args)),
                            }
                        },
                    }
                } else {
                    self.phase = Phase::CheckImage;
                    EngineAction::QueryImage(self.cfg.image.clone())
                }
            },
        }
    }
}

/// The string forms read as "yes" by the passthrough override, case folded.
pub open spec fn truthy_spec(s: Seq<char>) -> bool {
    lower_spec(s) == "1"@ || lower_spec(s) == "true"@ || lower_spec(s) == "yes"@ || lower_spec(s)
        == "on"@
}

/// The string forms read as "no" by the passthrough override, case folded.
pub open spec fn falsy_spec(s: Seq<char>) -> bool {
    lower_spec(s) == "0"@ || lower_spec(s) == "false"@ || lower_spec(s) == "no"@ || lower_spec(s)
        == "off"@
}

proof fn lemma_plain_lower(s: Seq<char>)
    requires
        forall|i: int| 0 <= i < s.len() ==> !('A' <= #[trigger] s[i] && s[i] <= 'Z'),
    ensures
        lower_spec(s) == s,
{
    assert(lower_spec(s) =~= s);
}

fn truthy(s: &str) -> (r: bool)
    ensures
        r == truthy_spec(s@),
{
    proof {
        reveal_strlit("1");
        reveal_strlit("true");
        reveal_strlit("yes");
        reveal_strlit("on");
        lemma_plain_lower("1"@);
        lemma_plain_lower("true"@);
        lemma_plain_lower("yes"@);
        lemma_plain_lower("on"@);
    }
    eq_ignore_ascii_case(s, "1") || eq_ignore_ascii_case(s, "true") || eq_ignore_ascii_case(
        s,
        "yes",
    ) || eq_ignore_ascii_case(s, "on")
}

fn falsy(s: &str) -> (r: bool)
    ensures
        r == falsy_spec(s@),
{
    proof {
        reveal_strlit("0");
        reveal_strlit("false");
        reveal_strlit("no");
        reveal_strlit("off");
        lemma_plain_lower("0"@);
        lemma_plain_lower("false"@);
        lemma_plain_lower("no"@);
        lemma_plain_lower("off"@);
    }
    eq_ignore_ascii_case(s, "0") || eq_ignore_ascii_case(s, "false") || eq_ignore_ascii_case(
        s,
        "no",
    ) || eq_ignore_ascii_case(s, "off")
}

/// Whether the launcher is already inside a container: the explicit override
/// variable decides when it holds a recognized form, any other value falls
/// through to the two engine marker files.
pub open spec fn passthrough_spec(
    override_value: Option<Seq<char>>,
    primary_marker: bool,
    secondary_marker: bool,
) -> bool {
    match override_value {
        Option::Some(s) => if truthy_spec(s) {
            true
        } else if falsy_spec(s) {
            false
        } else {
            primary_marker || secondary_marker
        },
        Option::None => primary_marker || secondary_marker,
    }
}

/// Decides passthrough from the override variable's value and the presence
/// of the engines' marker files.
pub fn detect_passthrough(
    override_value: Option<&str>,
    primary_marker: bool,
    secondary_marker: bool,
) -> (r: bool)
    ensures
        r == passthrough_spec(
            match override_value {
                Option::Some(s) => Option::Some(s@),
                Option::None => Option::None,
            },
            primary_marker,
            secondary_marker,
        ),
{
    match override_value {
        Option::Some(s) => {
            if truthy(s) {
                true
            } else if falsy(s) {
                false
            } else {
                primary_marker || secondary_marker
            }
        },
        Option::None => primary_marker || secondary_marker,
    }
}

/// How a passthrough invocation replaces the launcher: the target command,
/// its arguments untouched, and only the `-e`-sourced environment applied.
/// The engine is never consulted.
#[derive(Debug)]
pub struct ExecPlan {
    pub command: String,
    pub args: Vec<String>,
    pub env: Vec<String>,
}

/// The plan for a passthrough execution.
pub fn passthrough_plan(command: &str, args: &Vec<String>, opts: &GlobalOptions) -> (r: ExecPlan)
    ensures
        r.command@ == command@,
        r.args.deep_view() == args.deep_view(),
        r.env.deep_view() == opts@.cli_env_variables,
{
    ExecPlan {
        command: command.to_owned(),
        args: args.clone(),
        env: opts.cli_env_variables.clone(),
    }
}

/// The command the `shell` subcommand executes: the configured default
/// shell, or plain `sh` when none is declared.
pub fn shell_command(c: &Configuration) -> (r: String)
    ensures
        (match c@.default_shell {
            Option::Some(s) => r@ == s,
            Option::None => r@ == "sh"@,
        }),
{
    match &c.default_shell {
        Option::Some(s) => s.clone(),
        Option::None => "sh".to_owned(),
    }
}

/// A container snapshot from the fields of one engine listing line; the
/// container counts as running exactly when its status starts with `Up`.
pub fn make_container_info(
    name: String,
    status: String,
    image: String,
    created: String,
    ports: String,
) -> (r: ContainerInfo)
    ensures
        r@.name == name@,
        r@.status == status@,
        r@.running == "Up"@.is_prefix_of(status@),
        r@.image == image@,
        r@.created == created@,
        r@.ports == ports@,
{
    let running = str_starts_with(status.as_str(), "Up");
    ContainerInfo { name, status, running, image, created, ports }
}

} // verus!
