use vstd::prelude::*;
use vstd::string::*;
use std::collections::BTreeMap;

verus! {

/// A version as the catalog publishes it. Versions are only ever compared for
/// equality: any difference is drift.
pub type SteamVersion = u64;

/// What is done to a container when its catalog entry moves.
#[derive(Debug, PartialEq, Eq)]
pub enum UpdateAction {
    /// Build an image from a context directory, then restart on it.
    DockerBuild { context_path: String },
    /// Restart the container; its entrypoint updates it.
    DockerRestart,
    /// Pull `image:tag`, then restart on it.
    DockerPull { image: String, tag: String },
    /// Run an operator-supplied command in a working directory.
    Custom { chdir: String, command: String },
}

/// One request to the container runtime.
#[derive(Debug, PartialEq, Eq)]
pub enum RuntimeOp {
    Restart { container: String },
    Pull { image: String, tag: String },
    Build { context_path: String },
    Run { chdir: String, command: String },
}

/// Where a container stands in its lifetime within this process.
#[derive(Clone, Copy, Debug, PartialEq, Eq, Structural)]
pub enum Tracking {
    /// Not bootstrapped; its snapshot has not been looked for yet.
    Fresh,
    /// No snapshot exists and no seed has been recorded yet.
    Unseeded,
    /// `current_version` holds the version reflected in the running container.
    Watched,
    /// Its snapshot could not be read: it is left alone until the next start.
    Excluded,
}

/// The external answer a container is waiting for, if any.
#[derive(Clone, Copy, Debug, PartialEq, Eq, Structural)]
pub enum Phase {
    Idle,
    /// Waiting for the snapshot to be loaded.
    Loading,
    /// Waiting for the catalog version to seed from.
    Seeding,
    /// Waiting for the seed to be persisted.
    SavingSeed,
    /// Waiting for the catalog version to compare against.
    Fetching,
    /// Drift to `observed` found; waiting to learn whether the container runs.
    Inspecting { observed: SteamVersion },
    /// Running step `step` of the action's plan, to reach `observed`.
    Acting { observed: SteamVersion, step: usize },
    /// The action is done; waiting for the new version to be persisted.
    SavingUpdate { prior: SteamVersion },
}

/// An answer from outside, handed to `Container::step`.
#[derive(Clone, Copy, Debug, PartialEq, Eq, Structural)]
pub enum Event {
    SnapshotFound(SteamVersion),
    SnapshotMissing,
    SnapshotCorrupt,
    VersionFetched(SteamVersion),
    VersionUnavailable,
    Running(bool),
    RuntimeUnavailable,
    ActionDone,
    ActionFailed,
    Saved,
    SaveFailed,
}

/// Why a pass ended without reaching its goal.
#[derive(Clone, Copy, Debug, PartialEq, Eq, Structural)]
pub enum Failure {
    /// The catalog could not be asked.
    Oracle,
    /// The runtime could not say whether the container runs.
    Runtime,
    /// A step of the action failed.
    Action,
    /// The state record could not be written.
    Persist,
    /// The state record could not be read; the container is excluded.
    Corrupt,
    /// The event does not answer what the container was waiting for.
    OutOfOrder,
}

/// How a pass over one container ended.
#[derive(Clone, Copy, Debug, PartialEq, Eq, Structural)]
pub enum Outcome {
    UpToDate,
    Updated,
    /// Drift was found but the container is not running.
    Skipped,
    Failed(Failure),
}

/// What the caller is to do next for a container.
#[derive(Debug, PartialEq, Eq)]
pub enum Command {
    /// Load the container's state record and answer with a `Snapshot*` event.
    LoadSnapshot,
    /// Ask the catalog for this id and answer with `VersionFetched` or `VersionUnavailable`.
    FetchVersion(u64),
    /// Ask the runtime whether this container runs.
    CheckRunning(String),
    /// Perform this runtime operation and answer `ActionDone` or `ActionFailed`.
    Act(RuntimeOp),
    /// Persist the container's state record and answer `Saved` or `SaveFailed`.
    Save,
    /// The pass is over.
    Finish(Outcome),
}

/// A watched container: its descriptor and its reconciliation state.
pub struct Container {
    pub name: String,
    pub appid: u64,
    pub current_version: SteamVersion,
    pub action: UpdateAction,
    pub options: BTreeMap<String, String>,
    pub tracking: Tracking,
    pub phase: Phase,
}

/// The runtime operations that carry out `action` on the container `name`, in
/// order. All of them must succeed for the action to count.
pub open spec fn plan_of(action: UpdateAction, name: String) -> Seq<RuntimeOp> {
    match action {
        UpdateAction::DockerRestart => seq![RuntimeOp::Restart { container: name }],
        UpdateAction::DockerPull { image, tag } => seq![
            RuntimeOp::Pull { image, tag },
            RuntimeOp::Restart { container: name },
        ],
        UpdateAction::DockerBuild { context_path } => seq![
            RuntimeOp::Build { context_path },
            RuntimeOp::Restart { container: name },
        ],
        UpdateAction::Custom { chdir, command } => seq![RuntimeOp::Run { chdir, command }],
    }
}

/// The state record's path for container `name` under directory `dir`.
pub open spec fn save_path(dir: Seq<char>, name: Seq<char>) -> Seq<char> {
    let file = name + ".json"@;
    if dir.len() == 0 {
        file
    } else if dir.last() == '/' {
        dir + file
    } else {
        dir + "/"@ + file
    }
}

/// The state and the last command after starting a pass on `c` and feeding it
/// `events` in order.
pub open spec fn run(c: Container, events: Seq<Event>) -> (Container, Command)
    decreases events.len(),
{
    if events.len() == 0 {
        c.begin()
    } else {
        run(c, events.drop_last()).0.transition(events.last())
    }
}

impl Container {
    pub open spec fn plan(self) -> Seq<RuntimeOp> {
        plan_of(self.action, self.name)
    }

    /// The phase agrees with the tracking state, and a running action is within its plan.
    pub open spec fn wf(self) -> bool {
        match self.phase {
            Phase::Idle => true,
            Phase::Loading => self.tracking is Fresh,
            Phase::Seeding | Phase::SavingSeed => self.tracking is Unseeded,
            Phase::Acting { step, .. } => self.tracking is Watched && step < self.plan().len(),
            _ => self.tracking is Watched,
        }
    }

    pub open spec fn moved(self, tracking: Tracking, phase: Phase, version: SteamVersion) -> Container {
        Container { tracking, phase, current_version: version, ..self }
    }

    pub open spec fn in_phase(self, phase: Phase) -> Container {
        self.moved(self.tracking, phase, self.current_version)
    }

    /// The state after abandoning the pass in flight: back to idle, with the
    /// version the pass started from.
    pub open spec fn halted(self) -> Container {
        match self.phase {
            Phase::SavingUpdate { prior } => self.moved(self.tracking, Phase::Idle, prior),
            _ => self.in_phase(Phase::Idle),
        }
    }

    /// Starting a pass on a tick: bootstrap what is not bootstrapped yet,
    /// reconcile what is tracked, leave excluded containers alone.
    pub open spec fn begin(self) -> (Container, Command) {
        if !(self.phase is Idle) {
            (self, Command::Finish(Outcome::Failed(Failure::OutOfOrder)))
        } else {
            match self.tracking {
                Tracking::Fresh => (self.in_phase(Phase::Loading), Command::LoadSnapshot),
                Tracking::Unseeded => (self.in_phase(Phase::Seeding), Command::FetchVersion(self.appid)),
                Tracking::Watched => (self.in_phase(Phase::Fetching), Command::FetchVersion(self.appid)),
                Tracking::Excluded => (self, Command::Finish(Outcome::Failed(Failure::Corrupt))),
            }
        }
    }

    /// The reaction to `event`: the next state and the next command.
    ///
    /// A seed taken from the catalog is persisted before the container counts
    /// as watched, so that a restart before any drift finds it; a pass that
    /// fails leaves the tracked version where the pass found it.
    pub open spec fn transition(self, event: Event) -> (Container, Command) {
        let v = self.current_version;
        match (self.phase, event) {
            (Phase::Loading, Event::SnapshotFound(saved)) => (
                self.moved(Tracking::Watched, Phase::Fetching, saved),
                Command::FetchVersion(self.appid),
            ),
            (Phase::Loading, Event::SnapshotMissing) => (
                self.moved(Tracking::Unseeded, Phase::Seeding, v),
                Command::FetchVersion(self.appid),
            ),
            (Phase::Loading, Event::SnapshotCorrupt) => (
                self.moved(Tracking::Excluded, Phase::Idle, v),
                Command::Finish(Outcome::Failed(Failure::Corrupt)),
            ),
            (Phase::Seeding, Event::VersionFetched(seed)) => (
                self.moved(self.tracking, Phase::SavingSeed, seed),
                Command::Save,
            ),
            (Phase::Seeding, Event::VersionUnavailable) => (
                self.in_phase(Phase::Idle),
                Command::Finish(Outcome::Failed(Failure::Oracle)),
            ),
            (Phase::SavingSeed, Event::Saved) => (
                self.moved(Tracking::Watched, Phase::Fetching, v),
                Command::FetchVersion(self.appid),
            ),
            (Phase::SavingSeed, Event::SaveFailed) => (
                self.in_phase(Phase::Idle),
                Command::Finish(Outcome::Failed(Failure::Persist)),
            ),
            (Phase::Fetching, Event::VersionFetched(latest)) => if latest == v {
                (self.in_phase(Phase::Idle), Command::Finish(Outcome::UpToDate))
            } else {
                (
                    self.in_phase(Phase::Inspecting { observed: latest }),
                    Command::CheckRunning(self.name),
                )
            },
            (Phase::Fetching, Event::VersionUnavailable) => (
                self.in_phase(Phase::Idle),
                Command::Finish(Outcome::Failed(Failure::Oracle)),
            ),
            (Phase::Inspecting { observed }, Event::Running(running)) => if running {
                (
                    self.in_phase(Phase::Acting { observed, step: 0 }),
                    Command::Act(self.plan()[0]),
                )
            } else {
                (self.in_phase(Phase::Idle), Command::Finish(Outcome::Skipped))
            },
            (Phase::Inspecting { .. }, Event::RuntimeUnavailable) => (
                self.in_phase(Phase::Idle),
                Command::Finish(Outcome::Failed(Failure::Runtime)),
            ),
            (Phase::Acting { observed, step }, Event::ActionDone) => if step + 1 < self.plan().len() {
                (
                    self.in_phase(Phase::Acting { observed, step: (step + 1) as usize }),
                    Command::Act(self.plan()[step + 1]),
                )
            } else {
                (
                    self.moved(self.tracking, Phase::SavingUpdate { prior: v }, observed),
                    Command::Save,
                )
            },
            (Phase::Acting { .. }, Event::ActionFailed) => (
                self.in_phase(Phase::Idle),
                Command::Finish(Outcome::Failed(Failure::Action)),
            ),
            (Phase::SavingUpdate { .. }, Event::Saved) => (
                self.in_phase(Phase::Idle),
                Command::Finish(Outcome::Updated),
            ),
            (Phase::SavingUpdate { prior }, Event::SaveFailed) => (
                self.moved(self.tracking, Phase::Idle, prior),
                Command::Finish(Outcome::Failed(Failure::Persist)),
            ),
            _ => (self.halted(), Command::Finish(Outcome::Failed(Failure::OutOfOrder))),
        }
    }
}

impl Container {
    /// A container as configured: not bootstrapped, with no pass in flight.
    pub fn new(name: String, appid: u64, action: UpdateAction, options: BTreeMap<String, String>) -> (r: Container)
        ensures
            r.name == name,
            r.appid == appid,
            r.action == action,
            r.options == options,
            r.current_version == 0,
            r.tracking == Tracking::Fresh,
            r.phase == Phase::Idle,
            r.wf(),
    {
        Container {
            name,
            appid,
            current_version: 0,
            action,
            options,
            tracking: Tracking::Fresh,
            phase: Phase::Idle,
        }
    }

    /// Step `step` of the action's plan, if the plan has that many steps.
    pub fn plan_op(&self, step: usize) -> (r: Option<RuntimeOp>)
        ensures
            step < self.plan().len() ==> r == Some(self.plan()[step as int]),
            step >= self.plan().len() ==> r is None,
    {
        match &self.action {
            UpdateAction::DockerRestart => if step == 0 {
                Some(RuntimeOp::Restart { container: self.name.clone() })
            } else {
                None
            },
            UpdateAction::DockerPull { image, tag } => if step == 0 {
                Some(RuntimeOp::Pull { image: image.clone(), tag: tag.clone() })
            } else if step == 1 {
                Some(RuntimeOp::Restart { container: self.name.clone() })
            } else {
                None
            },
            UpdateAction::DockerBuild { context_path } => if step == 0 {
                Some(RuntimeOp::Build { context_path: context_path.clone() })
            } else if step == 1 {
                Some(RuntimeOp::Restart { container: self.name.clone() })
            } else {
                None
            },
            UpdateAction::Custom { chdir, command } => if step == 0 {
                Some(RuntimeOp::Run { chdir: chdir.clone(), command: command.clone() })
            } else {
                None
            },
        }
    }

    /// The path of this container's state record under `dir`: `<name>.json`
    /// joined to the directory.
    pub fn get_save_path(&self, dir: &String) -> (r: String)
        ensures
            r@ == save_path(dir@, self.name@),
    {
        let mut file = self.name.clone();
        file.append(".json");
        let n = dir.as_str().unicode_len();
        if n == 0 {
            file
        } else {
            let mut path = dir.clone();
            if dir.as_str().get_char(n - 1) != '/' {
                path.append("/");
            }
            path.append(file.as_str());
            proof {
                assert(path@ =~= save_path(dir@, self.name@));
            }
            path
        }
    }

    /// Starts a pass for this tick; see `begin`.
    pub fn update(&mut self) -> (cmd: Command)
        ensures
            (*final(self), cmd) == old(self).begin(),
    {
        match self.phase {
            Phase::Idle => match self.tracking {
                Tracking::Fresh => {
                    self.phase = Phase::Loading;
                    Command::LoadSnapshot
                },
                Tracking::Unseeded => {
                    self.phase = Phase::Seeding;
                    Command::FetchVersion(self.appid)
                },
                Tracking::Watched => {
                    self.phase = Phase::Fetching;
                    Command::FetchVersion(self.appid)
                },
                Tracking::Excluded => Command::Finish(Outcome::Failed(Failure::Corrupt)),
            },
            _ => Command::Finish(Outcome::Failed(Failure::OutOfOrder)),
        }
    }

    /// Starts bootstrapping a container that has not been bootstrapped: its
    /// state record is to be loaded first.
    pub fn init(&mut self) -> (cmd: Command)
        ensures
            (*final(self), cmd) == (if old(self).tracking is Fresh {
                old(self).begin()
            } else {
                (*old(self), Command::Finish(Outcome::Failed(Failure::OutOfOrder)))
            }),
    {
        match self.tracking {
            Tracking::Fresh => self.update(),
            _ => Command::Finish(Outcome::Failed(Failure::OutOfOrder)),
        }
    }

    fn halt(&mut self) -> (cmd: Command)
        ensures
            *final(self) == old(self).halted(),
            cmd == Command::Finish(Outcome::Failed(Failure::OutOfOrder)),
    {
        match self.phase {
            Phase::SavingUpdate { prior } => {
                self.current_version = prior;
            },
            _ => {},
        }
        self.phase = Phase::Idle;
        Command::Finish(Outcome::Failed(Failure::OutOfOrder))
    }

    fn finish(&mut self, outcome: Outcome) -> (cmd: Command)
        ensures
            *final(self) == old(self).in_phase(Phase::Idle),
            cmd == Command::Finish(outcome),
    {
        self.phase = Phase::Idle;
        Command::Finish(outcome)
    }

    /// Reacts to the answer to the last command; see `transition`.
    pub fn step(&mut self, event: Event) -> (cmd: Command)
        ensures
            (*final(self), cmd) == old(self).transition(event),
    {
        match (self.phase, event) {
            (Phase::Loading, Event::SnapshotFound(saved)) => {
                self.tracking = Tracking::Watched;
                self.phase = Phase::Fetching;
                self.current_version = saved;
                Command::FetchVersion(self.appid)
            },
            (Phase::Loading, Event::SnapshotMissing) => {
                self.tracking = Tracking::Unseeded;
                self.phase = Phase::Seeding;
                Command::FetchVersion(self.appid)
            },
            (Phase::Loading, Event::SnapshotCorrupt) => {
                self.tracking = Tracking::Excluded;
                self.finish(Outcome::Failed(Failure::Corrupt))
            },
            (Phase::Seeding, Event::VersionFetched(seed)) => {
                self.phase = Phase::SavingSeed;
                self.current_version = seed;
                Command::Save
            },
            (Phase::Seeding, Event::VersionUnavailable) => self.finish(
                Outcome::Failed(Failure::Oracle),
            ),
            (Phase::SavingSeed, Event::Saved) => {
                self.tracking = Tracking::Watched;
                self.phase = Phase::Fetching;
                Command::FetchVersion(self.appid)
            },
            (Phase::SavingSeed, Event::SaveFailed) => self.finish(
                Outcome::Failed(Failure::Persist),
            ),
            (Phase::Fetching, Event::VersionFetched(latest)) => {
                if latest == self.current_version {
                    self.finish(Outcome::UpToDate)
                } else {
                    self.phase = Phase::Inspecting { observed: latest };
                    Command::CheckRunning(self.name.clone())
                }
            },
            (Phase::Fetching, Event::VersionUnavailable) => self.finish(
                Outcome::Failed(Failure::Oracle),
            ),
            (Phase::Inspecting { observed }, Event::Running(running)) => {
                if running {
                    match self.plan_op(0) {
                        Some(op) => {
                            self.phase = Phase::Acting { observed, step: 0 };
                            Command::Act(op)
                        },
                        None => {
                            proof {
                                assert(self.plan().len() > 0);
                            }
                            self.halt()
                        },
                    }
                } else {
                    self.finish(Outcome::Skipped)
                }
            },
            (Phase::Inspecting { .. }, Event::RuntimeUnavailable) => self.finish(
                Outcome::Failed(Failure::Runtime),
            ),
            (Phase::Acting { observed, step }, Event::ActionDone) => {
                let next = if step < usize::MAX {
                    self.plan_op(step + 1)
                } else {
                    None
                };
                match next {
                    Some(op) => {
                        self.phase = Phase::Acting { observed, step: step + 1 };
                        Command::Act(op)
                    },
                    None => {
                        self.phase = Phase::SavingUpdate { prior: self.current_version };
                        self.current_version = observed;
                        Command::Save
                    },
                }
            },
            (Phase::Acting { .. }, Event::ActionFailed) => self.finish(
                Outcome::Failed(Failure::Action),
            ),
            (Phase::SavingUpdate { .. }, Event::Saved) => self.finish(Outcome::Updated),
            (Phase::SavingUpdate { prior }, Event::SaveFailed) => {
                self.current_version = prior;
                self.finish(Outcome::Failed(Failure::Persist))
            },
            _ => self.halt(),
        }
    }
}

} // verus!
