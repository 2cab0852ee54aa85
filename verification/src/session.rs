//! The run of the launcher as a sequence of orders and answers. The session
//! decides; the caller touches the machine. Each order names one effect, the
//! caller carries it out and reports what came of it, and the session answers
//! with the next order, until it orders the stop.
//!
//! The sequence is fixed: make sure that the configuration directory and its
//! two files exist, read both files, write the start-up script, start the
//! session program. The first failure ends the run; nothing is undone.

use vstd::prelude::*;
use vstd::string::StringExecFns;
use crate::documents::{
    envs_document, envs_outcome, fault_cause, parse_envs, parse_services, render_envs,
    render_services, rendered_outcome, services_document, services_outcome,
};
use crate::envs::{default_envs, default_variables, Envs};
use crate::error::{LaunchError, LaunchErrorView};
use crate::model::{default_services, ServiceFile, ServiceView};
use crate::orders::{
    launch_action, spawn_order, write_action, write_outcome, Action, ActionView, Event, EventView,
    FILE_MODE,
};
use crate::paths::{
    config_dir_from, config_dir_outcome, current_user, join_with_tail, joined_text, parent_of,
    path_result_view, UserLookup,
};
use crate::script::{generate_script, script_text};
use crate::settings::{Settings, SettingsView};
use crate::values::{rendered_text, toml_document};

verus! {

/// The order whose answer a session waits for.
#[derive(Debug, Clone, Copy, PartialEq, Eq)]
pub enum Stage {
    /// Does the configuration directory exist?
    Probing,
    /// The configuration directory is being made.
    MakingDir,
    /// The services document is being created, if it is missing.
    CreatingServices,
    /// The new services document is being filled with its default.
    SeedingServices,
    /// The environment document is being created, if it is missing.
    CreatingEnvs,
    /// The new environment document is being filled with its default.
    SeedingEnvs,
    /// The services document is being read.
    ReadingServices,
    /// The environment document is being read.
    ReadingEnvs,
    /// The start-up script is being written.
    WritingScript,
    /// The session program is being started.
    Spawning,
    /// The run is over.
    Stopped,
}

/// A run in progress.
#[derive(Debug)]
pub struct Session {
    settings: Settings,
    dir: String,
    services_path: String,
    envs_path: String,
    stage: Stage,
    services: ServiceFile,
    envs: Envs,
    failure: Option<LaunchError>,
}

/// What a [`Session`] is to a contract.
pub struct SessionView {
    /// The places of the run.
    pub settings: SettingsView,
    /// The configuration directory.
    pub dir: Seq<char>,
    /// The order whose answer is awaited.
    pub stage: Stage,
    /// The services that were read; none before that.
    pub services: Seq<ServiceView>,
    /// The variables that were read; none before that.
    pub envs: Map<Seq<char>, Seq<char>>,
    /// The error that ended the run, if one did.
    pub failure: Option<LaunchErrorView>,
}

/// The name of the services document in the configuration directory.
pub open spec fn services_name() -> Seq<char> {
    "services"@
}

/// The name of the environment document in the configuration directory.
pub open spec fn envs_name() -> Seq<char> {
    "envs"@
}

/// The path of the services document of a session.
pub open spec fn services_path(session: SessionView) -> Seq<char> {
    joined_text(session.dir, services_name())
}

/// The path of the environment document of a session.
pub open spec fn envs_path(session: SessionView) -> Seq<char> {
    joined_text(session.dir, envs_name())
}

/// The cause that is reported for an answer that does not fit the order.
pub open spec fn unexpected_cause() -> Seq<char> {
    "the answer does not fit the order"@
}

/// The cause that an answer other than the awaited one is reported with: its
/// own text where it is a failure.
pub open spec fn event_cause(event: EventView) -> Seq<char> {
    match event {
        EventView::Failed(cause) => cause,
        _ => unexpected_cause(),
    }
}

/// The session stopped by `error`, and the order that says so.
pub open spec fn stopped_by(session: SessionView, error: LaunchErrorView) -> (
    SessionView,
    ActionView,
) {
    (
        SessionView { stage: Stage::Stopped, failure: Some(error), ..session },
        ActionView::Stop { outcome: Err(error) },
    )
}

/// The session at a further stage, and the order that it gives there.
pub open spec fn moved_to(session: SessionView, stage: Stage, order: ActionView) -> (
    SessionView,
    ActionView,
) {
    (SessionView { stage: stage, ..session }, order)
}

/// The session that goes on to write `text` to `path` and waits at `stage`,
/// or the session stopped where `path` lies in no directory.
pub open spec fn writing(session: SessionView, stage: Stage, path: Seq<char>, text: Seq<char>) -> (
    SessionView,
    ActionView,
) {
    match write_outcome(path, text) {
        Ok(order) => moved_to(session, stage, order),
        Err(error) => stopped_by(session, error),
    }
}

/// The session that goes on to fill a new file at `path` with the document
/// `document` and waits at `stage`, or the session stopped with the writer's
/// cause where the writer refuses the document.
pub open spec fn seeding(
    session: SessionView,
    stage: Stage,
    path: Seq<char>,
    document: Result<Seq<char>, Seq<char>>,
) -> (SessionView, ActionView) {
    match document {
        Ok(text) => writing(session, stage, path, text),
        Err(cause) => stopped_by(session, LaunchErrorView::Io { path: path, cause: cause }),
    }
}

/// The order that ends every answer of a stopped session.
pub open spec fn last_order(session: SessionView) -> ActionView {
    ActionView::Stop {
        outcome: match session.failure {
            Some(error) => Err(error),
            None => Ok(()),
        },
    }
}

/// The whole rule of a run: the session after an answer, and its next order.
pub open spec fn step_of(session: SessionView, event: EventView) -> (SessionView, ActionView) {
    let services_file = services_path(session);
    let envs_file = envs_path(session);
    match session.stage {
        Stage::Probing => match event {
            EventView::Present(true) => moved_to(
                session,
                Stage::CreatingServices,
                ActionView::CreateNew { path: services_file },
            ),
            EventView::Present(false) => moved_to(
                session,
                Stage::MakingDir,
                ActionView::MakeDir { path: session.dir },
            ),
            _ => stopped_by(
                session,
                LaunchErrorView::Io { path: session.dir, cause: event_cause(event) },
            ),
        },
        Stage::MakingDir => match event {
            EventView::Done => moved_to(
                session,
                Stage::CreatingServices,
                ActionView::CreateNew { path: services_file },
            ),
            _ => stopped_by(
                session,
                LaunchErrorView::Io { path: session.dir, cause: event_cause(event) },
            ),
        },
        Stage::CreatingServices => match event {
            EventView::Done => seeding(
                session,
                Stage::SeedingServices,
                services_file,
                rendered_outcome(rendered_text(services_document(default_services()))),
            ),
            EventView::Exists => moved_to(
                session,
                Stage::CreatingEnvs,
                ActionView::CreateNew { path: envs_file },
            ),
            _ => stopped_by(
                session,
                LaunchErrorView::Io { path: services_file, cause: event_cause(event) },
            ),
        },
        Stage::SeedingServices => match event {
            EventView::Done => moved_to(
                session,
                Stage::CreatingEnvs,
                ActionView::CreateNew { path: envs_file },
            ),
            _ => stopped_by(
                session,
                LaunchErrorView::Io { path: services_file, cause: event_cause(event) },
            ),
        },
        Stage::CreatingEnvs => match event {
            EventView::Done => seeding(
                session,
                Stage::SeedingEnvs,
                envs_file,
                rendered_outcome(rendered_text(envs_document(default_variables()))),
            ),
            EventView::Exists => moved_to(
                session,
                Stage::ReadingServices,
                ActionView::Read { path: services_file },
            ),
            _ => stopped_by(
                session,
                LaunchErrorView::Io { path: envs_file, cause: event_cause(event) },
            ),
        },
        Stage::SeedingEnvs => match event {
            EventView::Done => moved_to(
                session,
                Stage::ReadingServices,
                ActionView::Read { path: services_file },
            ),
            _ => stopped_by(
                session,
                LaunchErrorView::Io { path: envs_file, cause: event_cause(event) },
            ),
        },
        Stage::ReadingServices => match event {
            EventView::Text(text) => match services_outcome(toml_document(text)) {
                Ok(services) => moved_to(
                    SessionView { services: services, ..session },
                    Stage::ReadingEnvs,
                    ActionView::Read { path: envs_file },
                ),
                Err(fault) => stopped_by(
                    session,
                    LaunchErrorView::ConfigParse { path: services_file, cause: fault_cause(fault) },
                ),
            },
            _ => stopped_by(
                session,
                LaunchErrorView::ConfigRead { path: services_file, cause: event_cause(event) },
            ),
        },
        Stage::ReadingEnvs => match event {
            EventView::Text(text) => match envs_outcome(toml_document(text)) {
                Ok(envs) => writing(
                    SessionView { envs: envs, ..session },
                    Stage::WritingScript,
                    session.settings.script_path,
                    script_text(session.services),
                ),
                Err(fault) => stopped_by(
                    session,
                    LaunchErrorView::ConfigParse { path: envs_file, cause: fault_cause(fault) },
                ),
            },
            _ => stopped_by(
                session,
                LaunchErrorView::ConfigRead { path: envs_file, cause: event_cause(event) },
            ),
        },
        Stage::WritingScript => match event {
            EventView::Done => moved_to(
                session,
                Stage::Spawning,
                spawn_order(session.settings, session.envs),
            ),
            _ => stopped_by(
                session,
                LaunchErrorView::Io {
                    path: session.settings.script_path,
                    cause: event_cause(event),
                },
            ),
        },
        Stage::Spawning => match event {
            EventView::Done => (
                SessionView { stage: Stage::Stopped, failure: None, ..session },
                ActionView::Stop { outcome: Ok(()) },
            ),
            _ => stopped_by(
                session,
                LaunchErrorView::Spawn { program: session.settings.target, cause: event_cause(event) },
            ),
        },
        Stage::Stopped => (session, last_order(session)),
    }
}

/// The session of a run that begins, and its first order: to look for the
/// configuration directory, or to stop where the directory is not known.
pub open spec fn start_of(settings: SettingsView, located: Result<Seq<char>, LaunchErrorView>) -> (
    SessionView,
    ActionView,
) {
    match located {
        Ok(dir) => (
            SessionView {
                settings: settings,
                dir: dir,
                stage: Stage::Probing,
                services: Seq::empty(),
                envs: Map::empty(),
                failure: None,
            },
            ActionView::ProbeDir { path: dir },
        ),
        Err(error) => (
            SessionView {
                settings: settings,
                dir: Seq::empty(),
                stage: Stage::Stopped,
                services: Seq::empty(),
                envs: Map::empty(),
                failure: Some(error),
            },
            ActionView::Stop { outcome: Err(error) },
        ),
    }
}

/// The cause to report for an answer other than the awaited one.
fn cause_of(event: Event) -> (cause: String)
    ensures
        cause@ == event_cause(event@),
{
    match event {
        Event::Failed(cause) => cause,
        _ => String::from_str("the answer does not fit the order"),
    }
}

impl View for Session {
    type V = SessionView;

    closed spec fn view(&self) -> SessionView {
        SessionView {
            settings: self.settings@,
            dir: self.dir@,
            stage: self.stage,
            services: self.services@,
            envs: self.envs@,
            failure: match self.failure {
                Some(error) => Some(error@),
                None => None,
            },
        }
    }
}

impl Session {
    /// The invariant of the type: the two file paths are those of the
    /// directory.
    #[verifier::type_invariant]
    spec fn paths_fit(&self) -> bool {
        &&& self.services_path@ == joined_text(self.dir@, services_name())
        &&& self.envs_path@ == joined_text(self.dir@, envs_name())
    }

    /// Begins a run for a configuration directory that has been located, or
    /// ends it at once with the error of locating it.
    pub fn start(settings: Settings, located: Result<String, LaunchError>) -> (begun: (
        Session,
        Action,
    ))
        ensures
            (begun.0@, begun.1@) == start_of(settings@, path_result_view(located)),
    {
        match located {
            Ok(dir) => {
                let order = Action::ProbeDir { path: dir.clone() };
                let session = Session {
                    settings,
                    services_path: join_with_tail(dir.as_str(), "services"),
                    envs_path: join_with_tail(dir.as_str(), "envs"),
                    dir,
                    stage: Stage::Probing,
                    services: ServiceFile { service: Vec::new() },
                    envs: Envs::new(),
                    failure: None,
                };
                proof {
                    assert(session@.services =~= Seq::<ServiceView>::empty());
                }
                (session, order)
            },
            Err(error) => {
                let dir = String::new();
                let session = Session {
                    settings,
                    services_path: join_with_tail(dir.as_str(), "services"),
                    envs_path: join_with_tail(dir.as_str(), "envs"),
                    dir,
                    stage: Stage::Stopped,
                    services: ServiceFile { service: Vec::new() },
                    envs: Envs::new(),
                    failure: Some(error.clone()),
                };
                proof {
                    assert(session@.services =~= Seq::<ServiceView>::empty());
                }
                (session, Action::Stop { outcome: Err(error) })
            },
        }
    }

    /// Begins a run for the invoking user. The user's name comes from the
    /// system, so the run begins as [`Session::start`] does for some outcome
    /// of the lookup.
    pub fn begin(settings: Settings) -> (begun: (Session, Action))
        ensures
            exists|lookup: UserLookup|
                (begun.0@, begun.1@) == start_of(
                    settings@,
                    #[trigger] config_dir_outcome(settings@, lookup),
                ),
    {
        let lookup = current_user();
        let ghost seen = lookup;
        let located = config_dir_from(&settings, lookup);
        let begun = Session::start(settings, located);
        assert((begun.0@, begun.1@) == start_of(settings@, config_dir_outcome(settings@, seen)));
        begun
    }

    /// The order whose answer the session waits for.
    pub fn stage(&self) -> (stage: Stage)
        ensures
            stage == self@.stage,
    {
        self.stage
    }

    /// Ends the run with `error`.
    fn stop(&mut self, error: LaunchError) -> (order: Action)
        ensures
            (final(self)@, order@) == stopped_by(old(self)@, error@),
    {
        proof {
            use_type_invariant(&*self);
        }
        self.stage = Stage::Stopped;
        self.failure = Some(error.clone());
        Action::Stop { outcome: Err(error) }
    }

    /// Goes on to `stage` with the order `order`.
    fn go(&mut self, stage: Stage, order: Action) -> (given: Action)
        ensures
            given == order,
            (final(self)@, given@) == moved_to(old(self)@, stage, order@),
    {
        proof {
            use_type_invariant(&*self);
        }
        self.stage = stage;
        order
    }

    /// Goes on to write `text` to `path` and to wait at `stage`.
    fn write(&mut self, stage: Stage, path: String, text: String) -> (order: Action)
        ensures
            (final(self)@, order@) == writing(old(self)@, stage, path@, text@),
    {
        match write_action(path.as_str(), text) {
            Ok(order) => self.go(stage, order),
            Err(error) => self.stop(error),
        }
    }

    /// Goes on to fill the new file at `path` with `document` and to wait at
    /// `stage`.
    fn seed(&mut self, stage: Stage, path: String, document: Result<String, String>) -> (order:
        Action)
        ensures
            (final(self)@, order@) == seeding(
                old(self)@,
                stage,
                path@,
                match document {
                    Ok(text) => Ok(text@),
                    Err(cause) => Err(cause@),
                },
            ),
    {
        match document {
            Ok(text) => self.write(stage, path, text),
            Err(cause) => self.stop(LaunchError::Io { path, cause }),
        }
    }

    /// Takes the answer to the last order and gives the next order. After the
    /// order to stop, every answer is met with that order again.
    pub fn step(&mut self, event: Event) -> (order: Action)
        ensures
            (final(self)@, order@) == step_of(old(self)@, event@),
    {
        proof {
            use_type_invariant(&*self);
        }
        let dir = self.dir.clone();
        let services_file = self.services_path.clone();
        let envs_file = self.envs_path.clone();
        match self.stage {
            Stage::Probing => match event {
                Event::Present(true) => self.go(
                    Stage::CreatingServices,
                    Action::CreateNew { path: services_file },
                ),
                Event::Present(false) => self.go(Stage::MakingDir, Action::MakeDir { path: dir }),
                other => self.stop(LaunchError::Io { path: dir, cause: cause_of(other) }),
            },
            Stage::MakingDir => match event {
                Event::Done => self.go(
                    Stage::CreatingServices,
                    Action::CreateNew { path: services_file },
                ),
                other => self.stop(LaunchError::Io { path: dir, cause: cause_of(other) }),
            },
            Stage::CreatingServices => match event {
                Event::Done => {
                    let document = render_services(&ServiceFile::default());
                    self.seed(Stage::SeedingServices, services_file, document)
                },
                Event::Exists => self.go(Stage::CreatingEnvs, Action::CreateNew { path: envs_file }),
                other => self.stop(
                    LaunchError::Io { path: services_file, cause: cause_of(other) },
                ),
            },
            Stage::SeedingServices => match event {
                Event::Done => self.go(Stage::CreatingEnvs, Action::CreateNew { path: envs_file }),
                other => self.stop(
                    LaunchError::Io { path: services_file, cause: cause_of(other) },
                ),
            },
            Stage::CreatingEnvs => match event {
                Event::Done => {
                    let document = render_envs(&default_envs());
                    self.seed(Stage::SeedingEnvs, envs_file, document)
                },
                Event::Exists => self.go(
                    Stage::ReadingServices,
                    Action::Read { path: services_file },
                ),
                other => self.stop(LaunchError::Io { path: envs_file, cause: cause_of(other) }),
            },
            Stage::SeedingEnvs => match event {
                Event::Done => self.go(
                    Stage::ReadingServices,
                    Action::Read { path: services_file },
                ),
                other => self.stop(LaunchError::Io { path: envs_file, cause: cause_of(other) }),
            },
            Stage::ReadingServices => match event {
                Event::Text(text) => match parse_services(text.as_str()) {
                    Ok(services) => {
                        self.services = services;
                        self.go(Stage::ReadingEnvs, Action::Read { path: envs_file })
                    },
                    Err(fault) => self.stop(
                        LaunchError::ConfigParse { path: services_file, cause: fault.cause() },
                    ),
                },
                other => self.stop(
                    LaunchError::ConfigRead { path: services_file, cause: cause_of(other) },
                ),
            },
            Stage::ReadingEnvs => match event {
                Event::Text(text) => match parse_envs(text.as_str()) {
                    Ok(envs) => {
                        self.envs = envs;
                        let script = generate_script(&self.services);
                        let path = self.settings.script_path.clone();
                        self.write(Stage::WritingScript, path, script)
                    },
                    Err(fault) => self.stop(
                        LaunchError::ConfigParse { path: envs_file, cause: fault.cause() },
                    ),
                },
                other => self.stop(
                    LaunchError::ConfigRead { path: envs_file, cause: cause_of(other) },
                ),
            },
            Stage::WritingScript => match event {
                Event::Done => {
                    let order = launch_action(&self.settings, self.envs.clone());
                    self.go(Stage::Spawning, order)
                },
                other => self.stop(
                    LaunchError::Io {
                        path: self.settings.script_path.clone(),
                        cause: cause_of(other),
                    },
                ),
            },
            Stage::Spawning => match event {
                Event::Done => {
                    self.stage = Stage::Stopped;
                    self.failure = None;
                    Action::Stop { outcome: Ok(()) }
                },
                other => self.stop(
                    LaunchError::Spawn {
                        program: self.settings.target.clone(),
                        cause: cause_of(other),
                    },
                ),
            },
            Stage::Stopped => match &self.failure {
                Some(error) => Action::Stop { outcome: Err(error.clone()) },
                None => Action::Stop { outcome: Ok(()) },
            },
        }
    }
}

/// Whether a failure in this stage ends the run. It does in every stage but
/// the last, where the run is over. A file that cannot be created is a
/// failure like any other; only a file that is there already is none.
pub open spec fn fails_fast(stage: Stage) -> bool {
    stage != Stage::Stopped
}

/// The first failure ends the run: where a failure is reported in a stage
/// that fails fast, the session stops, keeps the error, and orders the stop
/// with that error. The error carries the cause that was reported.
pub proof fn failure_ends_the_run(session: SessionView, cause: Seq<char>)
    requires
        fails_fast(session.stage),
    ensures
        step_of(session, EventView::Failed(cause)).0.stage == Stage::Stopped,
        step_of(session, EventView::Failed(cause)).0.failure is Some,
        step_of(session, EventView::Failed(cause)).1 == (ActionView::Stop {
            outcome: Err(step_of(session, EventView::Failed(cause)).0.failure.unwrap()),
        }),
        match step_of(session, EventView::Failed(cause)).0.failure.unwrap() {
            LaunchErrorView::UserResolution { cause: told } => false,
            LaunchErrorView::ConfigRead { cause: told, .. } => told == cause,
            LaunchErrorView::ConfigParse { cause: told, .. } => false,
            LaunchErrorView::Io { cause: told, .. } => told == cause,
            LaunchErrorView::Spawn { cause: told, .. } => told == cause,
        },
{
}

/// A stopped session stays as it is and repeats its last order, whatever it
/// is told.
pub proof fn stopped_stays_stopped(session: SessionView, event: EventView)
    requires
        session.stage == Stage::Stopped,
    ensures
        step_of(session, event) == (session, last_order(session)),
{
}

/// The run ends well only after the session program has been started: the
/// order to stop without an error answers the report that the program was
/// spawned, or repeats that order.
pub proof fn success_only_after_spawn(session: SessionView, event: EventView)
    requires
        step_of(session, event).1 == (ActionView::Stop { outcome: Ok(()) }),
    ensures
        (session.stage == Stage::Spawning && event == EventView::Done) || (session.stage
            == Stage::Stopped && session.failure is None),
{
}

/// Nothing that exists is overwritten with a default: a file is written in
/// three places only. A default document goes to the services file or to the
/// environment file, and then in answer to the report that this very run has
/// just created that file; the start-up script goes to its own path, once
/// both documents have been read.
pub proof fn writes_are_accounted_for(session: SessionView, event: EventView)
    requires
        step_of(session, event).1 is Write,
    ensures
        ({
            let order = step_of(session, event).1;
            ||| (session.stage == Stage::CreatingServices && event == EventView::Done
                && order->Write_path == services_path(session) && rendered_text(
                services_document(default_services()),
            ) == Ok::<Seq<char>, toml::ser::Error>(order->Write_text))
            ||| (session.stage == Stage::CreatingEnvs && event == EventView::Done
                && order->Write_path == envs_path(session) && rendered_text(
                envs_document(default_variables()),
            ) == Ok::<Seq<char>, toml::ser::Error>(order->Write_text))
            ||| (session.stage == Stage::ReadingEnvs && event is Text && order->Write_path
                == session.settings.script_path && order->Write_text == script_text(
                session.services,
            ))
        }),
        step_of(session, event).1->Write_mode == FILE_MODE,
        parent_of(step_of(session, event).1->Write_path) == Some(
            step_of(session, event).1->Write_parent,
        ),
{
}

/// A file that is there already is passed over: the answer that it exists
/// leads on to the next file, or to the reading, with no order to write in
/// between and with the session otherwise as it was.
pub proof fn existing_file_is_passed_over(session: SessionView)
    ensures
        session.stage == Stage::CreatingServices ==> step_of(session, EventView::Exists) == moved_to(
            session,
            Stage::CreatingEnvs,
            ActionView::CreateNew { path: envs_path(session) },
        ),
        session.stage == Stage::CreatingEnvs ==> step_of(session, EventView::Exists) == moved_to(
            session,
            Stage::ReadingServices,
            ActionView::Read { path: services_path(session) },
        ),
{
}

/// The session program is started with the variables that were read from the
/// environment document, after the script that was generated from the
/// services document has been written: the order to spawn answers the report
/// that the script was written, names the program of the settings, and points
/// it at the script.
pub proof fn spawn_follows_the_script(session: SessionView, event: EventView)
    requires
        step_of(session, event).1 is Spawn,
    ensures
        session.stage == Stage::WritingScript,
        event == EventView::Done,
        step_of(session, event).1 == spawn_order(session.settings, session.envs),
        step_of(session, event).0.stage == Stage::Spawning,
{
}

} // verus!
