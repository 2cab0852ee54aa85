//! The orders that a session gives and the answers that it takes: one order
//! for each effect on the machine.

use vstd::prelude::*;
use vstd::string::StringExecFns;
use crate::envs::Envs;
use crate::error::{LaunchError, LaunchErrorView};
use crate::paths::{directory_of, directory_outcome, parent_of};
use crate::settings::{Settings, SettingsView};

verus! {

/// The permission bits of every file that a run writes: all for the owner,
/// reading for everyone else.
pub const FILE_MODE: u32 = 0o744;

/// One effect that the caller is asked to carry out.
#[derive(Debug)]
pub enum Action {
    /// Tell whether the directory exists. Answer with `Event::Present`.
    ProbeDir { path: String },
    /// Create the directory and every missing directory above it.
    MakeDir { path: String },
    /// Create the file, empty, unless something is there already: the
    /// creation must be exclusive. Answer `Event::Done` only where this call
    /// created the file, `Event::Exists` where something was there already,
    /// and `Event::Failed` where the file is missing and cannot be created.
    CreateNew { path: String },
    /// Create the directory `parent` and every missing directory above it,
    /// create the file or empty it, write `text` as it is, and set the file's
    /// permission bits to `mode`.
    Write { path: String, parent: String, text: String, mode: u32 },
    /// Read the whole file as text. Answer with `Event::Text`.
    Read { path: String },
    /// Start `program` with the one argument `argument`, with `envs` laid
    /// over the inherited environment and with its output discarded; do not
    /// wait for it.
    Spawn { program: String, argument: String, envs: Envs },
    /// The run is over; `outcome` says how.
    Stop { outcome: Result<(), LaunchError> },
}

/// An [`Action`] with its texts as sequences of characters and its variables
/// as a map.
pub enum ActionView {
    ProbeDir { path: Seq<char> },
    MakeDir { path: Seq<char> },
    CreateNew { path: Seq<char> },
    Write { path: Seq<char>, parent: Seq<char>, text: Seq<char>, mode: u32 },
    Read { path: Seq<char> },
    Spawn { program: Seq<char>, argument: Seq<char>, envs: Map<Seq<char>, Seq<char>> },
    Stop { outcome: Result<(), LaunchErrorView> },
}

impl View for Action {
    type V = ActionView;

    open spec fn view(&self) -> ActionView {
        match self {
            Action::ProbeDir { path } => ActionView::ProbeDir { path: path@ },
            Action::MakeDir { path } => ActionView::MakeDir { path: path@ },
            Action::CreateNew { path } => ActionView::CreateNew { path: path@ },
            Action::Write { path, parent, text, mode } => ActionView::Write {
                path: path@,
                parent: parent@,
                text: text@,
                mode: *mode,
            },
            Action::Read { path } => ActionView::Read { path: path@ },
            Action::Spawn { program, argument, envs } => ActionView::Spawn {
                program: program@,
                argument: argument@,
                envs: envs@,
            },
            Action::Stop { outcome } => ActionView::Stop {
                outcome: match outcome {
                    Ok(_) => Ok(()),
                    Err(error) => Err(error@),
                },
            },
        }
    }
}

/// What came of an order.
#[derive(Debug, Clone, PartialEq, Eq)]
pub enum Event {
    /// The answer to `ProbeDir`.
    Present(bool),
    /// The order was carried out.
    Done,
    /// The answer to `CreateNew` where the file was there already: nothing
    /// was done to it.
    Exists,
    /// The answer to `Read`: what the file holds.
    Text(String),
    /// The order could not be carried out; the text says why.
    Failed(String),
}

/// An [`Event`] with its texts as sequences of characters.
pub enum EventView {
    Present(bool),
    Done,
    Exists,
    Text(Seq<char>),
    Failed(Seq<char>),
}

impl View for Event {
    type V = EventView;

    open spec fn view(&self) -> EventView {
        match self {
            Event::Present(found) => EventView::Present(*found),
            Event::Done => EventView::Done,
            Event::Exists => EventView::Exists,
            Event::Text(text) => EventView::Text(text@),
            Event::Failed(cause) => EventView::Failed(cause@),
        }
    }
}

/// The one argument of the session program: the option `-s` and the path of
/// the start-up script between double quotes.
pub open spec fn launch_argument(script_path: Seq<char>) -> Seq<char> {
    "-s \""@ + script_path + "\""@
}

/// The order to write `text` to `path`, or the error of a path that lies in
/// no directory.
pub open spec fn write_outcome(path: Seq<char>, text: Seq<char>) -> Result<
    ActionView,
    LaunchErrorView,
> {
    match directory_outcome(path, parent_of(path)) {
        Ok(parent) => Ok(ActionView::Write { path: path, parent: parent, text: text, mode: FILE_MODE }),
        Err(error) => Err(error),
    }
}

/// The order to start the session program.
pub open spec fn spawn_order(settings: SettingsView, envs: Map<Seq<char>, Seq<char>>) -> ActionView {
    ActionView::Spawn {
        program: settings.target,
        argument: launch_argument(settings.script_path),
        envs: envs,
    }
}

/// The view of an order or of the error in its place.
pub open spec fn order_result_view(result: Result<Action, LaunchError>) -> Result<
    ActionView,
    LaunchErrorView,
> {
    match result {
        Ok(order) => Ok(order@),
        Err(error) => Err(error@),
    }
}

/// The order to write `text` to the file at `path`: the directory to create
/// first is the one that the path lies in, and the file is made executable.
/// An error where the path lies in no directory.
pub fn write_action(path: &str, text: String) -> (result: Result<Action, LaunchError>)
    ensures
        order_result_view(result) == write_outcome(path@, text@),
{
    match directory_of(path) {
        Ok(parent) => Ok(
            Action::Write { path: String::from_str(path), parent, text, mode: FILE_MODE },
        ),
        Err(error) => Err(error),
    }
}

/// The order to start the session program with the variables `envs`.
pub fn launch_action(settings: &Settings, envs: Envs) -> (order: Action)
    ensures
        order@ == spawn_order(settings@, envs@),
{
    let mut argument = String::from_str("-s \"");
    argument.append(settings.script_path.as_str());
    argument.append("\"");
    Action::Spawn { program: settings.target.clone(), argument, envs }
}

} // verus!
