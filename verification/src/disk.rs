//! The first part of a run, held against a model of the disk: a machine that
//! carries out every order and on which nothing fails. On that machine the
//! run fills in what is missing, leaves alone what is there, and changes
//! nothing when it is repeated.

use vstd::prelude::*;
use crate::documents::{envs_document, services_document};
use crate::envs::default_variables;
use crate::model::default_services;
use crate::orders::{ActionView, EventView};
use crate::session::{envs_path, services_path, start_of, step_of, SessionView};
use crate::settings::SettingsView;
use crate::values::rendered_text;

verus! {

/// A disk as far as a run touches it: the directories that exist, and the
/// files that exist with what they hold.
pub struct Disk {
    pub dirs: Set<Seq<char>>,
    pub files: Map<Seq<char>, Seq<char>>,
}

/// The cause that the model reports for a file that is not there to be read.
pub open spec fn refusal() -> Seq<char> {
    "refused"@
}

/// What comes of an order on the model: the answer, and the disk after it.
/// A file is created only where none is there, and a file that is written
/// holds the text of the order.
pub open spec fn carried_out(disk: Disk, order: ActionView) -> (EventView, Disk) {
    match order {
        ActionView::ProbeDir { path } => (EventView::Present(disk.dirs.contains(path)), disk),
        ActionView::MakeDir { path } => (
            EventView::Done,
            Disk { dirs: disk.dirs.insert(path), files: disk.files },
        ),
        ActionView::CreateNew { path } => if disk.files.contains_key(path) {
            (EventView::Exists, disk)
        } else {
            (
                EventView::Done,
                Disk { dirs: disk.dirs, files: disk.files.insert(path, Seq::empty()) },
            )
        },
        ActionView::Write { path, parent, text, mode } => (
            EventView::Done,
            Disk { dirs: disk.dirs.insert(parent), files: disk.files.insert(path, text) },
        ),
        ActionView::Read { path } => if disk.files.contains_key(path) {
            (EventView::Text(disk.files[path]), disk)
        } else {
            (EventView::Failed(refusal()), disk)
        },
        ActionView::Spawn { program, argument, envs } => (EventView::Done, disk),
        ActionView::Stop { outcome } => (EventView::Done, disk),
    }
}

/// Whether an order belongs to the part of a run that makes sure that the
/// configuration is there: it ends with the first order to read or to stop.
pub open spec fn prepares(order: ActionView) -> bool {
    order is ProbeDir || order is MakeDir || order is CreateNew || order is Write
}

/// Where a run stands: the session, the order that it has given last, and
/// the disk.
pub struct Reached {
    pub session: SessionView,
    pub order: ActionView,
    pub disk: Disk,
}

/// Where the run stands after the orders of that part have been carried out,
/// `steps` of them at most.
pub open spec fn prepared(session: SessionView, order: ActionView, disk: Disk, steps: nat) -> Reached
    decreases steps,
{
    if steps == 0 || !prepares(order) {
        Reached { session: session, order: order, disk: disk }
    } else {
        let done = carried_out(disk, order);
        let next = step_of(session, done.0);
        prepared(next.0, next.1, done.1, (steps - 1) as nat)
    }
}

/// Where a run for the directory `dir` stands after it has made sure that
/// the configuration is there. That part has six orders at most.
pub open spec fn bootstrap(settings: SettingsView, dir: Seq<char>, disk: Disk) -> Reached {
    let begun = start_of(settings, Ok(dir));
    prepared(begun.0, begun.1, disk, 6)
}

/// The disk after that part of a run.
pub open spec fn bootstrapped(settings: SettingsView, dir: Seq<char>, disk: Disk) -> Disk {
    bootstrap(settings, dir, disk).disk
}

/// Whether that part of a run got through: it ends with the order to read,
/// not with the order to stop.
pub open spec fn gets_through(settings: SettingsView, dir: Seq<char>, disk: Disk) -> bool {
    bootstrap(settings, dir, disk).order is Read
}

/// The two files of a configuration directory have different paths.
pub proof fn files_differ(session: SessionView)
    ensures
        services_path(session) != envs_path(session),
{
    reveal_strlit("services");
    reveal_strlit("envs");
    reveal_strlit("/");
    assert(services_path(session).len() == session.dir.len() + 9);
    assert(envs_path(session).len() == session.dir.len() + 5);
}

/// Whatever comes of the first part of a run, every file that was there
/// before is there after it and holds what it held, every directory that was
/// there is still there, and no file has appeared but the two of the
/// configuration directory.
pub proof fn bootstrap_keeps_what_is_there(settings: SettingsView, dir: Seq<char>, disk: Disk)
    ensures
        ({
            let begun = start_of(settings, Ok(dir)).0;
            let after = bootstrapped(settings, dir, disk);
            &&& forall|path: Seq<char>| #[trigger]
                disk.files.contains_key(path) ==> after.files.contains_key(path)
                    && after.files[path] == disk.files[path]
            &&& forall|path: Seq<char>| #[trigger]
                disk.dirs.contains(path) ==> after.dirs.contains(path)
            &&& forall|path: Seq<char>| #[trigger]
                after.files.contains_key(path) ==> disk.files.contains_key(path) || path
                    == services_path(begun) || path == envs_path(begun)
        }),
{
    let begun = start_of(settings, Ok(dir));
    files_differ(begun.0);
    reveal_with_fuel(prepared, 7);
}

/// Where the first part of a run got through, the directory and both files
/// are there, and a file that was missing holds its default document.
pub proof fn bootstrap_fills_what_is_missing(settings: SettingsView, dir: Seq<char>, disk: Disk)
    requires
        gets_through(settings, dir, disk),
    ensures
        ({
            let begun = start_of(settings, Ok(dir)).0;
            let after = bootstrapped(settings, dir, disk);
            &&& after.dirs.contains(dir)
            &&& after.files.contains_key(services_path(begun))
            &&& after.files.contains_key(envs_path(begun))
            &&& !disk.files.contains_key(services_path(begun)) ==> rendered_text(
                services_document(default_services()),
            ) == Ok::<Seq<char>, toml::ser::Error>(after.files[services_path(begun)])
            &&& !disk.files.contains_key(envs_path(begun)) ==> rendered_text(
                envs_document(default_variables()),
            ) == Ok::<Seq<char>, toml::ser::Error>(after.files[envs_path(begun)])
        }),
{
    let begun = start_of(settings, Ok(dir));
    files_differ(begun.0);
    reveal_with_fuel(prepared, 7);
}

/// Repeating the first part of a run changes nothing: where it got through
/// once, it gets through again, and the disk after the second time is the
/// disk after the first.
pub proof fn bootstrap_twice_is_bootstrap_once(settings: SettingsView, dir: Seq<char>, disk: Disk)
    requires
        gets_through(settings, dir, disk),
    ensures
        gets_through(settings, dir, bootstrapped(settings, dir, disk)),
        bootstrapped(settings, dir, bootstrapped(settings, dir, disk)) == bootstrapped(
            settings,
            dir,
            disk,
        ),
{
    let begun = start_of(settings, Ok(dir));
    let once = bootstrapped(settings, dir, disk);
    bootstrap_fills_what_is_missing(settings, dir, disk);
    files_differ(begun.0);
    reveal_with_fuel(prepared, 7);
    let twice = bootstrapped(settings, dir, once);
    assert(twice.dirs =~= once.dirs);
    assert(twice.files =~= once.files);
}

} // verus!
