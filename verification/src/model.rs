//! The two configuration documents as values: the ordered list of startup
//! services and the set of environment variables.

use vstd::prelude::*;

verus! {

/// A named command that is run in the background when the session starts.
#[derive(Debug, Clone, PartialEq, Eq)]
pub struct Service {
    /// A label for human readers; it ends up in a comment line.
    pub name: String,
    /// The shell command line.
    pub command: String,
}

/// What a [`Service`] is to a contract: its two texts.
pub struct ServiceView {
    pub name: Seq<char>,
    pub command: Seq<char>,
}

impl View for Service {
    type V = ServiceView;

    open spec fn view(&self) -> ServiceView {
        ServiceView { name: self.name@, command: self.command@ }
    }
}

/// The services document: the services in the order in which they start.
#[derive(Debug, Clone, PartialEq, Eq)]
pub struct ServiceFile {
    pub service: Vec<Service>,
}

impl View for ServiceFile {
    type V = Seq<ServiceView>;

    open spec fn view(&self) -> Seq<ServiceView> {
        Seq::new(self.service@.len(), |i: int| self.service@[i]@)
    }
}

/// The label of the one service of a fresh services document.
pub open spec fn default_service_name() -> Seq<char> {
    "Import environment"@
}

/// The command of the one service of a fresh services document.
pub open spec fn default_service_command() -> Seq<char> {
    "/sbin/systemctl --user import-environment DISPLAY WAYLAND_DISPLAY XDG_CURRENT_DESKTOP"@
}

/// The services of a fresh services document.
pub open spec fn default_services() -> Seq<ServiceView> {
    seq![ServiceView { name: default_service_name(), command: default_service_command() }]
}

impl Default for ServiceFile {
    /// The document that is written when the user has none: one service, which
    /// hands the session's display variables to the user's service manager.
    fn default() -> (file: ServiceFile)
        ensures
            file@ == default_services(),
    {
        let entry = Service {
            name: "Import environment".to_owned(),
            command: "/sbin/systemctl --user import-environment DISPLAY WAYLAND_DISPLAY XDG_CURRENT_DESKTOP".to_owned(),
        };
        let file = ServiceFile { service: vec![entry] };
        assert(file@ =~= default_services());
        file
    }
}

} // verus!
