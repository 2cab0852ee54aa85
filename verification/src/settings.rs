//! The fixed places of a run, as values that a caller may replace.

use vstd::prelude::*;
use vstd::string::StringExecFns;

verus! {

/// Where a run looks for its files and what it starts.
#[derive(Debug, Clone, PartialEq, Eq)]
pub struct Settings {
    /// The directory that holds the users' home directories.
    pub home_root: String,
    /// The name of the configuration directory below `.config`.
    pub app_name: String,
    /// The file that the start-up script is written to.
    pub script_path: String,
    /// The session program.
    pub target: String,
}

/// A [`Settings`] with its texts as sequences of characters.
pub struct SettingsView {
    pub home_root: Seq<char>,
    pub app_name: Seq<char>,
    pub script_path: Seq<char>,
    pub target: Seq<char>,
}

impl View for Settings {
    type V = SettingsView;

    open spec fn view(&self) -> SettingsView {
        SettingsView {
            home_root: self.home_root@,
            app_name: self.app_name@,
            script_path: self.script_path@,
            target: self.target@,
        }
    }
}

/// The places that a run uses when nothing else is asked for.
pub open spec fn standard_settings() -> SettingsView {
    SettingsView {
        home_root: "/home"@,
        app_name: "dwl-launcher"@,
        script_path: "/tmp/dwl_service"@,
        target: "/usr/local/bin/dwl"@,
    }
}

impl Settings {
    /// The standard places: homes under `/home`, the directory `dwl-launcher`,
    /// the script at `/tmp/dwl_service`, the program `/usr/local/bin/dwl`.
    pub fn standard() -> (settings: Settings)
        ensures
            settings@ == standard_settings(),
    {
        Settings {
            home_root: String::from_str("/home"),
            app_name: String::from_str("dwl-launcher"),
            script_path: String::from_str("/tmp/dwl_service"),
            target: String::from_str("/usr/local/bin/dwl"),
        }
    }
}

} // verus!
