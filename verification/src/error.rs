//! What can end a run early.

use vstd::prelude::*;
use vstd::string::StringExecFns;

verus! {

/// The ways in which a run fails. Each one ends the run at once.
#[derive(Debug, PartialEq, Eq)]
pub enum LaunchError {
    /// The name of the invoking user could not be found or is not plain text.
    UserResolution { cause: String },
    /// A configuration file could not be read.
    ConfigRead { path: String, cause: String },
    /// A configuration file is not a well-formed document of its kind.
    ConfigParse { path: String, cause: String },
    /// A directory or a file could not be created, written or made executable.
    Io { path: String, cause: String },
    /// The session program could not be started.
    Spawn { program: String, cause: String },
}

/// A [`LaunchError`] with its texts as sequences of characters.
pub enum LaunchErrorView {
    UserResolution { cause: Seq<char> },
    ConfigRead { path: Seq<char>, cause: Seq<char> },
    ConfigParse { path: Seq<char>, cause: Seq<char> },
    Io { path: Seq<char>, cause: Seq<char> },
    Spawn { program: Seq<char>, cause: Seq<char> },
}

impl View for LaunchError {
    type V = LaunchErrorView;

    open spec fn view(&self) -> LaunchErrorView {
        match self {
            LaunchError::UserResolution { cause } => LaunchErrorView::UserResolution {
                cause: cause@,
            },
            LaunchError::ConfigRead { path, cause } => LaunchErrorView::ConfigRead {
                path: path@,
                cause: cause@,
            },
            LaunchError::ConfigParse { path, cause } => LaunchErrorView::ConfigParse {
                path: path@,
                cause: cause@,
            },
            LaunchError::Io { path, cause } => LaunchErrorView::Io { path: path@, cause: cause@ },
            LaunchError::Spawn { program, cause } => LaunchErrorView::Spawn {
                program: program@,
                cause: cause@,
            },
        }
    }
}

/// The line that describes an error to the user: what failed, on what, and why.
pub open spec fn message_text(error: LaunchErrorView) -> Seq<char> {
    match error {
        LaunchErrorView::UserResolution { cause } => "cannot determine the user: "@ + cause,
        LaunchErrorView::ConfigRead { path, cause } => "cannot read "@ + path + ": "@ + cause,
        LaunchErrorView::ConfigParse { path, cause } => "cannot parse "@ + path + ": "@ + cause,
        LaunchErrorView::Io { path, cause } => "cannot write "@ + path + ": "@ + cause,
        LaunchErrorView::Spawn { program, cause } => "cannot start "@ + program + ": "@ + cause,
    }
}

impl Clone for LaunchError {
    /// A second error with the same texts.
    fn clone(&self) -> (error: LaunchError)
        ensures
            error@ == self@,
    {
        match self {
            LaunchError::UserResolution { cause } => LaunchError::UserResolution {
                cause: cause.clone(),
            },
            LaunchError::ConfigRead { path, cause } => LaunchError::ConfigRead {
                path: path.clone(),
                cause: cause.clone(),
            },
            LaunchError::ConfigParse { path, cause } => LaunchError::ConfigParse {
                path: path.clone(),
                cause: cause.clone(),
            },
            LaunchError::Io { path, cause } => LaunchError::Io {
                path: path.clone(),
                cause: cause.clone(),
            },
            LaunchError::Spawn { program, cause } => LaunchError::Spawn {
                program: program.clone(),
                cause: cause.clone(),
            },
        }
    }
}

impl LaunchError {
    /// The line to show to the user.
    pub fn message(&self) -> (line: String)
        ensures
            line@ == message_text(self@),
    {
        match self {
            LaunchError::UserResolution { cause } => {
                let mut line = String::from_str("cannot determine the user: ");
                line.append(cause.as_str());
                line
            },
            LaunchError::ConfigRead { path, cause } => about("cannot read ", path, cause),
            LaunchError::ConfigParse { path, cause } => about("cannot parse ", path, cause),
            LaunchError::Io { path, cause } => about("cannot write ", path, cause),
            LaunchError::Spawn { program, cause } => about("cannot start ", program, cause),
        }
    }
}

/// `what`, `subject`, a colon with a space, and `cause`, in one line.
fn about(what: &str, subject: &String, cause: &String) -> (line: String)
    ensures
        line@ == what@ + subject@ + ": "@ + cause@,
{
    let mut line = String::from_str(what);
    line.append(subject.as_str());
    line.append(": ");
    line.append(cause.as_str());
    line
}

} // verus!
