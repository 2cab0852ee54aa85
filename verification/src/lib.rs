//! A session launcher's core: it turns a list of startup services into a shell
//! script and drives the fixed start-up sequence of a windowing session, with
//! every effect on the machine left to the caller.

pub mod disk;
pub mod documents;
pub mod envs;
pub mod error;
pub mod model;
pub mod orders;
pub mod paths;
pub mod script;
pub mod session;
pub mod settings;
pub mod values;
