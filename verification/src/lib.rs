//! Install pipeline of a package manager: a package description is turned
//! into the ordered list of steps that fetch, build and install it.

pub mod artifact;
pub mod command;
pub mod error;
pub mod install;
pub mod layout;
pub mod log;
pub mod package;
pub mod plan;
pub mod script;
pub mod text;
