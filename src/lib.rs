//! Maintenance of a small collection of notes ("napkins") described by a YAML
//! metadata document: parsing and validation of that document, inline error
//! annotation for the edit loop, and the lock-marker discipline around it.

pub mod cli;
pub mod configs;
pub mod context;
pub mod lock;
pub mod paths;
pub mod text;

use crate::paths::{join_path, joined};
use vstd::prelude::*;

verus! {

/// Relies on the `home` crate's `home_dir`: the user's home directory as the
/// environment gives it, or `None`; a path that is no valid UTF-8 counts as
/// not found.
#[verifier::external_body]
fn home_dir() -> (r: Option<String>) {
    match home::home_dir() {
        Some(p) => p.into_os_string().into_string().ok(),
        None => None,
    }
}

/// The napkin home directory under a user's home directory.
pub fn napkin_home(home: &str) -> (r: String)
    ensures
        r@ == joined(home@, ".napkin"@),
{
    join_path(home, ".napkin")
}

/// The napkin home directory, where the user's home directory can be found.
pub fn get_home() -> (r: Option<String>)
    ensures
        r matches Some(p) ==> exists|home: Seq<char>| p@ == joined(home, ".napkin"@),
{
    match home_dir() {
        Some(h) => Some(napkin_home(h.as_str())),
        None => None,
    }
}

} // verus!
