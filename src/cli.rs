//! The commands of the napkin tool.

use vstd::prelude::*;

verus! {

/// The parsed command line.
#[derive(Debug)]
pub struct Cli {
    pub command: Command,
}

/// A command of the tool.
#[derive(Debug)]
pub enum Command {
    /// Lists the stored napkins.
    List,
    /// Removes files from the napkin home that no napkin references.
    Clean,
    /// Opens and edits the context file.
    Context,
    /// Creates a new napkin.
    New,
    /// Edits the metadata of a napkin.
    Meta { uid: u128 },
    /// Edits the contents of a napkin.
    Edit { uid: u128 },
    /// Exports the napkins of the given uids (all if none) to a tarball.
    Export { uids: Vec<u128>, path: String },
    /// Imports a tarball, favouring its copies over the napkin home's if asked.
    Import { path: String, favor_backup: bool },
}

} // verus!
