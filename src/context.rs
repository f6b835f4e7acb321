//! The napkin context file: its initial content, its place, and the checks
//! that each edit of it must pass.

use crate::configs::{
    fetch, parse_yaml, root_shape, yaml_annotate, yaml_docs, yaml_get_list,
    yaml_get_str, annotated, Error, Fault, Kind, Node,
};
use crate::paths::{join_path, joined};
use vstd::prelude::*;
use vstd::string::*;

verus! {

/// The text of a fresh context file for the given program version.
pub open spec fn initial_context(version: Seq<char>) -> Seq<char> {
    "---\nversion: "@ + version + "\nnapkins: [ ]\n..."@
}

/// The content that a new context file starts with.
pub fn default_context(version: &str) -> (r: String)
    ensures
        r@ == initial_context(version@),
{
    let mut r = String::from_str("---\nversion: ");
    r.append(version);
    r.append("\nnapkins: [ ]\n...");
    r
}

/// The path of the context file under a user's home directory.
pub open spec fn context_path_in(home: Seq<char>) -> Seq<char> {
    joined(joined(home, ".napkin"@), "context.yml"@)
}

/// The path of the context file, where the home directory can be found.
pub fn context_path() -> (r: Option<String>)
    ensures
        r matches Some(p) ==> exists|home: Seq<char>| p@ == context_path_in(home),
{
    match crate::get_home() {
        Some(dir) => {
            let p = join_path(dir.as_str(), "context.yml");
            proof {
                let home = choose|home: Seq<char>| dir@ == joined(home, ".napkin"@);
                assert(p@ == context_path_in(home));
            }
            Some(p)
        },
        None => None,
    }
}

/// The first required field of a context document that fails its check.
pub open spec fn context_fault(doc: Node) -> Option<Fault> {
    match fetch(doc, "version"@, Kind::String) {
        Err(f) => Some(f),
        Ok(_) => match fetch(doc, "napkins"@, Kind::List) {
            Err(f) => Some(f),
            Ok(_) => None,
        },
    }
}

/// Checks the required fields of a parsed context document in order: a
/// `version` string, then a `napkins` list.
pub fn check_context(doc: &Node) -> (r: Result<(), Error>)
    ensures
        match context_fault(*doc) {
            None => r is Ok,
            Some(f) => r matches Err(e) && e@ == f,
        },
{
    match yaml_get_str("version", doc) {
        Err(e) => return Err(e),
        Ok(_) => {},
    }
    match yaml_get_list("napkins", doc) {
        Err(e) => Err(e),
        Ok(_) => Ok(()),
    }
}

/// What checking a context text gives, where the YAML reader accepts it.
pub open spec fn context_outcome(text: Seq<char>) -> Option<Result<Node, Fault>> {
    match yaml_docs(text) {
        None => None,
        Some(docs) => Some(
            match root_shape(docs) {
                Err(f) => Err(f),
                Ok(d) => match context_fault(d) {
                    Some(f) => Err(f),
                    None => Ok(d),
                },
            },
        ),
    }
}

/// Parses a context text and checks its required fields; the first failure
/// is reported.
pub fn validate_context(text: &str) -> (r: Result<Node, Error>)
    ensures
        match context_outcome(text@) {
            Some(Ok(d)) => r matches Ok(x) && x == d,
            Some(Err(f)) => r matches Err(e) && e@ == f,
            None => r matches Err(e) && e@ is InvalidYaml,
        },
{
    let doc = match parse_yaml(text) {
        Ok(doc) => doc,
        Err(e) => return Err(e),
    };
    match check_context(&doc) {
        Ok(()) => Ok(doc),
        Err(e) => Err(e),
    }
}

/// What the edit loop does after an edit.
#[derive(Debug)]
pub enum Review {
    /// The text passed every check: this is its document.
    Done(Node),
    /// The text failed: edit this annotated text next.
    Reedit(String),
}

/// Decides the next step of the edit loop for an edited context text: done
/// with its document, or another edit of the text annotated with the first
/// failure.
pub fn review(text: &str) -> (r: Review)
    ensures
        match context_outcome(text@) {
            Some(Ok(d)) => r == Review::Done(d),
            Some(Err(f)) => r matches Review::Reedit(t) && t@ == annotated(text@, f),
            None => r matches Review::Reedit(t) && exists|line: nat, info: Seq<char>|
                t@ == annotated(text@, Fault::InvalidYaml { line, info }),
        },
{
    match validate_context(text) {
        Ok(doc) => Review::Done(doc),
        Err(e) => {
            let t = yaml_annotate(text, e);
            proof {
                if context_outcome(text@) is None {
                    let f = e@;
                    assert(t@ == annotated(
                        text@,
                        Fault::InvalidYaml { line: f->line, info: f->info },
                    ));
                }
            }
            Review::Reedit(t)
        },
    }
}

} // verus!
