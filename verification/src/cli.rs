//! The arguments of the command line.

use vstd::prelude::*;

verus! {

/// A path in the host's file system. Nothing is known of what it holds.
#[verifier::external_type_specification]
#[verifier::external_body]
pub struct ExPathBuf(std::path::PathBuf);

/// `program [path]`: the script to run, or none for an interactive
/// session.
#[derive(Clone, Debug)]
pub struct Cli {
    path: Option<std::path::PathBuf>,
}

impl Cli {
    /// The script that was named, if one was.
    pub closed spec fn path(&self) -> Option<std::path::PathBuf> {
        self.path
    }

    /// The arguments that name `path`.
    pub fn new(path: Option<std::path::PathBuf>) -> (r: Self)
        ensures
            r.path() == path,
    {
        Cli { path }
    }

    /// The script to run, if one was named.
    pub fn get_path(&self) -> (r: Option<&std::path::PathBuf>)
        ensures
            r is Some == self.path() is Some,
            r is Some ==> *r->0 == self.path()->0,
    {
        self.path.as_ref()
    }

    /// The named script itself.
    pub fn into_path(self) -> (r: Option<std::path::PathBuf>)
        ensures
            r == self.path(),
    {
        self.path
    }
}

} // verus!
