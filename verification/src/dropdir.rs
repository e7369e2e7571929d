//! A source directory owned by an in-flight compile job.
//!
//! The host that embeds this library ties the value to a real directory on
//! disk and removes that directory when the job is over. Inside the library
//! the value is a plain record: a path and the human-readable job name under
//! which the deployment is tracked.

use vstd::prelude::*;

verus! {

/// The source directory of one deployment, owned by its compile job.
#[derive(Debug)]
pub struct DropDir {
    /// The directory path.
    pub path: String,
    /// Name of the drop job.
    pub name: String,
}

impl DropDir {
    /// Wrap a directory path and its job name.
    pub fn new(path: String, name: String) -> (r: DropDir)
        ensures
            r.spec_path() == path@,
            r.spec_name() == name@,
    {
        DropDir { path, name }
    }

    /// The directory path.
    pub fn path(&self) -> (r: &String)
        ensures
            r@ == self.spec_path(),
    {
        &self.path
    }

    /// The directory path, as a specification-level character sequence.
    pub open spec fn spec_path(&self) -> Seq<char> {
        self.path@
    }

    /// The job name, as a specification-level character sequence.
    pub open spec fn spec_name(&self) -> Seq<char> {
        self.name@
    }
}

} // verus!
