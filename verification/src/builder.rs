//! The server-side build of a funck directory. The host runs the compiler
//! as a child process inside the directory; the builder says where the
//! produced artifact is expected.

use vstd::prelude::*;

use crate::compiler;
use crate::text;

verus! {

/// FunckBuilder performs a server-side build on a funck directory and
/// names its artifact.
pub struct FunckBuilder {}

impl FunckBuilder {
    /// A builder.
    pub fn new() -> FunckBuilder {
        FunckBuilder {}
    }

    /// The artifact path a build of the directory is expected to produce,
    /// relative to the directory itself: the project is named after the
    /// directory.
    pub fn output_path(&self, dir: &str) -> (r: String)
        ensures
            r@ == "./target/release/lib"@ + text::spec_file_name(dir@) + ".so"@,
    {
        let project = text::file_name_of(dir);
        compiler::lib_output_path(project.as_str())
    }
}

} // verus!
