//! The compile pipeline's vocabulary: the job and result value types, the
//! failure taxonomy with its rendered reasons, and the computation of the
//! compiler's expected output path.
//!
//! Running the compiler is the host's job; the decisions around it — which
//! path the artifact is expected at, and which reason a failed job reports —
//! are made here.

use vstd::prelude::*;
use vstd::string::StringExecFns;

use crate::dropdir::DropDir;
use crate::text;

verus! {

/// What can go wrong in the compile pipeline.
#[derive(Debug)]
pub enum Error {
    /// The worker could not switch into the source directory.
    SwitchDirError { path: String, message: String },
    /// The compiler process could not be spawned.
    BuildSpawnError { message: String },
    /// Waiting for the compiler process failed.
    BuildJoinError { message: String },
    /// The compiler exited with a non-zero status code.
    ExitCodeNonZero { code: i32 },
    /// The expected output artifact is missing or unreadable.
    InvalidOutputPath { path: String },
    /// The job could not be handed to the compile worker.
    JobDispatchError { message: String },
    /// The compile worker is not started.
    WorkerNotStarted,
}

/// The reason a failed compile job reports.
pub open spec fn spec_error_message(e: Error) -> Seq<char> {
    match e {
        Error::SwitchDirError { path, message } => "failed to switch to directory "@ + path@
            + ": "@ + message@,
        Error::BuildSpawnError { message } => "failed to spawn build command: "@ + message@,
        Error::BuildJoinError { message } => "error waiting for build command: "@ + message@,
        Error::ExitCodeNonZero { code } => "exit code "@ + text::spec_dec(code as int),
        Error::InvalidOutputPath { path } => "invalid output path"@,
        Error::JobDispatchError { message } => "couldn't send the job to the compilation worker: "@
            + message@,
        Error::WorkerNotStarted => "compile worker is not started"@,
    }
}

impl Error {
    /// The reason this failure gives a job's `Failed` status.
    pub fn message(&self) -> (r: String)
        ensures
            r@ == spec_error_message(*self),
    {
        match self {
            Error::SwitchDirError { path, message } => {
                let mut r = String::from_str("failed to switch to directory ");
                r.append(path.as_str());
                r.append(": ");
                r.append(message.as_str());
                r
            },
            Error::BuildSpawnError { message } => {
                let mut r = String::from_str("failed to spawn build command: ");
                r.append(message.as_str());
                r
            },
            Error::BuildJoinError { message } => {
                let mut r = String::from_str("error waiting for build command: ");
                r.append(message.as_str());
                r
            },
            Error::ExitCodeNonZero { code } => {
                let mut r = String::from_str("exit code ");
                let digits = text::i64_to_string(*code as i64);
                r.append(digits.as_str());
                r
            },
            Error::InvalidOutputPath { path } => String::from_str("invalid output path"),
            Error::JobDispatchError { message } => {
                let mut r = String::from_str("couldn't send the job to the compilation worker: ");
                r.append(message.as_str());
                r
            },
            Error::WorkerNotStarted => String::from_str("compile worker is not started"),
        }
    }
}

/// A completed compile: the artifact's path and the job it belongs to.
#[derive(Debug)]
pub struct Response {
    pub so_path: String,
    pub job_name: String,
}

/// A compile job: ownership of the deployment's source directory.
#[derive(Debug)]
pub struct Request {
    pub source_directory: DropDir,
}

impl Request {
    /// Wrap a source directory as a compile job.
    pub fn new(source_dir: DropDir) -> (r: Request)
        ensures
            r.source_directory == source_dir,
    {
        Request { source_directory: source_dir }
    }
}

/// The artifact path the compiler is expected to produce, relative to the
/// source directory: `./target/release/lib<project>.so`.
pub fn lib_output_path(project_name: &str) -> (r: String)
    ensures
        r@ == "./target/release/lib"@ + project_name@ + ".so"@,
{
    let mut r = String::from_str("./target/release/lib");
    r.append(project_name);
    r.append(".so");
    r
}

} // verus!
