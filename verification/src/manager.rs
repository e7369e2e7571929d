//! The function lifecycle manager: it accepts deployments as compile jobs,
//! drives each job's status along the transition graph, installs compiled
//! artifacts into the loader registry, and dispatches invocation calls.
//!
//! The manager is the sequential core of the pipeline. The host runs the
//! compile worker and the install loop around it: it takes the next job,
//! runs the compiler, and reports the outcome back; it loads each produced
//! artifact and hands the loaded function in for installation. Every
//! decision — which job runs next, which status a job moves to, where an
//! artifact is expected, what a failure reports — is made and specified
//! here.

use vstd::prelude::*;
use vstd::string::StrSliceExecFns;
use vstd::string::StringExecFns;

use crate::compiler;
use crate::dropdir::DropDir;
use crate::funck::{Funcktion, Request, Response};
use crate::loader::{spec_install_funcks, spec_install_libs, FunckLoader};
use crate::status::{legal_transition, FuncktionEntry, Status, StatusTracker};
use crate::text;

pub use crate::loader::Error as LoaderError;

verus! {

/// What can go wrong at the manager's surface.
#[derive(Debug)]
pub enum Error {
    /// A call failed; the cause says whether the name was unknown or the
    /// function itself failed.
    CallError { source: LoaderError },
    /// An artifact could not be moved into the artifact directory.
    CantMoveSharedObject { message: String },
    /// The directories could not be prepared or scanned.
    InitializationError { message: String },
    /// `start` was called on a manager that is already started.
    ManagerAlreadyStarted,
    /// An artifact path carries no file name.
    MissingFileName,
    /// The expected artifact is absent.
    MissingSharedObject,
    /// The loader's lock is poisoned.
    LoaderLockFailure,
    /// An artifact could not be loaded.
    LoadError { source: LoaderError },
    /// A deployment was added before the manager was started.
    WorkerNotStarted,
}

/// The failure message of a manager error.
pub open spec fn spec_error_message(e: Error) -> Seq<char> {
    match e {
        Error::CallError { source } => "error calling function: "@
            + crate::loader::spec_error_message(source),
        Error::CantMoveSharedObject { message } => "failed to move shared object: "@ + message@,
        Error::InitializationError { message } => "initialization error: "@ + message@,
        Error::ManagerAlreadyStarted => "manager already started"@,
        Error::MissingFileName => "shared object has no file name"@,
        Error::MissingSharedObject => "missing shared object"@,
        Error::LoaderLockFailure => "loader lock failure"@,
        Error::LoadError { source } => "failed to load funcktion: "@
            + crate::loader::spec_error_message(source),
        Error::WorkerNotStarted => "compile worker is not started"@,
    }
}

impl Error {
    /// The failure message.
    pub fn message(&self) -> (r: String)
        ensures
            r@ == spec_error_message(*self),
    {
        match self {
            Error::CallError { source } => {
                let mut r = String::from_str("error calling function: ");
                r.append(source.message().as_str());
                r
            },
            Error::CantMoveSharedObject { message } => {
                let mut r = String::from_str("failed to move shared object: ");
                r.append(message.as_str());
                r
            },
            Error::InitializationError { message } => {
                let mut r = String::from_str("initialization error: ");
                r.append(message.as_str());
                r
            },
            Error::ManagerAlreadyStarted => String::from_str("manager already started"),
            Error::MissingFileName => String::from_str("shared object has no file name"),
            Error::MissingSharedObject => String::from_str("missing shared object"),
            Error::LoaderLockFailure => String::from_str("loader lock failure"),
            Error::LoadError { source } => {
                let mut r = String::from_str("failed to load funcktion: ");
                r.append(source.message().as_str());
                r
            },
            Error::WorkerNotStarted => String::from_str("compile worker is not started"),
        }
    }
}

/// Where the manager keeps its state on disk: the persistent artifact
/// directory and the scratch directory for in-flight sources.
#[derive(Debug)]
pub struct Config {
    pub shared_object_directory: String,
    pub tmp_dir: String,
}

/// The lifecycle manager over one function type.
pub struct FunckManager<F: Funcktion> {
    cfg: Config,
    loader: FunckLoader<F>,
    status_tracker: StatusTracker,
    pending_jobs: Vec<compiler::Request>,
    started: bool,
}

impl<F: Funcktion> FunckManager<F> {
    /// Well-formedness of the loader registry and the status tracker.
    pub closed spec fn wf(&self) -> bool {
        &&& self.loader.wf()
        &&& self.status_tracker.wf()
    }

    /// The installed functions, by declared name.
    pub closed spec fn loaded(&self) -> Map<Seq<char>, F> {
        self.loader.funcks_view()
    }

    /// The loader's library-identity index.
    pub closed spec fn lib_identities(&self) -> Map<Seq<char>, Seq<char>> {
        self.loader.libs_view()
    }

    /// The tracked statuses, by job name.
    pub closed spec fn statuses(&self) -> Map<Seq<char>, Status> {
        self.status_tracker@
    }

    /// The accepted compile jobs that the worker has not taken yet, oldest
    /// first.
    pub closed spec fn queue(&self) -> Seq<compiler::Request> {
        self.pending_jobs@
    }

    /// Whether the background pipeline has been started.
    pub closed spec fn is_started(&self) -> bool {
        self.started
    }

    /// The configuration given at construction.
    pub closed spec fn spec_cfg(&self) -> Config {
        self.cfg
    }

    /// The configuration given at construction.
    pub fn cfg(&self) -> (r: &Config)
        ensures
            *r == self.spec_cfg(),
    {
        &self.cfg
    }

    /// A manager with no functions, no tracked jobs and an empty queue,
    /// not yet started. The host prepares the directories named by the
    /// configuration and seeds the scan results through
    /// `refresh_shared_objects`.
    pub fn new(cfg: Config) -> (r: FunckManager<F>)
        ensures
            r.wf(),
            r.spec_cfg() == cfg,
            r.loaded() == Map::<Seq<char>, F>::empty(),
            r.statuses() == Map::<Seq<char>, Status>::empty(),
            r.queue() == Seq::<compiler::Request>::empty(),
            !r.is_started(),
    {
        let r = FunckManager {
            cfg,
            loader: FunckLoader::new(),
            status_tracker: StatusTracker::new(),
            pending_jobs: Vec::new(),
            started: false,
        };
        proof {
            assert(r.queue() =~= Seq::<compiler::Request>::empty());
        }
        r
    }

    /// Install the startup scan's harvest: a fresh registry is built from
    /// exactly the given functions, each keyed by its artifact's library
    /// stem, and swapped in whole; every declared name is seeded `Ready`.
    /// Statuses of other names are kept. The stems are distinct, as the
    /// file names in one directory are.
    pub fn refresh_shared_objects(&mut self, funcks: Vec<(String, F)>)
        requires
            old(self).wf(),
            forall|a: int, b: int|
                0 <= a < b < funcks@.len() ==> funcks@[a].0@ != funcks@[b].0@,
        ensures
            final(self).wf(),
            forall|i: int|
                0 <= i < funcks@.len() ==> final(self).loaded().contains_key(
                    #[trigger] funcks@[i].1.spec_name(),
                ),
            forall|k: Seq<char>| #[trigger]
                final(self).loaded().contains_key(k) ==> exists|i: int|
                    0 <= i < funcks@.len() && funcks@[i].1.spec_name() == k,
            forall|i: int|
                0 <= i < funcks@.len() ==> final(self).statuses().contains_key(
                    #[trigger] funcks@[i].1.spec_name(),
                ) && final(self).statuses()[funcks@[i].1.spec_name()] == Status::Ready,
            forall|k: Seq<char>|
                #![trigger final(self).statuses().contains_key(k)]
                (old(self).statuses().contains_key(k) && (forall|i: int|
                    0 <= i < funcks@.len() ==> funcks@[i].1.spec_name() != k)) ==> final(self).statuses().contains_key(k) && final(self).statuses()[k] == old(self).statuses()[k],
            final(self).queue() == old(self).queue(),
            final(self).is_started() == old(self).is_started(),
            final(self).spec_cfg() == old(self).spec_cfg(),
    {
        let ghost orig = funcks@;
        let mut remaining = funcks;
        let mut fresh: FunckLoader<F> = FunckLoader::new();
        let ghost statuses0 = self.status_tracker@;
        let ghost self0 = *self;
        let total = remaining.len();
        let mut j: usize = 0;
        while remaining.len() > 0
            invariant
                self.status_tracker.wf(),
                fresh.wf(),
                total == orig.len(),
                j + remaining@.len() == orig.len(),
                remaining@ =~= orig.subrange(j as int, orig.len() as int),
                forall|a: int, b: int| 0 <= a < b < orig.len() ==> orig[a].0@ != orig[b].0@,
                self.cfg == self0.cfg,
                self.pending_jobs@ == self0.pending_jobs@,
                self.started == self0.started,
                self.loader == self0.loader,
                forall|k: Seq<char>| #[trigger]
                    fresh.libs_view().contains_key(k) ==> exists|i: int|
                        0 <= i < j && orig[i].0@ == k,
                forall|k: Seq<char>| #[trigger]
                    fresh.funcks_view().contains_key(k) ==> exists|i: int|
                        0 <= i < j && orig[i].1.spec_name() == k,
                forall|i: int|
                    0 <= i < j ==> fresh.funcks_view().contains_key(
                        #[trigger] orig[i].1.spec_name(),
                    ),
                forall|i: int|
                    0 <= i < j ==> self.status_tracker@.contains_key(
                        #[trigger] orig[i].1.spec_name(),
                    ) && self.status_tracker@[orig[i].1.spec_name()] == Status::Ready,
                forall|k: Seq<char>|
                    #![trigger self.status_tracker@.contains_key(k)]
                    ((forall|i: int| 0 <= i < j ==> orig[i].1.spec_name() != k) ==> (
                    self.status_tracker@.contains_key(k) == statuses0.contains_key(k)) && (
                    statuses0.contains_key(k) ==> self.status_tracker@[k] == statuses0[k])),
            decreases remaining@.len(),
        {
            let pair = remaining.remove(0);
            let ghost k_new = pair.1.spec_name();
            let ghost stem_new = pair.0@;
            proof {
                assert(orig[j as int] == (pair.0, pair.1));
                assert(!fresh.libs_view().contains_key(stem_new));
            }
            let name = fresh.load_funcktion(pair.0.as_str(), pair.1);
            let ghost tr_prev = self.status_tracker@;
            self.status_tracker.new_with_status(name.as_str(), Status::Ready);
            j = j + 1;
            proof {
                assert(orig[j - 1].1.spec_name() == k_new);
                assert(orig[j - 1].0@ == stem_new);
                assert(fresh.funcks_view().contains_key(k_new));
                assert(self.status_tracker@ == tr_prev.insert(k_new, Status::Ready));
                assert forall|k: Seq<char>|
                    #![trigger self.status_tracker@.contains_key(k)]
                    (forall|i: int| 0 <= i < j ==> orig[i].1.spec_name() != k) implies (
                self.status_tracker@.contains_key(k) == statuses0.contains_key(k)) && (
                statuses0.contains_key(k) ==> self.status_tracker@[k] == statuses0[k]) by {
                    assert(orig[j - 1].1.spec_name() != k);
                    assert(k != k_new);
                    assert(forall|i: int| 0 <= i < j - 1 ==> orig[i].1.spec_name() != k);
                    assert(tr_prev.contains_key(k) == statuses0.contains_key(k));
                }
            }
        }
        self.loader = fresh;
    }

    /// Mark the pipeline started. A second start reports
    /// `ManagerAlreadyStarted` and changes nothing.
    pub fn start(&mut self) -> (r: Result<(), Error>)
        requires
            old(self).wf(),
        ensures
            final(self).wf(),
            final(self).loaded() == old(self).loaded(),
            final(self).statuses() == old(self).statuses(),
            final(self).queue() == old(self).queue(),
            final(self).spec_cfg() == old(self).spec_cfg(),
            match r {
                Ok(_) => !old(self).is_started() && final(self).is_started(),
                Err(e) => e is ManagerAlreadyStarted && old(self).is_started() && final(self).is_started(),
            },
    {
        if self.started {
            Err(Error::ManagerAlreadyStarted)
        } else {
            self.started = true;
            Ok(())
        }
    }

    /// Accept a deployment: its job name is tracked as `Accepted` and the
    /// source directory is queued for the compile worker. Before `start`,
    /// the job is tracked but not queued, and `WorkerNotStarted` is
    /// reported.
    pub fn add(&mut self, src_dir: DropDir) -> (r: Result<(), Error>)
        requires
            old(self).wf(),
        ensures
            final(self).wf(),
            final(self).statuses() == old(self).statuses().insert(
                src_dir.spec_name(),
                Status::Accepted,
            ),
            final(self).loaded() == old(self).loaded(),
            final(self).is_started() == old(self).is_started(),
            final(self).spec_cfg() == old(self).spec_cfg(),
            match r {
                Ok(_) => old(self).is_started() && final(self).queue() == old(self).queue().push(
                    (compiler::Request { source_directory: src_dir }),
                ),
                Err(e) => e is WorkerNotStarted && !old(self).is_started() && final(self).queue()
                    == old(self).queue(),
            },
    {
        self.status_tracker.add(src_dir.name.as_str());
        if !self.started {
            return Err(Error::WorkerNotStarted);
        }
        self.pending_jobs.push(compiler::Request::new(src_dir));
        Ok(())
    }

    /// Hand the compile worker its next job: the oldest queued deployment,
    /// whose status moves to `Compiling`.
    pub fn take_next_job(&mut self) -> (r: Option<compiler::Request>)
        requires
            old(self).wf(),
        ensures
            final(self).wf(),
            final(self).loaded() == old(self).loaded(),
            final(self).is_started() == old(self).is_started(),
            final(self).spec_cfg() == old(self).spec_cfg(),
            match r {
                Some(job) => {
                    &&& old(self).queue().len() > 0
                    &&& job == old(self).queue()[0]
                    &&& final(self).queue() == old(self).queue().drop_first()
                    &&& final(self).statuses() == if old(self).statuses().contains_key(
                        job.source_directory.spec_name(),
                    ) && legal_transition(
                        old(self).statuses()[job.source_directory.spec_name()],
                        Status::Compiling,
                    ) {
                        old(self).statuses().insert(
                            job.source_directory.spec_name(),
                            Status::Compiling,
                        )
                    } else {
                        old(self).statuses()
                    }
                },
                None => {
                    &&& old(self).queue().len() == 0
                    &&& final(self).queue() == old(self).queue()
                    &&& final(self).statuses() == old(self).statuses()
                },
            },
    {
        if self.pending_jobs.len() == 0 {
            return None;
        }
        let job = self.pending_jobs.remove(0);
        let _applied = self.status_tracker.update_status(
            job.source_directory.name.as_str(),
            Status::Compiling,
        );
        proof {
            assert(self.pending_jobs@ =~= old(self).queue().drop_first());
        }
        Some(job)
    }

    /// Record that a job failed, with the reason that its status reports.
    /// The status moves to `Failed(reason)` only along the transition
    /// graph; the returned flag says whether it did.
    pub fn fail_job(&mut self, job_name: &str, reason: String) -> (applied: bool)
        requires
            old(self).wf(),
        ensures
            final(self).wf(),
            final(self).loaded() == old(self).loaded(),
            final(self).queue() == old(self).queue(),
            final(self).is_started() == old(self).is_started(),
            final(self).spec_cfg() == old(self).spec_cfg(),
            applied == (old(self).statuses().contains_key(job_name@) && legal_transition(
                old(self).statuses()[job_name@],
                Status::Failed(reason),
            )),
            final(self).statuses() == if applied {
                old(self).statuses().insert(job_name@, Status::Failed(reason))
            } else {
                old(self).statuses()
            },
    {
        self.status_tracker.update_status(job_name, Status::Failed(reason))
    }

    /// Settle a compile: a failure drives the job to `Failed` with the
    /// failure's rendered reason; a produced artifact is answered with the
    /// completed-compile record naming the artifact's place in the
    /// persistent artifact directory, where the host moves it before
    /// installing. An artifact path without a file name fails the job.
    pub fn finish_compile(&mut self, job_name: &str, outcome: Result<String, compiler::Error>) -> (r:
        Option<compiler::Response>)
        requires
            old(self).wf(),
        ensures
            final(self).wf(),
            final(self).loaded() == old(self).loaded(),
            final(self).queue() == old(self).queue(),
            final(self).is_started() == old(self).is_started(),
            final(self).spec_cfg() == old(self).spec_cfg(),
            match outcome {
                Err(e) => r is None && spec_failed_with(
                    old(self).statuses(),
                    final(self).statuses(),
                    job_name@,
                    compiler::spec_error_message(e),
                ),
                Ok(path) => if text::spec_file_name(path@).len() == 0 {
                    r is None && spec_failed_with(
                        old(self).statuses(),
                        final(self).statuses(),
                        job_name@,
                        spec_error_message(Error::MissingFileName),
                    )
                } else {
                    &&& final(self).statuses() == old(self).statuses()
                    &&& (r matches Some(resp) && resp.so_path@ == old(self).spec_cfg().shared_object_directory@ + seq!['/'] + text::spec_file_name(path@)
                        && resp.job_name@ == job_name@)
                },
            },
    {
        match outcome {
            Err(e) => {
                let reason = e.message();
                let _applied = self.status_tracker.update_status(
                    job_name,
                    Status::Failed(reason),
                );
                None
            },
            Ok(path) => {
                let fname = text::file_name_of(path.as_str());
                if fname.as_str().unicode_len() == 0 {
                    let reason = (Error::MissingFileName).message();
                    let _applied = self.status_tracker.update_status(
                        job_name,
                        Status::Failed(reason),
                    );
                    None
                } else {
                    let so_path = text::path_join(
                        self.cfg.shared_object_directory.as_str(),
                        fname.as_str(),
                    );
                    Some(compiler::Response { so_path, job_name: job_name.to_owned() })
                }
            },
        }
    }

    /// Install a compiled artifact that the host has moved into the
    /// artifact directory and loaded: the function is recorded under its
    /// declared name, keyed by the artifact's library stem, and the job
    /// moves to `Ready`. Returns the declared name.
    pub fn install_artifact(&mut self, artifact_file_name: &str, funck: F, job_name: &str) -> (r:
        String)
        requires
            old(self).wf(),
        ensures
            final(self).wf(),
            r@ == funck.spec_name(),
            final(self).loaded() == spec_install_funcks(
                old(self).loaded(),
                old(self).lib_identities(),
                text::spec_file_stem(artifact_file_name@),
                funck.spec_name(),
                funck,
            ),
            final(self).lib_identities() =~= spec_install_libs(
                old(self).lib_identities(),
                text::spec_file_stem(artifact_file_name@),
                funck.spec_name(),
            ),
            final(self).statuses() == if old(self).statuses().contains_key(job_name@)
                && legal_transition(old(self).statuses()[job_name@], Status::Ready) {
                old(self).statuses().insert(job_name@, Status::Ready)
            } else {
                old(self).statuses()
            },
            final(self).queue() == old(self).queue(),
            final(self).is_started() == old(self).is_started(),
            final(self).spec_cfg() == old(self).spec_cfg(),
    {
        let stem = text::file_stem_of(artifact_file_name);
        let name = self.loader.load_funcktion(stem.as_str(), funck);
        let _applied = self.status_tracker.update_status(job_name, Status::Ready);
        name
    }

    /// Whether a function with the declared name is installed.
    pub fn has(&self, function_name: &str) -> (r: bool)
        requires
            self.wf(),
        ensures
            r == self.loaded().contains_key(function_name@),
    {
        self.loader.has(function_name)
    }

    /// Invoke the installed function with the declared name. An unknown
    /// name reports `UnknownFunction`; a failure inside the function
    /// surfaces as `CallError`, both wrapped as a call failure.
    pub fn call(&self, function_name: &str, request: Request) -> (r: Result<Response, Error>)
        requires
            self.wf(),
        ensures
            match r {
                Ok(_) => self.loaded().contains_key(function_name@),
                Err(e) => e matches Error::CallError { source } && match source {
                    LoaderError::UnknownFunction { name } => !self.loaded().contains_key(
                        function_name@,
                    ) && name@ == function_name@,
                    LoaderError::CallError { name, source } => self.loaded().contains_key(
                        function_name@,
                    ) && name@ == function_name@,
                    _ => false,
                },
            },
    {
        match self.loader.call(function_name, request) {
            Ok(resp) => Ok(resp),
            Err(e) => Err(Error::CallError { source: e }),
        }
    }

    /// A point-in-time snapshot of every tracked job and its status.
    pub fn stat(&self) -> (r: Vec<(String, FuncktionEntry)>)
        requires
            self.wf(),
        ensures
            forall|i: int|
                0 <= i < r@.len() ==> self.statuses().contains_key(#[trigger] r@[i].0@)
                    && self.statuses()[r@[i].0@] == r@[i].1.status,
            forall|k: Seq<char>| #[trigger]
                self.statuses().contains_key(k) ==> exists|i: int|
                    0 <= i < r@.len() && r@[i].0@ == k,
            forall|i: int, j: int| 0 <= i < j < r@.len() ==> r@[i].0@ != r@[j].0@,
    {
        self.status_tracker.all()
    }
}

/// How a status map changes when a job is driven to `Failed(reason)`: a
/// job that was `Compiling` now reports `Failed` with exactly that reason
/// and nothing else changes; a job in any other state — or an untracked
/// name — leaves the map untouched.
pub open spec fn spec_failed_with(
    statuses0: Map<Seq<char>, Status>,
    statuses1: Map<Seq<char>, Status>,
    job: Seq<char>,
    reason: Seq<char>,
) -> bool {
    if statuses0.contains_key(job) && statuses0[job] is Compiling {
        &&& statuses1.contains_key(job)
        &&& (statuses1[job] matches Status::Failed(m) && m@ == reason)
        &&& forall|k: Seq<char>|
            k != job ==> (#[trigger] statuses1.contains_key(k) == statuses0.contains_key(k)) && (
            statuses0.contains_key(k) ==> statuses1[k] == statuses0[k])
    } else {
        statuses1 == statuses0
    }
}

/// A deployment accepted by `add` reports at least `Accepted` in every
/// snapshot taken before its status moves on: the tracker holds the name
/// from the moment `add` returns.
pub proof fn lemma_add_then_stat<F: Funcktion>(
    m0: FunckManager<F>,
    m1: FunckManager<F>,
    name: Seq<char>,
)
    requires
        m1.statuses() == m0.statuses().insert(name, Status::Accepted),
    ensures
        m1.statuses().contains_key(name),
        m1.statuses()[name] == Status::Accepted,
{
}

/// Compile jobs leave the queue in the order their deployments were
/// accepted: two deployments added to an empty queue stand in acceptance
/// order, and the worker always takes the front, so their `Compiling`
/// transitions happen in that same order.
pub proof fn lemma_compile_order<F: Funcktion>(
    m0: FunckManager<F>,
    m1: FunckManager<F>,
    m2: FunckManager<F>,
    d1: DropDir,
    d2: DropDir,
)
    requires
        m0.queue().len() == 0,
        m1.queue() == m0.queue().push((compiler::Request { source_directory: d1 })),
        m2.queue() == m1.queue().push((compiler::Request { source_directory: d2 })),
    ensures
        m2.queue().len() == 2,
        m2.queue()[0].source_directory == d1,
        m2.queue().drop_first()[0].source_directory == d2,
{
}

/// A compile that exits with a non-zero status code drives its job, which
/// was `Compiling`, to `Failed` with exactly the reason `exit code N`.
pub proof fn lemma_exit_code_failure<F: Funcktion>(
    m0: FunckManager<F>,
    m1: FunckManager<F>,
    job: Seq<char>,
    code: i32,
)
    requires
        m0.statuses().contains_key(job),
        m0.statuses()[job] is Compiling,
        spec_failed_with(
            m0.statuses(),
            m1.statuses(),
            job,
            compiler::spec_error_message((compiler::Error::ExitCodeNonZero { code })),
        ),
    ensures
        m1.statuses().contains_key(job),
        m1.statuses()[job] matches Status::Failed(m) && m@ == "exit code "@ + text::spec_dec(
            code as int,
        ),
{
}

/// After an install, the installed declared name is addressable, it
/// resolves to the installed function, and no name other than the one the
/// artifact's identity evicted has been removed.
pub proof fn lemma_install_then_has<F: Funcktion>(
    m0: FunckManager<F>,
    m1: FunckManager<F>,
    lib: Seq<char>,
    f: F,
)
    requires
        m1.loaded() == spec_install_funcks(m0.loaded(), m0.lib_identities(), lib, f.spec_name(), f),
    ensures
        m1.loaded().contains_key(f.spec_name()),
        m1.loaded()[f.spec_name()] == f,
        forall|n: Seq<char>| #[trigger]
            m1.loaded().contains_key(n) && n != f.spec_name() ==> m0.loaded().contains_key(n)
                && m1.loaded()[n] == m0.loaded()[n],
{
}

/// An install evicts exactly what the lifecycle rules say it does: the
/// declared name previously held by the same artifact identity stops being
/// addressable unless the new install declares it again; every other name
/// stays.
pub proof fn lemma_identity_eviction<F: Funcktion>(
    m0: FunckManager<F>,
    m1: FunckManager<F>,
    lib: Seq<char>,
    f: F,
)
    requires
        m1.loaded() == spec_install_funcks(m0.loaded(), m0.lib_identities(), lib, f.spec_name(), f),
        m0.lib_identities().contains_key(lib),
        m0.lib_identities()[lib] != f.spec_name(),
    ensures
        !m1.loaded().contains_key(m0.lib_identities()[lib]),
        forall|n: Seq<char>| #[trigger]
            m0.loaded().contains_key(n) && n != m0.lib_identities()[lib] ==> m1.loaded(
            ).contains_key(n),
{
}

} // verus!
