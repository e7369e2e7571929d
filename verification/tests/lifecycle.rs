//! End-to-end scenarios over the lifecycle manager, driven with in-process
//! stub funcktions in place of loaded artifacts.

use funcky::compiler;
use funcky::manager::{Config, Error, FunckManager, LoaderError};
use funcky::samples::{StubBehavior, StubFunck};
use funcky::{DropDir, FuncktionEntry, Request, Status};

fn fresh_manager() -> FunckManager<StubFunck> {
    FunckManager::new(Config {
        shared_object_directory: String::from("/tmp/funcky/shared_objects"),
        tmp_dir: String::from("/tmp/funcky/build"),
    })
}

fn status_of(snapshot: &[(String, FuncktionEntry)], name: &str) -> Option<Status> {
    snapshot
        .iter()
        .find(|(k, _)| k == name)
        .map(|(_, e)| e.status.clone())
}

fn empty_request() -> Request {
    Request::new(Vec::new(), Vec::new())
}

fn deploy(
    manager: &mut FunckManager<StubFunck>,
    job_name: &str,
    artifact: &str,
    funck: StubFunck,
) {
    let dir = DropDir::new(format!("/tmp/funcky/build/{}", job_name), job_name.to_string());
    manager.add(dir).unwrap();
    let job = manager.take_next_job().expect("a queued job");
    assert_eq!(job.source_directory.name, job_name);
    let produced = format!("/tmp/funcky/build/{}/target/release/{}", job_name, artifact);
    let result = manager
        .finish_compile(job_name, Ok(produced))
        .expect("a compile result");
    assert_eq!(
        result.so_path,
        format!("/tmp/funcky/shared_objects/{}", artifact)
    );
    assert_eq!(result.job_name, job_name);
    let declared = manager.install_artifact(artifact, funck, job_name);
    assert!(manager.has(&declared));
}

#[test]
fn happy_path() {
    let mut m = fresh_manager();
    m.start().unwrap();
    deploy(
        &mut m,
        "greet",
        "libgreet.so",
        StubFunck::new("greet".to_string(), StubBehavior::Fixed(b"hi".to_vec())),
    );
    assert_eq!(status_of(&m.stat(), "greet"), Some(Status::Ready));
    let resp = m.call("greet", empty_request()).unwrap();
    assert_eq!(resp.body().as_slice(), b"hi");
}

#[test]
fn unknown_function() {
    let m = fresh_manager();
    match m.call("nope", empty_request()) {
        Err(Error::CallError {
            source: LoaderError::UnknownFunction { name },
        }) => assert_eq!(name, "nope"),
        other => panic!("expected an unknown-function error, got {:?}", other.err()),
    }
}

#[test]
fn compilation_failure() {
    let mut m = fresh_manager();
    m.start().unwrap();
    let dir = DropDir::new("/tmp/funcky/build/bad".to_string(), "bad".to_string());
    m.add(dir).unwrap();
    let _job = m.take_next_job().expect("a queued job");
    let out = m.finish_compile("bad", Err(compiler::Error::ExitCodeNonZero { code: 101 }));
    assert!(out.is_none());
    assert_eq!(
        status_of(&m.stat(), "bad"),
        Some(Status::Failed("exit code 101".to_string()))
    );
    assert!(!m.has("bad"));
}

#[test]
fn replacement() {
    let mut m = fresh_manager();
    m.start().unwrap();
    deploy(
        &mut m,
        "echo",
        "libecho.so",
        StubFunck::new("echo".to_string(), StubBehavior::Echo),
    );
    let v1 = m
        .call("echo", Request::new(vec![1, 2, 3], Vec::new()))
        .unwrap();
    assert_eq!(v1.body().as_slice(), &[1, 2, 3]);

    deploy(
        &mut m,
        "echo",
        "libecho.so",
        StubFunck::new("echo".to_string(), StubBehavior::ReverseEcho),
    );
    let v2 = m
        .call("echo", Request::new(vec![1, 2, 3], Vec::new()))
        .unwrap();
    assert_eq!(v2.body().as_slice(), &[3, 2, 1]);
    assert_eq!(status_of(&m.stat(), "echo"), Some(Status::Ready));
}

#[test]
fn startup_scan() {
    let mut m = fresh_manager();
    m.refresh_shared_objects(vec![(
        "libgreet".to_string(),
        StubFunck::new("greet".to_string(), StubBehavior::Fixed(b"hi".to_vec())),
    )]);
    assert!(m.has("greet"));
    assert_eq!(status_of(&m.stat(), "greet"), Some(Status::Ready));
}

#[test]
fn foreign_side_failure() {
    let mut m = fresh_manager();
    m.start().unwrap();
    deploy(
        &mut m,
        "boom",
        "libboom.so",
        StubFunck::new(
            "boom".to_string(),
            StubBehavior::Fail("the function panicked".to_string()),
        ),
    );
    deploy(
        &mut m,
        "steady",
        "libsteady.so",
        StubFunck::new("steady".to_string(), StubBehavior::Fixed(b"ok".to_vec())),
    );
    match m.call("boom", empty_request()) {
        Err(Error::CallError {
            source: LoaderError::CallError { name, source },
        }) => {
            assert_eq!(name, "boom");
            assert_eq!(source.message().as_str(), "the function panicked");
        }
        other => panic!("expected a call error, got {:?}", other.err()),
    }
    assert!(m.has("steady"));
    let resp = m.call("steady", empty_request()).unwrap();
    assert_eq!(resp.body().as_slice(), b"ok");
}

#[test]
fn add_is_visible_in_snapshot() {
    let mut m = fresh_manager();
    m.start().unwrap();
    let dir = DropDir::new("/tmp/funcky/build/fresh".to_string(), "fresh".to_string());
    m.add(dir).unwrap();
    assert_eq!(status_of(&m.stat(), "fresh"), Some(Status::Accepted));
}

#[test]
fn jobs_compile_in_acceptance_order() {
    let mut m = fresh_manager();
    m.start().unwrap();
    m.add(DropDir::new("/a".to_string(), "first".to_string())).unwrap();
    m.add(DropDir::new("/b".to_string(), "second".to_string())).unwrap();
    let j1 = m.take_next_job().unwrap();
    assert_eq!(j1.source_directory.name, "first");
    assert_eq!(status_of(&m.stat(), "first"), Some(Status::Compiling));
    assert_eq!(status_of(&m.stat(), "second"), Some(Status::Accepted));
    let j2 = m.take_next_job().unwrap();
    assert_eq!(j2.source_directory.name, "second");
    assert!(m.take_next_job().is_none());
}

#[test]
fn double_start_is_refused() {
    let mut m = fresh_manager();
    m.start().unwrap();
    assert!(matches!(m.start(), Err(Error::ManagerAlreadyStarted)));
}

#[test]
fn add_before_start_is_refused_but_tracked() {
    let mut m = fresh_manager();
    let dir = DropDir::new("/tmp/funcky/build/early".to_string(), "early".to_string());
    assert!(matches!(m.add(dir), Err(Error::WorkerNotStarted)));
    assert_eq!(status_of(&m.stat(), "early"), Some(Status::Accepted));
    assert!(m.take_next_job().is_none());
}

#[test]
fn artifact_without_file_name_fails_the_job() {
    let mut m = fresh_manager();
    m.start().unwrap();
    m.add(DropDir::new("/tmp/funcky/build/odd".to_string(), "odd".to_string()))
        .unwrap();
    let _job = m.take_next_job().unwrap();
    let out = m.finish_compile("odd", Ok("/tmp/funcky/build/odd/".to_string()));
    assert!(out.is_none());
    assert_eq!(
        status_of(&m.stat(), "odd"),
        Some(Status::Failed("shared object has no file name".to_string()))
    );
}

#[test]
fn install_failure_fails_the_job() {
    let mut m = fresh_manager();
    m.start().unwrap();
    m.add(DropDir::new("/tmp/funcky/build/sick".to_string(), "sick".to_string()))
        .unwrap();
    let _job = m.take_next_job().unwrap();
    let reason = Error::LoadError {
        source: LoaderError::MissingSymbol {
            path: "/tmp/funcky/shared_objects/libsick.so".to_string(),
            symbol: "_funck_create".to_string(),
        },
    }
    .message();
    assert!(m.fail_job("sick", reason.clone()));
    assert_eq!(status_of(&m.stat(), "sick"), Some(Status::Failed(reason)));
    assert!(!m.has("sick"));
}
