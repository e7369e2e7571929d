//! The loader registry: installation, lookup, dispatch and eviction.

use funcky::loader::Error;
use funcky::samples::{StubBehavior, StubFunck};
use funcky::{FunckLoader, Request};

fn stub(name: &str, behavior: StubBehavior) -> StubFunck {
    StubFunck::new(name.to_string(), behavior)
}

fn plain_request(body: &[u8]) -> Request {
    Request::new(body.to_vec(), Vec::new())
}

#[test]
fn install_then_lookup() {
    let mut l: FunckLoader<StubFunck> = FunckLoader::new();
    let name = l.load_funcktion("libgreet", stub("greet", StubBehavior::Fixed(b"hi".to_vec())));
    assert_eq!(name, "greet");
    assert!(l.has("greet"));
    assert!(!l.has("libgreet"));
    let resp = l.call("greet", plain_request(b"")).unwrap();
    assert_eq!(resp.body().as_slice(), b"hi");
}

#[test]
fn call_of_absent_name_reports_unknown_function() {
    let l: FunckLoader<StubFunck> = FunckLoader::new();
    match l.call("ghost", plain_request(b"")) {
        Err(Error::UnknownFunction { name }) => assert_eq!(name, "ghost"),
        other => panic!("expected an unknown-function error, got {:?}", other.err()),
    }
}

#[test]
fn function_failure_is_wrapped_with_its_name() {
    let mut l: FunckLoader<StubFunck> = FunckLoader::new();
    l.load_funcktion("libboom", stub("boom", StubBehavior::Fail("ouch".to_string())));
    match l.call("boom", plain_request(b"")) {
        Err(Error::CallError { name, source }) => {
            assert_eq!(name, "boom");
            assert_eq!(source.message().as_str(), "ouch");
        }
        other => panic!("expected a call error, got {:?}", other.err()),
    }
}

#[test]
fn same_identity_replaces_the_install() {
    let mut l: FunckLoader<StubFunck> = FunckLoader::new();
    l.load_funcktion("libecho", stub("echo", StubBehavior::Echo));
    l.load_funcktion("libecho", stub("echo", StubBehavior::ReverseEcho));
    let resp = l.call("echo", plain_request(&[1, 2, 3])).unwrap();
    assert_eq!(resp.body().as_slice(), &[3, 2, 1]);
}

#[test]
fn same_identity_new_name_evicts_the_old_name() {
    let mut l: FunckLoader<StubFunck> = FunckLoader::new();
    l.load_funcktion("libx", stub("alpha", StubBehavior::Echo));
    l.load_funcktion("libx", stub("beta", StubBehavior::Echo));
    assert!(!l.has("alpha"));
    assert!(l.has("beta"));
}

#[test]
fn new_identity_same_name_wins_and_clears_the_stale_identity() {
    let mut l: FunckLoader<StubFunck> = FunckLoader::new();
    l.load_funcktion("libold", stub("fnk", StubBehavior::Fixed(b"old".to_vec())));
    l.load_funcktion("libnew", stub("fnk", StubBehavior::Fixed(b"new".to_vec())));
    let resp = l.call("fnk", plain_request(b"")).unwrap();
    assert_eq!(resp.body().as_slice(), b"new");
    // The stale identity no longer evicts the function it used to name.
    l.load_funcktion("libold", stub("other", StubBehavior::Echo));
    assert!(l.has("fnk"));
    assert!(l.has("other"));
    let resp = l.call("fnk", plain_request(b"")).unwrap();
    assert_eq!(resp.body().as_slice(), b"new");
}

#[test]
fn drop_all_releases_everything() {
    let mut l: FunckLoader<StubFunck> = FunckLoader::new();
    l.load_funcktion("liba", stub("a", StubBehavior::Echo));
    l.load_funcktion("libb", stub("b", StubBehavior::Echo));
    l.drop_all();
    assert!(!l.has("a"));
    assert!(!l.has("b"));
}
