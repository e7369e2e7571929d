//! The verified text helpers: decimal rendering, path-name computations,
//! and the rendered failure reasons built on them.

use funcky::builder::FunckBuilder;
use funcky::cli;
use funcky::compiler;
use funcky::loader;
use funcky::manager;
use funcky::response;
use funcky::text;

#[test]
fn decimal_rendering() {
    assert_eq!(text::u64_to_string(0), "0");
    assert_eq!(text::u64_to_string(7), "7");
    assert_eq!(text::u64_to_string(10), "10");
    assert_eq!(text::u64_to_string(1234567890), "1234567890");
    assert_eq!(text::u64_to_string(u64::MAX), "18446744073709551615");
    assert_eq!(text::i64_to_string(0), "0");
    assert_eq!(text::i64_to_string(42), "42");
    assert_eq!(text::i64_to_string(-1), "-1");
    assert_eq!(text::i64_to_string(-101), "-101");
    assert_eq!(text::i64_to_string(i64::MIN), "-9223372036854775808");
}

#[test]
fn path_name_computations() {
    assert_eq!(text::file_name_of("/a/b/libgreet.so"), "libgreet.so");
    assert_eq!(text::file_name_of("libgreet.so"), "libgreet.so");
    assert_eq!(text::file_name_of("/a/b/"), "");
    assert_eq!(text::file_stem_of("libgreet.so"), "libgreet");
    assert_eq!(text::file_stem_of("archive.tar.gz"), "archive.tar");
    assert_eq!(text::file_stem_of("plain"), "plain");
    assert!(text::is_dylib_file("libgreet.so"));
    assert!(!text::is_dylib_file("libgreet.dylib"));
    assert!(!text::is_dylib_file("notes.txt"));
    assert!(!text::is_dylib_file("plain"));
    assert_eq!(text::path_join("/srv/so", "libgreet.so"), "/srv/so/libgreet.so");
}

#[test]
fn expected_compiler_output_path() {
    assert_eq!(
        compiler::lib_output_path("greet"),
        "./target/release/libgreet.so"
    );
    let b = FunckBuilder::new();
    assert_eq!(
        b.output_path("/tmp/build/greet"),
        "./target/release/libgreet.so"
    );
}

#[test]
fn compile_failure_reasons() {
    assert_eq!(
        compiler::Error::ExitCodeNonZero { code: 101 }.message(),
        "exit code 101"
    );
    assert_eq!(
        compiler::Error::ExitCodeNonZero { code: -1 }.message(),
        "exit code -1"
    );
    assert_eq!(
        compiler::Error::InvalidOutputPath {
            path: "./target/release/libx.so".to_string()
        }
        .message(),
        "invalid output path"
    );
    assert_eq!(
        compiler::Error::BuildSpawnError {
            message: "no such file".to_string()
        }
        .message(),
        "failed to spawn build command: no such file"
    );
    assert_eq!(
        compiler::Error::BuildJoinError {
            message: "interrupted".to_string()
        }
        .message(),
        "error waiting for build command: interrupted"
    );
    assert_eq!(
        compiler::Error::SwitchDirError {
            path: "/gone".to_string(),
            message: "no such directory".to_string()
        }
        .message(),
        "failed to switch to directory /gone: no such directory"
    );
    assert_eq!(
        compiler::Error::JobDispatchError {
            message: "channel closed".to_string()
        }
        .message(),
        "couldn't send the job to the compilation worker: channel closed"
    );
    assert_eq!(
        compiler::Error::WorkerNotStarted.message(),
        "compile worker is not started"
    );
}

#[test]
fn loader_failure_reasons() {
    assert_eq!(
        loader::Error::UnknownFunction {
            name: "nope".to_string()
        }
        .message(),
        "unknown function: nope"
    );
    assert_eq!(
        loader::Error::MissingSymbol {
            path: "/srv/so/libx.so".to_string(),
            symbol: "_funck_create".to_string()
        }
        .message(),
        "symbol _funck_create not found in shared object /srv/so/libx.so"
    );
}

#[test]
fn more_loader_failure_reasons() {
    assert_eq!(
        loader::Error::FailedToLoadLibrary {
            path: "/srv/so/libx.so".to_string(),
            message: "not a shared object".to_string()
        }
        .message(),
        "failed to load shared object /srv/so/libx.so: not a shared object"
    );
    assert_eq!(
        loader::Error::CallError {
            name: "boom".to_string(),
            source: funcky::CallError::new("bad input".to_string())
        }
        .message(),
        "error calling function boom: bad input"
    );
}

#[test]
fn manager_failure_reasons() {
    assert_eq!(
        manager::Error::MissingFileName.message(),
        "shared object has no file name"
    );
    assert_eq!(
        manager::Error::ManagerAlreadyStarted.message(),
        "manager already started"
    );
    assert_eq!(
        manager::Error::CantMoveSharedObject {
            message: "permission denied".to_string()
        }
        .message(),
        "failed to move shared object: permission denied"
    );
    assert_eq!(
        manager::Error::InitializationError {
            message: "read-only file system".to_string()
        }
        .message(),
        "initialization error: read-only file system"
    );
    assert_eq!(
        manager::Error::MissingSharedObject.message(),
        "missing shared object"
    );
    assert_eq!(
        manager::Error::LoaderLockFailure.message(),
        "loader lock failure"
    );
    assert_eq!(
        manager::Error::WorkerNotStarted.message(),
        "compile worker is not started"
    );
    assert_eq!(
        manager::Error::LoadError {
            source: manager::LoaderError::UnknownFunction {
                name: "gone".to_string()
            }
        }
        .message(),
        "failed to load funcktion: unknown function: gone"
    );
}

#[test]
fn client_facing_error_mapping() {
    let unknown = manager::Error::CallError {
        source: manager::LoaderError::UnknownFunction {
            name: "nope".to_string(),
        },
    };
    assert_eq!(response::get_status_code(&unknown), 404);
    assert_eq!(
        response::get_serializable(&unknown).error().as_str(),
        "error calling function: unknown function: nope"
    );

    let failed = manager::Error::CallError {
        source: manager::LoaderError::CallError {
            name: "boom".to_string(),
            source: funcky::CallError::new("it broke".to_string()),
        },
    };
    assert_eq!(response::get_status_code(&failed), 500);
    assert_eq!(response::get_serializable(&failed).error().as_str(), "it broke");

    let internal = manager::Error::LoaderLockFailure;
    assert_eq!(response::get_status_code(&internal), 500);
    assert_eq!(
        response::get_serializable(&internal).error().as_str(),
        "Internal Server Error"
    );
}

#[test]
fn header_entry_filtering() {
    let metadata = vec![
        ("Content-Type".to_string(), "application/json".to_string()),
        ("bad header".to_string(), "x".to_string()),
        ("X-Trace".to_string(), "line\nbreak".to_string()),
        ("X-Ok".to_string(), "fine".to_string()),
    ];
    assert_eq!(
        response::valid_headers(&metadata),
        vec![
            ("Content-Type".to_string(), "application/json".to_string()),
            ("X-Ok".to_string(), "fine".to_string())
        ]
    );
}

#[test]
fn deployment_bundle_decisions() {
    assert!(cli::is_deployable_file("Cargo.toml"));
    assert!(cli::is_deployable_file("Cargo.lock"));
    assert!(cli::is_deployable_file("src"));
    assert!(!cli::is_deployable_file("target"));
    assert!(!cli::is_deployable_file(".git"));
    let listing = vec![
        "target".to_string(),
        "Cargo.toml".to_string(),
        ".git".to_string(),
        "src".to_string(),
        "Cargo.lock".to_string(),
    ];
    assert_eq!(
        cli::get_deployable_files(listing),
        vec![
            "Cargo.toml".to_string(),
            "src".to_string(),
            "Cargo.lock".to_string()
        ]
    );
    assert_eq!(cli::bundle_name("greet"), "greet.zip");
    assert_eq!(
        cli::deploy_url("localhost", 3030),
        "http://localhost:3030/_funck_add"
    );
}
