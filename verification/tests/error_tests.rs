use fpt::errors::Error;
use fpt::fixture::FixtureInputs;
use fpt::fixture::FixtureMetadata;
use fpt::fixture::HashDigest;
use fpt::fixture::TestFixture;
use fpt::pipeline::DiscoveredFixture;
use fpt::pipeline::TestRunner;
use fpt::pipeline::UnitOutcome;
use fpt::registry::BuildInstructions;
use fpt::registry::FPRegistry;
use fpt::registry::PlatformEntry;
use fpt::registry::PlatformKind;
use fpt::registry::ProgramEntry;
use fpt::registry::ProgramKind;
use fpt::registry::TestConfig;

#[test]
fn messages_name_their_subjects() {
    let e = Error::UnknownPlatformKind { name: "x86".to_string() };
    assert_eq!(e.message(), "unknown platform kind: x86");
    let e = Error::UnknownProgramKind { name: "zeth".to_string() };
    assert_eq!(e.message(), "unknown program kind: zeth");
    let e = Error::InvalidGlob { pattern: "a[".to_string() };
    assert_eq!(e.message(), "invalid test name pattern: a[");
    assert_eq!(Error::EmptyCommand.message(), "build step holds no command");
    let e = Error::ComponentNotBuilt { component: "org/x".to_string() };
    assert_eq!(e.message(), "component was never built: org/x");
    let e = Error::UnknownArtifact { name: "vm".to_string() };
    assert_eq!(e.message(), "no artifact named: vm");
    let e = Error::BuildFailed { component: "org/x".to_string(), step: 0 };
    assert_eq!(e.message(), "failed to build component org/x at step 0");
    let e = Error::DecompressFailed { dir: "tests/simple-transfer".to_string(), step: 1 };
    assert_eq!(e.message(), "failed to decompress fixture at tests/simple-transfer at step 1");
    let e = Error::CleanupFailed { dir: "tests/simple-transfer".to_string() };
    assert_eq!(e.message(), "failed to clean up fixture at tests/simple-transfer");
    assert_eq!(Error::MissingVmBinary.message(), "missing virtual machine binary");
    assert_eq!(Error::MissingHostBinary.message(), "missing host binary");
    assert_eq!(Error::MissingExitCode.message(), "host command exited without a status code");
    assert_eq!(Error::DidNotExit.message(), "guest program did not exit");
    assert_eq!(Error::NotImplemented.message(), "platform or program is not implemented");
    let e = Error::SpawnFailed { program: "git".to_string() };
    assert_eq!(e.message(), "failed to spawn: git");
    let e = Error::LoadFailed { program: "/bin/cannon".to_string() };
    assert_eq!(e.message(), "failed to load program image: /bin/cannon");
    assert_eq!(
        Error::VmOutputUnreadable.message(),
        "virtual machine left no readable outcome"
    );
}

fn empty_selection() -> TestConfig {
    TestConfig { test: None, vm: None, program: None, workers: 1 }
}

#[test]
fn empty_registry_yields_empty_pipeline() {
    let reg = FPRegistry { platforms: Vec::new(), programs: Vec::new() };
    let matrix = reg.resolve_matrix(None);
    assert_eq!(matrix.len(), 0);
    let runner = TestRunner::new(empty_selection(), matrix);
    assert_eq!(runner.build_jobs(&reg), Vec::new());
    let ready = runner.into_ready(Vec::new()).unwrap();
    assert_eq!(ready.unit_count(), 0);
    assert_eq!(ready.decompress_dirs(), Vec::<String>::new());
    let ran = ready.into_ran(Vec::new()).unwrap();
    assert_eq!(ran.teardown_dirs(), Vec::<String>::new());
    let summary = ran.finish();
    assert_eq!(summary.passed, 0);
    assert_eq!(summary.failed, 0);
}

#[test]
fn load_failure_outcome_is_fatal() {
    let reg = FPRegistry {
        platforms: vec![PlatformEntry { kind: PlatformKind::Native, default: true, build: None }],
        programs: vec![ProgramEntry {
            kind: ProgramKind::OpProgramNative,
            default: true,
            platform_compat: vec![PlatformKind::Native],
            build: BuildInstructions {
                repo: "org/op-program".to_string(),
                rev: "v1".to_string(),
                workdir: ".".to_string(),
                cmd: vec!["make".to_string()],
                artifacts: Vec::new(),
            },
        }],
    };
    let cfg = empty_selection();
    let matrix = reg.resolve_matrix(Some(&cfg));
    let runner = TestRunner::new(cfg, matrix);
    let ready = runner
        .into_ready(vec![DiscoveredFixture {
            name: "simple-transfer".to_string(),
            dir: "tests/simple-transfer".to_string(),
            fixture: TestFixture {
                metadata: FixtureMetadata {
                    name: "simple-transfer".to_string(),
                    expected_status: 0,
                },
                inputs: FixtureInputs {
                    l1_head: HashDigest::new(vec![0u8; 32]),
                    l2_block_number: 1,
                    l2_claim: HashDigest::new(vec![1u8; 32]),
                    l2_output_root: HashDigest::new(vec![2u8; 32]),
                    l2_head: HashDigest::new(vec![3u8; 32]),
                    l2_chain_id: 10,
                },
            },
        }])
        .unwrap();
    assert_eq!(ready.unit_count(), 1);
    let outcome = UnitOutcome::Infra {
        error: Error::LoadFailed { program: "/bin/cannon".to_string() },
    };
    let e = ready.into_ran(vec![outcome]).unwrap_err();
    assert!(matches!(e, Error::LoadFailed { ref program } if program == "/bin/cannon"));
}
