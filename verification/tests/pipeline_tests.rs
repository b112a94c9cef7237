use fpt::errors::Error;
use fpt::fixture::FixtureInputs;
use fpt::fixture::FixtureMetadata;
use fpt::fixture::HashDigest;
use fpt::fixture::TestFixture;
use fpt::orchestrator::BuildCache;
use fpt::pipeline::BuildJob;
use fpt::pipeline::DiscoveredFixture;
use fpt::pipeline::TestRunner;
use fpt::pipeline::UnitOutcome;
use fpt::pipeline::decompress_commands;
use fpt::pipeline::cleanup_paths;
use fpt::pipeline::complete_cleanup;
use fpt::pipeline::complete_decompression;
use fpt::pipeline::process_exit_code;
use fpt::platform::native_status;
use fpt::registry::BuildInstructions;
use fpt::registry::FPRegistry;
use fpt::registry::PlatformEntry;
use fpt::registry::PlatformKind;
use fpt::registry::ProgramEntry;
use fpt::registry::ProgramKind;
use fpt::registry::TestConfig;

fn digest(byte: u8) -> HashDigest {
    HashDigest::new(vec![byte; 32])
}

fn op_program_build() -> BuildInstructions {
    BuildInstructions {
        repo: "org/op-program".to_string(),
        rev: "v1.0.0".to_string(),
        workdir: "op-program".to_string(),
        cmd: vec!["make op-program".to_string()],
        artifacts: vec![
            ("client".to_string(), "bin/client.elf".to_string()),
            ("host".to_string(), "bin/op-program".to_string()),
        ],
    }
}

fn cannon_build() -> BuildInstructions {
    BuildInstructions {
        repo: "org/cannon".to_string(),
        rev: "v2.0.0".to_string(),
        workdir: "cannon".to_string(),
        cmd: vec!["make cannon".to_string()],
        artifacts: vec![("vm".to_string(), "bin/cannon".to_string())],
    }
}

fn registry() -> FPRegistry {
    FPRegistry {
        platforms: vec![
            PlatformEntry { kind: PlatformKind::Native, default: true, build: None },
            PlatformEntry {
                kind: PlatformKind::Cannon,
                default: false,
                build: Some(cannon_build()),
            },
        ],
        programs: vec![
            ProgramEntry {
                kind: ProgramKind::OpProgramNative,
                default: true,
                platform_compat: vec![PlatformKind::Native],
                build: op_program_build(),
            },
            ProgramEntry {
                kind: ProgramKind::OpProgramMips,
                default: false,
                platform_compat: vec![PlatformKind::Cannon],
                build: op_program_build(),
            },
        ],
    }
}

fn selection(test: Option<&str>) -> TestConfig {
    TestConfig { test: test.map(|s| s.to_string()), vm: None, program: None, workers: 4 }
}

fn fixture(name: &str, expected_status: u8) -> DiscoveredFixture {
    DiscoveredFixture {
        name: name.to_string(),
        dir: format!("tests/{}", name),
        fixture: TestFixture {
            metadata: FixtureMetadata { name: name.to_string(), expected_status },
            inputs: FixtureInputs {
                l1_head: digest(0xaa),
                l2_block_number: 7,
                l2_claim: digest(0xbb),
                l2_output_root: digest(0xcc),
                l2_head: digest(0xdd),
                l2_chain_id: 901,
            },
        },
    }
}

fn built_cache(reg: &FPRegistry) -> BuildCache {
    let mut cache = BuildCache::new("/components".to_string());
    cache.complete_build(&reg.programs[0].build, None).unwrap();
    cache.complete_build(&reg.programs[1].build, None).unwrap();
    cache.complete_build(reg.platforms[1].build.as_ref().unwrap(), None).unwrap();
    cache
}

#[test]
fn build_jobs_order_programs_then_platform() {
    let reg = registry();
    let matrix = reg.resolve_matrix(None);
    let runner = TestRunner::new(selection(None), matrix);
    let jobs = runner.build_jobs(&reg);
    assert_eq!(
        jobs,
        vec![
            BuildJob::Program { index: 0 },
            BuildJob::Program { index: 1 },
            BuildJob::Platform { index: 1 },
        ]
    );
}

#[test]
fn into_ready_crosses_matrix_with_fixtures() {
    let reg = registry();
    let matrix = reg.resolve_matrix(None);
    let runner = TestRunner::new(selection(None), matrix);
    let ready = runner
        .into_ready(vec![fixture("simple-transfer", 0), fixture("big-block", 0)])
        .unwrap();
    assert_eq!(ready.unit_count(), 4);
    assert_eq!(ready.unit(0).platform, 0);
    assert_eq!(ready.unit(0).program, 0);
    assert_eq!(ready.unit(0).fixture, 0);
    assert_eq!(ready.unit(1).fixture, 1);
    assert_eq!(ready.unit(2).platform, 1);
    assert_eq!(ready.unit(2).program, 1);
}

#[test]
fn into_ready_filters_by_glob() {
    let reg = registry();
    let cfg = TestConfig {
        test: Some("simple-*".to_string()),
        vm: None,
        program: None,
        workers: 4,
    };
    let runner = TestRunner::new(cfg, reg.resolve_matrix(None));
    let ready = runner
        .into_ready(vec![fixture("simple-transfer", 0), fixture("big-block", 0)])
        .unwrap();
    assert_eq!(ready.unit_count(), 2);
    assert_eq!(ready.unit(0).fixture, 0);
    assert_eq!(ready.unit(1).fixture, 0);
}

#[test]
fn into_ready_rejects_invalid_glob() {
    let reg = registry();
    let cfg = TestConfig {
        test: Some("simple-[".to_string()),
        vm: None,
        program: None,
        workers: 4,
    };
    let runner = TestRunner::new(cfg, reg.resolve_matrix(None));
    let e = runner.into_ready(vec![fixture("simple-transfer", 0)]).unwrap_err();
    assert!(matches!(e, Error::InvalidGlob { ref pattern } if pattern == "simple-["));
}

#[test]
fn shared_fixture_is_decompressed_and_torn_down_once() {
    let mut reg2 = registry();
    reg2.programs[1].platform_compat = vec![PlatformKind::Native];
    reg2.programs[1].default = true;
    let matrix2 = reg2.resolve_matrix(Some(&selection(None)));
    assert_eq!(matrix2.len(), 1);
    assert_eq!(matrix2[0].programs.len(), 2);
    let runner = TestRunner::new(selection(None), matrix2);
    let ready = runner.into_ready(vec![fixture("simple-transfer", 0)]).unwrap();
    assert_eq!(ready.unit_count(), 2);
    assert_eq!(ready.unit(0).fixture, ready.unit(1).fixture);
    let dirs = ready.decompress_dirs();
    assert_eq!(dirs, vec!["tests/simple-transfer".to_string()]);
    let ran = ready
        .into_ran(vec![UnitOutcome::Completed { status: 0 }, UnitOutcome::Completed { status: 0 }])
        .unwrap();
    assert_eq!(ran.teardown_dirs(), vec!["tests/simple-transfer".to_string()]);
}

#[test]
fn decompress_commands_shape() {
    let cmds = decompress_commands("tests/simple-transfer");
    assert_eq!(cmds.len(), 2);
    assert_eq!(cmds[0].program, "zstd");
    assert_eq!(
        cmds[0].args,
        vec!["-d".to_string(), "tests/simple-transfer/genesis.json.zst".to_string()]
    );
    assert_eq!(cmds[0].cwd, Some("tests/simple-transfer".to_string()));
    assert_eq!(cmds[1].program, "tar");
    assert_eq!(
        cmds[1].args,
        vec![
            "--zstd".to_string(),
            "-xvf".to_string(),
            "tests/simple-transfer/witness-db.tar.zst".to_string(),
        ]
    );
    assert_eq!(cmds[1].cwd, Some("tests/simple-transfer".to_string()));
}

#[test]
fn decompression_failure_names_the_fixture() {
    assert_eq!(complete_decompression("tests/simple-transfer", None), Ok(()));
    let e = complete_decompression("tests/simple-transfer", Some(0)).unwrap_err();
    assert!(matches!(
        e,
        Error::DecompressFailed { ref dir, step: 0 } if dir == "tests/simple-transfer"
    ));
}

#[test]
fn cleanup_failure_names_the_fixture() {
    assert_eq!(complete_cleanup("tests/simple-transfer", true), Ok(()));
    let e = complete_cleanup("tests/simple-transfer", false).unwrap_err();
    assert!(matches!(e, Error::CleanupFailed { ref dir } if dir == "tests/simple-transfer"));
}

#[test]
fn cleanup_paths_preserve_archives() {
    let (genesis, witness) = cleanup_paths("tests/simple-transfer");
    assert_eq!(genesis, "tests/simple-transfer/genesis.json");
    assert_eq!(witness, "tests/simple-transfer/witness-db");
}

#[test]
fn native_unit_plan_resolves_artifacts_and_command() {
    let reg = registry();
    let cache = built_cache(&reg);
    let cfg = selection(None);
    let matrix = reg.resolve_matrix(Some(&cfg));
    let runner = TestRunner::new(cfg, matrix);
    let ready = runner.into_ready(vec![fixture("simple-transfer", 0)]).unwrap();
    assert_eq!(ready.unit_count(), 1);
    let plan = ready.prepare_unit(0, &reg, &cache, "/tmp/wd").unwrap();
    assert_eq!(plan.kind, PlatformKind::Native);
    assert!(plan.load.is_none());
    assert_eq!(plan.expected, 0);
    assert_eq!(plan.run.program, "/components/org/op-program/op-program/bin/op-program");
    assert_eq!(plan.run.cwd, Some("/tmp/wd".to_string()));
    assert_eq!(plan.run.args[0], "--l1.head");
    assert_eq!(plan.run.args[plan.run.args.len() - 2], "--datadir");
    assert_eq!(plan.run.args[plan.run.args.len() - 1], "tests/simple-transfer/witness-db");
}

#[test]
fn cannon_unit_plan_has_load_and_wrapped_run() {
    let reg = registry();
    let cache = built_cache(&reg);
    let matrix = reg.resolve_matrix(None);
    let runner = TestRunner::new(selection(None), matrix);
    let ready = runner.into_ready(vec![fixture("simple-transfer", 0)]).unwrap();
    assert_eq!(ready.unit_count(), 2);
    assert_eq!(ready.unit(1).platform, 1);
    let plan = ready.prepare_unit(1, &reg, &cache, "/tmp/wd").unwrap();
    assert_eq!(plan.kind, PlatformKind::Cannon);
    let load = plan.load.unwrap();
    assert_eq!(load.program, "/components/org/cannon/cannon/bin/cannon");
    assert_eq!(load.args[0], "load-elf");
    assert_eq!(load.args[2], "/components/org/op-program/op-program/bin/client.elf");
    assert_eq!(plan.run.program, "/components/org/cannon/cannon/bin/cannon");
    assert_eq!(plan.run.args[0], "run");
    assert_eq!(plan.run.args[7], "--");
    assert_eq!(plan.run.args[8], "/components/org/op-program/op-program/bin/op-program");
    assert!(plan.run.args.contains(&"--server".to_string()));
}

#[test]
fn unit_plan_on_unbuilt_component_fails() {
    let reg = registry();
    let cache = BuildCache::new("/components".to_string());
    let cfg = selection(None);
    let matrix = reg.resolve_matrix(Some(&cfg));
    let runner = TestRunner::new(cfg, matrix);
    let ready = runner.into_ready(vec![fixture("simple-transfer", 0)]).unwrap();
    let e = ready.prepare_unit(0, &reg, &cache, "/tmp/wd").unwrap_err();
    assert!(matches!(e, Error::ComponentNotBuilt { ref component } if component == "org/op-program"));
}

#[test]
fn end_to_end_matching_status_passes() {
    let reg = registry();
    let cache = built_cache(&reg);
    let cfg = selection(None);
    let matrix = reg.resolve_matrix(Some(&cfg));
    let runner = TestRunner::new(cfg, matrix);
    let jobs = runner.build_jobs(&reg);
    assert_eq!(jobs, vec![BuildJob::Program { index: 0 }]);
    let ready = runner.into_ready(vec![fixture("simple-transfer", 0)]).unwrap();
    assert_eq!(ready.decompress_dirs(), vec!["tests/simple-transfer".to_string()]);
    let plan = ready.prepare_unit(0, &reg, &cache, "/tmp/wd").unwrap();
    assert_eq!(plan.kind, PlatformKind::Native);
    let status = native_status(Some(0)).unwrap();
    let outcome = UnitOutcome::Completed { status };
    let ran = ready.into_ran(vec![outcome]).unwrap();
    assert_eq!(ran.teardown_dirs(), vec!["tests/simple-transfer".to_string()]);
    let summary = ran.finish();
    assert_eq!(summary.passed, 1);
    assert_eq!(summary.failed, 0);
    assert_eq!(process_exit_code(&summary), 0);
}

#[test]
fn end_to_end_wrong_status_is_a_failed_test_not_a_crash() {
    let reg = registry();
    let cache = built_cache(&reg);
    let cfg = selection(None);
    let matrix = reg.resolve_matrix(Some(&cfg));
    let runner = TestRunner::new(cfg, matrix);
    let ready = runner.into_ready(vec![fixture("simple-transfer", 0)]).unwrap();
    let plan = ready.prepare_unit(0, &reg, &cache, "/tmp/wd").unwrap();
    assert_eq!(plan.expected, 0);
    let status = native_status(Some(1)).unwrap();
    let ran = ready.into_ran(vec![UnitOutcome::Completed { status }]).unwrap();
    let summary = ran.finish();
    assert_eq!(summary.passed, 0);
    assert_eq!(summary.failed, 1);
    assert_eq!(process_exit_code(&summary), 1);
}

#[test]
fn end_to_end_failed_build_step_aborts_setup() {
    let reg = registry();
    let mut cache = BuildCache::new("/components".to_string());
    let cfg = selection(None);
    let matrix = reg.resolve_matrix(Some(&cfg));
    let runner = TestRunner::new(cfg, matrix);
    let jobs = runner.build_jobs(&reg);
    assert_eq!(jobs, vec![BuildJob::Program { index: 0 }]);
    let plan = cache.ensure_built_plan(&reg.programs[0].build).unwrap();
    assert_eq!(plan.len(), 2);
    let e = cache.complete_build(&reg.programs[0].build, Some(1)).unwrap_err();
    assert!(matches!(e, Error::BuildFailed { ref component, step: 1 } if component == "org/op-program"));
    assert_eq!(e.message(), "failed to build component org/op-program at step 1");
}

#[test]
fn infrastructure_error_is_fatal_and_first() {
    let reg = registry();
    let matrix = reg.resolve_matrix(None);
    let runner = TestRunner::new(selection(None), matrix);
    let ready = runner.into_ready(vec![fixture("simple-transfer", 0)]).unwrap();
    assert_eq!(ready.unit_count(), 2);
    let outcomes = vec![
        UnitOutcome::Completed { status: 0 },
        UnitOutcome::Infra { error: Error::SpawnFailed { program: "/bin/cannon".to_string() } },
    ];
    let e = ready.into_ran(outcomes).unwrap_err();
    assert!(matches!(e, Error::SpawnFailed { ref program } if program == "/bin/cannon"));
    assert_eq!(e.message(), "failed to spawn: /bin/cannon");
}

#[test]
fn mixed_statuses_are_counted_not_dropped() {
    let reg = registry();
    let mut reg2 = reg;
    reg2.programs[1].platform_compat = vec![PlatformKind::Native];
    reg2.programs[1].default = true;
    let cfg = selection(None);
    let matrix = reg2.resolve_matrix(Some(&cfg));
    let runner = TestRunner::new(cfg, matrix);
    let ready = runner
        .into_ready(vec![fixture("simple-transfer", 0), fixture("big-block", 3)])
        .unwrap();
    assert_eq!(ready.unit_count(), 4);
    let outcomes = vec![
        UnitOutcome::Completed { status: 0 },
        UnitOutcome::Completed { status: 3 },
        UnitOutcome::Completed { status: 1 },
        UnitOutcome::Completed { status: 3 },
    ];
    let ran = ready.into_ran(outcomes).unwrap();
    let summary = ran.finish();
    assert_eq!(summary.passed, 3);
    assert_eq!(summary.failed, 1);
}
