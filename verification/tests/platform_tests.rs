use fpt::errors::Error;
use fpt::fixture::FixtureInputs;
use fpt::fixture::HashDigest;
use fpt::platform::Cannon;
use fpt::platform::Platform;
use fpt::platform::native_status;
use fpt::platform::vm_status;
use fpt::program::OpProgram;
use fpt::program::ProgramHostInputs;
use fpt::program::ProgramHostSource;
use fpt::registry::PlatformKind;
use fpt::registry::ProgramKind;

fn digest(byte: u8) -> HashDigest {
    HashDigest::new(vec![byte; 32])
}

fn hex_of(byte: u8) -> String {
    let mut s = String::from("0x");
    for _ in 0..32 {
        s.push_str(&format!("{:02x}", byte));
    }
    s
}

fn inputs() -> ProgramHostInputs {
    ProgramHostInputs {
        fixture_inputs: FixtureInputs {
            l1_head: digest(0xaa),
            l2_block_number: 12345,
            l2_claim: digest(0xbb),
            l2_output_root: digest(0xcc),
            l2_head: digest(0xdd),
            l2_chain_id: 901,
        },
        rollup_cfg_path: "tests/simple-transfer/rollup.json".to_string(),
        genesis_path: "tests/simple-transfer/genesis.json".to_string(),
        source: ProgramHostSource::Disk { path: "tests/simple-transfer/witness-db".to_string() },
    }
}

#[test]
fn host_cmd_native_exact_vector() {
    let p = OpProgram::new("/bin/op-program".to_string(), false);
    let cmd = p.host_cmd(&inputs());
    assert_eq!(
        cmd,
        vec![
            "/bin/op-program".to_string(),
            "--l1.head".to_string(),
            hex_of(0xaa),
            "--l2.head".to_string(),
            hex_of(0xdd),
            "--l2.outputroot".to_string(),
            hex_of(0xcc),
            "--l2.claim".to_string(),
            hex_of(0xbb),
            "--l2.blocknumber".to_string(),
            "12345".to_string(),
            "--l2.chainid".to_string(),
            "901".to_string(),
            "--rollup.config".to_string(),
            "tests/simple-transfer/rollup.json".to_string(),
            "--l2.genesis".to_string(),
            "tests/simple-transfer/genesis.json".to_string(),
            "--datadir".to_string(),
            "tests/simple-transfer/witness-db".to_string(),
        ]
    );
}

#[test]
fn host_cmd_server_mode_adds_flag_before_source() {
    let p = OpProgram::new("/bin/op-program".to_string(), true);
    let cmd = p.host_cmd(&inputs());
    assert_eq!(cmd[cmd.len() - 3], "--server");
    assert_eq!(cmd[cmd.len() - 2], "--datadir");
}

#[test]
fn host_cmd_rpc_source_flags() {
    let p = OpProgram::new("/bin/op-program".to_string(), false);
    let mut i = inputs();
    i.source = ProgramHostSource::Rpc {
        l1: "http://l1".to_string(),
        l1_beacon: "http://beacon".to_string(),
        l2: "http://l2".to_string(),
        path: "cache-dir".to_string(),
    };
    let cmd = p.host_cmd(&i);
    let tail = &cmd[cmd.len() - 8..];
    assert_eq!(
        tail,
        &[
            "--l1".to_string(),
            "http://l1".to_string(),
            "--l1.beacon".to_string(),
            "http://beacon".to_string(),
            "--l2".to_string(),
            "http://l2".to_string(),
            "--datadir".to_string(),
            "cache-dir".to_string(),
        ]
    );
}

#[test]
fn get_program_picks_server_mode_by_kind() {
    let p = ProgramKind::OpProgramNative.get_program("/bin/host".to_string()).unwrap();
    assert!(!p.server_mode);
    let p = ProgramKind::OpProgramMips.get_program("/bin/host".to_string()).unwrap();
    assert!(p.server_mode);
    let p = ProgramKind::OpProgramRiscv.get_program("/bin/host".to_string()).unwrap();
    assert!(p.server_mode);
}

#[test]
fn get_program_rejects_reserved_kinds() {
    let e = ProgramKind::KonaNative.get_program("/bin/host".to_string()).unwrap_err();
    assert!(matches!(e, Error::NotImplemented));
    let e = ProgramKind::KonaRiscv.get_program("/bin/host".to_string()).unwrap_err();
    assert!(matches!(e, Error::NotImplemented));
}

#[test]
fn get_platform_native_needs_no_binary() {
    let p = PlatformKind::Native.get_platform(None).unwrap();
    assert!(matches!(p, Platform::Native));
}

#[test]
fn get_platform_cannon_demands_binary() {
    let e = PlatformKind::Cannon.get_platform(None).unwrap_err();
    assert!(matches!(e, Error::MissingVmBinary));
    let p = PlatformKind::Cannon.get_platform(Some("/bin/cannon".to_string())).unwrap();
    assert!(matches!(p, Platform::Cannon(_)));
}

#[test]
fn reserved_platform_fails_every_call() {
    let p = PlatformKind::Asterisc.get_platform(None).unwrap();
    assert!(matches!(p, Platform::Unimplemented));
    let e = p.load_plan("/bin/client", "/tmp/wd").unwrap_err();
    assert!(matches!(e, Error::NotImplemented));
    let e = p.run_plan(&vec!["/bin/host".to_string()], "/tmp/wd").unwrap_err();
    assert!(matches!(e, Error::NotImplemented));
}

#[test]
fn native_load_is_a_no_op() {
    let p = Platform::Native;
    assert!(p.load_plan("/bin/client", "/tmp/wd").unwrap().is_none());
}

#[test]
fn native_run_is_the_host_command() {
    let p = Platform::Native;
    let cmd = p
        .run_plan(&vec!["/bin/host".to_string(), "--flag".to_string(), "v".to_string()], "/tmp/wd")
        .unwrap();
    assert_eq!(cmd.program, "/bin/host");
    assert_eq!(cmd.args, vec!["--flag".to_string(), "v".to_string()]);
    assert_eq!(cmd.cwd, Some("/tmp/wd".to_string()));
}

#[test]
fn native_run_rejects_empty_host_command() {
    let p = Platform::Native;
    let e = p.run_plan(&Vec::new(), "/tmp/wd").unwrap_err();
    assert!(matches!(e, Error::MissingHostBinary));
}

#[test]
fn cannon_load_command_shape() {
    let vm = Cannon::new("/bin/cannon".to_string());
    let cmd = vm.load_cmd("/bin/client.elf", "/tmp/wd");
    assert_eq!(cmd.program, "/bin/cannon");
    assert_eq!(
        cmd.args,
        vec![
            "load-elf".to_string(),
            "--path".to_string(),
            "/bin/client.elf".to_string(),
            "--out".to_string(),
            "/tmp/wd/state.json".to_string(),
            "--meta".to_string(),
            "/tmp/wd/meta.json".to_string(),
        ]
    );
    assert_eq!(cmd.cwd, None);
}

#[test]
fn cannon_run_command_shape() {
    let vm = Cannon::new("/bin/cannon".to_string());
    let cmd = vm.run_cmd(&vec!["/bin/host".to_string(), "--server".to_string()], "/tmp/wd");
    assert_eq!(cmd.program, "/bin/cannon");
    assert_eq!(
        cmd.args,
        vec![
            "run".to_string(),
            "--info-at".to_string(),
            "%10000000".to_string(),
            "--proof-at".to_string(),
            "never".to_string(),
            "--input".to_string(),
            "state.json".to_string(),
            "--".to_string(),
            "/bin/host".to_string(),
            "--server".to_string(),
        ]
    );
    assert_eq!(cmd.cwd, Some("/tmp/wd".to_string()));
}

#[test]
fn native_status_truncates_exit_code() {
    assert_eq!(native_status(Some(0)).unwrap(), 0);
    assert_eq!(native_status(Some(1)).unwrap(), 1);
    assert_eq!(native_status(Some(263)).unwrap(), 7);
    assert_eq!(native_status(Some(-1)).unwrap(), 255);
}

#[test]
fn native_status_signal_is_an_error() {
    let e = native_status(None).unwrap_err();
    assert!(matches!(e, Error::MissingExitCode));
    assert_eq!(e.message(), "host command exited without a status code");
}

#[test]
fn vm_status_distinguishes_no_exit() {
    assert_eq!(vm_status(true, 7).unwrap(), 7);
    let e = vm_status(false, 0).unwrap_err();
    assert!(matches!(e, Error::DidNotExit));
    assert_eq!(e.message(), "guest program did not exit");
}

#[test]
fn default_source_is_disk() {
    let s = ProgramHostSource::default();
    assert!(matches!(s, ProgramHostSource::Disk { ref path } if path.is_empty()));
}

#[test]
fn digest_renders_hex() {
    assert_eq!(digest(0x2f).to_hex(), hex_of(0x2f));
}
