//! The execution-platform abstraction: a closed set of engines that run a
//! proof-program host command and report an exit status. The pipeline never
//! branches on the platform kind after resolution; all divergence is behind
//! the two planning methods and the two status interpreters here.

use vstd::prelude::*;
use crate::command::CommandSpec;
use crate::errors::Error;
use crate::registry::PlatformKind;
use crate::text::path_join;

verus! {

/// The `cannon` deterministic MIPS virtual machine, addressed by the path of
/// its binary.
#[derive(Debug)]
pub struct Cannon {
    /// The path of the VM binary.
    pub binary: String,
}

impl Cannon {
    /// A new VM handle over a binary path.
    pub fn new(binary: String) -> (r: Self)
        ensures
            r.binary == binary,
    {
        Cannon { binary }
    }

    /// The command that loads an ELF image into the VM's serialized state
    /// snapshot inside the working directory.
    pub fn load_cmd(&self, elf_path: &str, workdir: &str) -> (r: CommandSpec)
        ensures
            r.program@ == self.binary@,
            r.args.deep_view() == cannon_load_args(elf_path@, workdir@),
            r.cwd is None,
    {
        let mut args: Vec<String> = Vec::new();
        args.push(String::from_str("load-elf"));
        args.push(String::from_str("--path"));
        args.push(String::from_str(elf_path));
        args.push(String::from_str("--out"));
        args.push(join_path_arg(workdir, "state.json"));
        args.push(String::from_str("--meta"));
        args.push(join_path_arg(workdir, "meta.json"));
        proof {
            assert(args.deep_view() =~= cannon_load_args(elf_path@, workdir@));
        }
        CommandSpec { program: String::from_str(self.binary.as_str()), args, cwd: None }
    }

    /// The command that runs the loaded state with fixed tracing and proof
    /// cadence flags, handing the host command over as the trailing argument
    /// vector.
    pub fn run_cmd(&self, host_cmd: &Vec<String>, workdir: &str) -> (r: CommandSpec)
        ensures
            r.program@ == self.binary@,
            r.args.deep_view() == cannon_run_args(host_cmd.deep_view()),
            r.cwd matches Some(d) && d@ == workdir@,
    {
        let mut args: Vec<String> = Vec::new();
        args.push(String::from_str("run"));
        args.push(String::from_str("--info-at"));
        args.push(String::from_str("%10000000"));
        args.push(String::from_str("--proof-at"));
        args.push(String::from_str("never"));
        args.push(String::from_str("--input"));
        args.push(String::from_str("state.json"));
        args.push(String::from_str("--"));
        proof {
            assert(args.deep_view() =~= cannon_run_prefix());
        }
        let mut i: usize = 0;
        while i < host_cmd.len()
            invariant
                i <= host_cmd@.len(),
                args.deep_view() == cannon_run_prefix() + host_cmd.deep_view().take(i as int),
            decreases host_cmd@.len() - i,
        {
            let ghost prev = args.deep_view();
            args.push(String::from_str(host_cmd[i].as_str()));
            proof {
                assert(args.deep_view() =~= prev.push(host_cmd.deep_view()[i as int]));
                assert(prev.push(host_cmd.deep_view()[i as int]) =~= cannon_run_prefix()
                    + host_cmd.deep_view().take(i as int + 1));
            }
            i = i + 1;
        }
        proof {
            assert(host_cmd.deep_view().take(host_cmd@.len() as int) =~= host_cmd.deep_view());
        }
        CommandSpec {
            program: String::from_str(self.binary.as_str()),
            args,
            cwd: Some(String::from_str(workdir)),
        }
    }
}

/// Joins a directory and a file name into an owned argument.
fn join_path_arg(dir: &str, file: &str) -> (r: String)
    ensures
        r@ == path_join(dir@, file@),
{
    crate::text::join_path(dir, file)
}

/// The argument vector of the VM's load step.
pub open spec fn cannon_load_args(elf: Seq<char>, workdir: Seq<char>) -> Seq<Seq<char>> {
    seq![
        "load-elf"@,
        "--path"@,
        elf,
        "--out"@,
        path_join(workdir, "state.json"@),
        "--meta"@,
        path_join(workdir, "meta.json"@),
    ]
}

/// The fixed flags that precede the host command in the VM's run step.
pub open spec fn cannon_run_prefix() -> Seq<Seq<char>> {
    seq!["run"@, "--info-at"@, "%10000000"@, "--proof-at"@, "never"@, "--input"@, "state.json"@, "--"@]
}

/// The argument vector of the VM's run step.
pub open spec fn cannon_run_args(host_cmd: Seq<Seq<char>>) -> Seq<Seq<char>> {
    cannon_run_prefix() + host_cmd
}

/// An execution platform: the closed set of engines the harness knows. The
/// reserved engine fails explicitly on every use; it never silently no-ops
/// or returns a default status.
#[derive(Debug)]
pub enum Platform {
    /// Direct execution of the host command as a child process.
    Native,
    /// Execution inside the `cannon` VM.
    Cannon(Cannon),
    /// A reserved engine with no implementation.
    Unimplemented,
}

impl PlatformKind {
    /// The platform for a kind, over an optional resolved VM binary. The
    /// native platform needs no binary; the VM kind demands one.
    pub fn get_platform(&self, binary: Option<String>) -> (r: Result<Platform, Error>)
        ensures
            *self == PlatformKind::Native ==> r == Ok::<Platform, Error>(Platform::Native),
            *self == PlatformKind::Cannon && binary is Some ==> r == Ok::<Platform, Error>(
                Platform::Cannon(Cannon { binary: binary->0 }),
            ),
            *self == PlatformKind::Cannon && binary is None ==> r == Err::<Platform, Error>(
                Error::MissingVmBinary,
            ),
            *self == PlatformKind::Asterisc ==> r == Ok::<Platform, Error>(Platform::Unimplemented),
    {
        match self {
            PlatformKind::Native => Ok(Platform::Native),
            PlatformKind::Cannon => match binary {
                Some(b) => Ok(Platform::Cannon(Cannon::new(b))),
                None => Err(Error::MissingVmBinary),
            },
            PlatformKind::Asterisc => Ok(Platform::Unimplemented),
        }
    }
}

impl Platform {
    /// Plans the load step that prepares execution state from a program
    /// image: nothing on the native platform, the VM's loader command on the
    /// VM, an explicit failure on the reserved engine.
    pub fn load_plan(&self, elf_path: &str, workdir: &str) -> (r: Result<
        Option<CommandSpec>,
        Error,
    >)
        ensures
            *self is Native ==> (r matches Ok(c) && c is None),
            self matches Platform::Cannon(vm) ==> (r matches Ok(o) && o matches Some(cmd)
                && cmd.program@ == vm.binary@ && cmd.args.deep_view() == cannon_load_args(
                elf_path@,
                workdir@,
            ) && cmd.cwd is None),
            *self is Unimplemented ==> r == Err::<Option<CommandSpec>, Error>(
                Error::NotImplemented,
            ),
    {
        match self {
            Platform::Native => Ok(None),
            Platform::Cannon(vm) => Ok(Some(vm.load_cmd(elf_path, workdir))),
            Platform::Unimplemented => Err(Error::NotImplemented),
        }
    }

    /// Plans the run step for a resolved host command: the host command
    /// itself on the native platform, the VM's run command on the VM, an
    /// explicit failure on the reserved engine.
    pub fn run_plan(&self, host_cmd: &Vec<String>, workdir: &str) -> (r: Result<CommandSpec, Error>)
        ensures
            *self is Native && host_cmd.deep_view().len() == 0 ==> r == Err::<CommandSpec, Error>(
                Error::MissingHostBinary,
            ),
            *self is Native && host_cmd.deep_view().len() > 0 ==> (r matches Ok(cmd)
                && cmd.program@ == host_cmd.deep_view()[0] && cmd.args.deep_view()
                == host_cmd.deep_view().skip(1) && (cmd.cwd matches Some(d) && d@ == workdir@)),
            self matches Platform::Cannon(vm) ==> (r matches Ok(cmd) && cmd.program@ == vm.binary@
                && cmd.args.deep_view() == cannon_run_args(host_cmd.deep_view()) && (
            cmd.cwd matches Some(d) && d@ == workdir@)),
            *self is Unimplemented ==> r == Err::<CommandSpec, Error>(Error::NotImplemented),
    {
        match self {
            Platform::Native => {
                if host_cmd.len() == 0 {
                    return Err(Error::MissingHostBinary);
                }
                let program = String::from_str(host_cmd[0].as_str());
                let mut args: Vec<String> = Vec::new();
                let mut i: usize = 1;
                while i < host_cmd.len()
                    invariant
                        1 <= i <= host_cmd@.len(),
                        args.deep_view() == host_cmd.deep_view().subrange(1, i as int),
                    decreases host_cmd@.len() - i,
                {
                    let ghost prev = args.deep_view();
                    args.push(String::from_str(host_cmd[i].as_str()));
                    proof {
                        assert(args.deep_view() =~= prev.push(host_cmd.deep_view()[i as int]));
                        assert(prev.push(host_cmd.deep_view()[i as int]) =~= host_cmd.deep_view()
                            .subrange(1, i as int + 1));
                    }
                    i = i + 1;
                }
                proof {
                    assert(host_cmd.deep_view().subrange(1, host_cmd@.len() as int)
                        =~= host_cmd.deep_view().skip(1));
                }
                Ok(CommandSpec { program, args, cwd: Some(String::from_str(workdir)) })
            },
            Platform::Cannon(vm) => Ok(vm.run_cmd(host_cmd, workdir)),
            Platform::Unimplemented => Err(Error::NotImplemented),
        }
    }
}

/// Interprets the termination of a natively executed host command: the raw
/// exit code truncated to a byte, or an explicit error when the process
/// terminated without an exit code (by a signal).
pub fn native_status(code: Option<i32>) -> (r: Result<u8, Error>)
    ensures
        code matches Some(c) ==> r == Ok::<u8, Error>((c & 0xff) as u8),
        code is None ==> r == Err::<u8, Error>(Error::MissingExitCode),
{
    match code {
        Some(c) => {
            let m = c & 0xff;
            proof {
                assert(0 <= c & 0xff < 256) by (bit_vector);
            }
            Ok(m as u8)
        },
        None => Err(Error::MissingExitCode),
    }
}

/// Interprets the side record a deterministic VM writes after a run: the
/// guest's exit status if it exited, and a distinct, explicit error — never
/// a status value — if it did not.
pub fn vm_status(exited: bool, exit: u8) -> (r: Result<u8, Error>)
    ensures
        exited ==> r == Ok::<u8, Error>(exit),
        !exited ==> r == Err::<u8, Error>(Error::DidNotExit),
{
    if exited {
        Ok(exit)
    } else {
        Err(Error::DidNotExit)
    }
}

} // verus!
