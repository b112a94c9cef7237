//! The proof-program adapter: turns fixture inputs into the command-line
//! invocation of a proof-program host binary. Only the `op-program` adapter
//! is implemented; the `kona` kinds are reserved.

use vstd::prelude::*;
use crate::errors::Error;
use crate::fixture::FixtureInputs;
use crate::registry::ProgramKind;
use crate::text::dec_rep;
use crate::text::hex_display;
use crate::text::u64_to_dec;

verus! {

/// Where a proof program's host reads its preimage data from. Exactly one
/// variant is active; the disk form names a pre-populated witness directory,
/// the live form names endpoints plus a local cache directory.
#[derive(Debug)]
pub enum ProgramHostSource {
    /// A pre-populated on-disk witness directory.
    Disk {
        /// The witness directory.
        path: String,
    },
    /// Live endpoints with a local cache directory.
    Rpc {
        /// The L1 endpoint.
        l1: String,
        /// The L1 beacon endpoint.
        l1_beacon: String,
        /// The L2 endpoint.
        l2: String,
        /// The local cache directory.
        path: String,
    },
}

impl Default for ProgramHostSource {
    /// The default source: an on-disk witness directory with an empty path.
    fn default() -> (r: Self)
        ensures
            r matches ProgramHostSource::Disk { path } && path@ == Seq::<char>::empty(),
    {
        ProgramHostSource::Disk { path: String::new() }
    }
}

/// The full input set of one host invocation: the fixture's recorded inputs
/// plus resolved configuration paths and the data source.
#[derive(Debug)]
pub struct ProgramHostInputs {
    /// The recorded chain inputs.
    pub fixture_inputs: FixtureInputs,
    /// The path to the rollup configuration file.
    pub rollup_cfg_path: String,
    /// The path to the chain genesis file.
    pub genesis_path: String,
    /// The data source for preimages.
    pub source: ProgramHostSource,
}

/// The `op-program` proof program adapter.
#[derive(Debug)]
pub struct OpProgram {
    /// The path of the host binary.
    pub binary: String,
    /// Whether the host runs long-lived in server mode (required when it is
    /// driven from inside a deterministic VM) instead of to completion.
    pub server_mode: bool,
}

/// The data-source flags of a host command.
pub open spec fn source_args(src: ProgramHostSource) -> Seq<Seq<char>> {
    match src {
        ProgramHostSource::Disk { path } => seq!["--datadir"@, path@],
        ProgramHostSource::Rpc { l1, l1_beacon, l2, path } => seq![
            "--l1"@,
            l1@,
            "--l1.beacon"@,
            l1_beacon@,
            "--l2"@,
            l2@,
            "--datadir"@,
            path@,
        ],
    }
}

/// The exact host command of the `op-program` adapter: the binary, the
/// protocol flags in order, the server-mode flag if set, then the
/// data-source flags.
pub open spec fn host_cmd_spec(p: OpProgram, inputs: ProgramHostInputs) -> Seq<Seq<char>> {
    let fi = inputs.fixture_inputs;
    let base = seq![
        p.binary@,
        "--l1.head"@,
        hex_display(fi.l1_head.bytes@),
        "--l2.head"@,
        hex_display(fi.l2_head.bytes@),
        "--l2.outputroot"@,
        hex_display(fi.l2_output_root.bytes@),
        "--l2.claim"@,
        hex_display(fi.l2_claim.bytes@),
        "--l2.blocknumber"@,
        dec_rep(fi.l2_block_number as nat),
        "--l2.chainid"@,
        dec_rep(fi.l2_chain_id as nat),
        "--rollup.config"@,
        inputs.rollup_cfg_path@,
        "--l2.genesis"@,
        inputs.genesis_path@,
    ];
    let with_server = if p.server_mode {
        base + seq!["--server"@]
    } else {
        base
    };
    with_server + source_args(inputs.source)
}

impl OpProgram {
    /// A new adapter over a host binary.
    pub fn new(binary: String, server_mode: bool) -> (r: Self)
        ensures
            r.binary == binary,
            r.server_mode == server_mode,
    {
        OpProgram { binary, server_mode }
    }

    /// The ordered argument vector of the host invocation for given inputs.
    pub fn host_cmd(&self, inputs: &ProgramHostInputs) -> (r: Vec<String>)
        ensures
            r.deep_view() == host_cmd_spec(*self, *inputs),
    {
        let mut v: Vec<String> = Vec::new();
        v.push(String::from_str(self.binary.as_str()));
        v.push(String::from_str("--l1.head"));
        v.push(inputs.fixture_inputs.l1_head.to_hex());
        v.push(String::from_str("--l2.head"));
        v.push(inputs.fixture_inputs.l2_head.to_hex());
        v.push(String::from_str("--l2.outputroot"));
        v.push(inputs.fixture_inputs.l2_output_root.to_hex());
        v.push(String::from_str("--l2.claim"));
        v.push(inputs.fixture_inputs.l2_claim.to_hex());
        v.push(String::from_str("--l2.blocknumber"));
        v.push(u64_to_dec(inputs.fixture_inputs.l2_block_number));
        v.push(String::from_str("--l2.chainid"));
        v.push(u64_to_dec(inputs.fixture_inputs.l2_chain_id));
        v.push(String::from_str("--rollup.config"));
        v.push(String::from_str(inputs.rollup_cfg_path.as_str()));
        v.push(String::from_str("--l2.genesis"));
        v.push(String::from_str(inputs.genesis_path.as_str()));
        if self.server_mode {
            v.push(String::from_str("--server"));
        }
        match &inputs.source {
            ProgramHostSource::Disk { path } => {
                v.push(String::from_str("--datadir"));
                v.push(String::from_str(path.as_str()));
                proof {
                    assert(v.deep_view() =~= host_cmd_spec(*self, *inputs));
                }
            },
            ProgramHostSource::Rpc { l1, l1_beacon, l2, path } => {
                v.push(String::from_str("--l1"));
                v.push(String::from_str(l1.as_str()));
                v.push(String::from_str("--l1.beacon"));
                v.push(String::from_str(l1_beacon.as_str()));
                v.push(String::from_str("--l2"));
                v.push(String::from_str(l2.as_str()));
                v.push(String::from_str("--datadir"));
                v.push(String::from_str(path.as_str()));
                proof {
                    assert(v.deep_view() =~= host_cmd_spec(*self, *inputs));
                }
            },
        }
        v
    }
}

impl ProgramKind {
    /// The adapter for a program kind over a resolved host binary: the
    /// native `op-program` runs to completion, the VM-image kinds run in
    /// server mode, and the reserved kinds fail explicitly — they never
    /// silently fall back to anything.
    pub fn get_program(&self, bin_path: String) -> (r: Result<OpProgram, Error>)
        ensures
            *self == ProgramKind::OpProgramNative ==> r == Ok::<OpProgram, Error>(
                OpProgram { binary: bin_path, server_mode: false },
            ),
            *self == ProgramKind::OpProgramMips || *self == ProgramKind::OpProgramRiscv ==> r
                == Ok::<OpProgram, Error>(OpProgram { binary: bin_path, server_mode: true }),
            *self == ProgramKind::KonaNative || *self == ProgramKind::KonaRiscv ==> r
                == Err::<OpProgram, Error>(Error::NotImplemented),
    {
        match self {
            ProgramKind::OpProgramNative => Ok(OpProgram::new(bin_path, false)),
            ProgramKind::OpProgramMips => Ok(OpProgram::new(bin_path, true)),
            ProgramKind::OpProgramRiscv => Ok(OpProgram::new(bin_path, true)),
            ProgramKind::KonaNative => Err(Error::NotImplemented),
            ProgramKind::KonaRiscv => Err(Error::NotImplemented),
        }
    }
}

} // verus!
