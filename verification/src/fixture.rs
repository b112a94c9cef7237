//! The fixture model: one persisted test vector with its recorded inputs and
//! the exit status the proof program is expected to reproduce.

use vstd::prelude::*;
use crate::text::bytes_to_hex;
use crate::text::hex_display;

verus! {

/// A 32-byte hash carried as plain bytes; command lines render it as
/// `0x`-prefixed lowercase hexadecimal.
#[derive(Debug)]
pub struct HashDigest {
    /// The raw digest bytes.
    pub bytes: Vec<u8>,
}

impl HashDigest {
    /// Wraps raw digest bytes.
    pub fn new(bytes: Vec<u8>) -> (r: Self)
        ensures
            r.bytes == bytes,
    {
        HashDigest { bytes }
    }

    /// A well-formed digest holds exactly 32 bytes.
    pub open spec fn wf(&self) -> bool {
        self.bytes@.len() == 32
    }

    /// The command-line rendering of the digest.
    pub fn to_hex(&self) -> (r: String)
        ensures
            r@ == hex_display(self.bytes@),
    {
        bytes_to_hex(&self.bytes)
    }

    /// An independent copy with the same bytes.
    pub fn duplicate(&self) -> (r: Self)
        ensures
            r.bytes@ == self.bytes@,
    {
        let mut bytes: Vec<u8> = Vec::new();
        let mut i: usize = 0;
        while i < self.bytes.len()
            invariant
                i <= self.bytes@.len(),
                bytes@ == self.bytes@.take(i as int),
            decreases self.bytes@.len() - i,
        {
            bytes.push(self.bytes[i]);
            proof {
                assert(bytes@ =~= self.bytes@.take(i as int + 1));
            }
            i = i + 1;
        }
        proof {
            assert(self.bytes@.take(self.bytes@.len() as int) =~= self.bytes@);
        }
        HashDigest { bytes }
    }
}

/// The identity of a fixture and the status its runs must reproduce.
#[derive(Debug)]
pub struct FixtureMetadata {
    /// The fixture's name, equal to its directory name on disk.
    pub name: String,
    /// The expected exit status byte of the program execution.
    pub expected_status: u8,
}

impl FixtureMetadata {
    /// An independent copy with the same contents.
    pub fn duplicate(&self) -> (r: Self)
        ensures
            r.name@ == self.name@,
            r.expected_status == self.expected_status,
    {
        FixtureMetadata {
            name: String::from_str(self.name.as_str()),
            expected_status: self.expected_status,
        }
    }
}

/// The recorded chain inputs of one fixture, as handed to a proof program.
#[derive(Debug)]
pub struct FixtureInputs {
    /// The L1 head hash covering the data needed to derive the claimed block.
    pub l1_head: HashDigest,
    /// The block number of the claim.
    pub l2_block_number: u64,
    /// The claimed output root.
    pub l2_claim: HashDigest,
    /// The starting, trusted output root.
    pub l2_output_root: HashDigest,
    /// The L2 head hash corresponding to the starting output root.
    pub l2_head: HashDigest,
    /// The L2 chain id.
    pub l2_chain_id: u64,
}

impl FixtureInputs {
    /// All digests of the inputs are well-formed.
    pub open spec fn wf(&self) -> bool {
        self.l1_head.wf() && self.l2_claim.wf() && self.l2_output_root.wf() && self.l2_head.wf()
    }

    /// An independent copy with the same contents.
    pub fn duplicate(&self) -> (r: Self)
        ensures
            r.l1_head.bytes@ == self.l1_head.bytes@,
            r.l2_block_number == self.l2_block_number,
            r.l2_claim.bytes@ == self.l2_claim.bytes@,
            r.l2_output_root.bytes@ == self.l2_output_root.bytes@,
            r.l2_head.bytes@ == self.l2_head.bytes@,
            r.l2_chain_id == self.l2_chain_id,
    {
        FixtureInputs {
            l1_head: self.l1_head.duplicate(),
            l2_block_number: self.l2_block_number,
            l2_claim: self.l2_claim.duplicate(),
            l2_output_root: self.l2_output_root.duplicate(),
            l2_head: self.l2_head.duplicate(),
            l2_chain_id: self.l2_chain_id,
        }
    }
}

/// One persisted test vector: metadata plus recorded inputs. Its compressed
/// witness archive and chain configuration live beside it on disk.
#[derive(Debug)]
pub struct TestFixture {
    /// The fixture metadata.
    pub metadata: FixtureMetadata,
    /// The inputs to the fault proof program.
    pub inputs: FixtureInputs,
}

} // verus!
