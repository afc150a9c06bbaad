//! The fixture for the on-chain verifier: the decoded public outputs beside
//! the `0x`-prefixed lowercase hex of the verifying key fingerprint, the raw
//! public output bytes, and the raw proof bytes, persisted under a file name
//! derived from the proof-system variant alone.

use vstd::prelude::*;

use crate::codec::spec_decode;
use crate::codec::decode_public_values;
use crate::errors::RunError;
use crate::hexstr::lemma_hex_injective;
use crate::hexstr::spec_hex;
use crate::hexstr::to_prefixed_hex;
use crate::workflow::ProofArtifact;

verus! {

/// The proof-system variant a proof was produced under. It changes the
/// artifact's internal representation, not the workflow's contracts; the
/// emitted fixture records which variant was used.
#[derive(Clone, Copy, Debug, PartialEq, Eq, Structural)]
pub enum ProofSystem {
    Plonk,
    Groth16,
}

/// The persisted fixture record: the decoded outputs as integers, and the
/// key fingerprint, public output bytes and proof bytes as `0x`-prefixed
/// lowercase hex strings.
#[derive(Clone, Debug, PartialEq, Eq)]
pub struct Fixture {
    pub a: u32,
    pub b: u32,
    pub n: u32,
    pub vkey: String,
    pub public_values: String,
    pub proof: String,
}

/// Builds the fixture record for a completed proof. The artifact's public
/// output bytes must decode (a mismatch is a decode error and nothing is
/// emitted); the three hex fields render the fingerprint, the raw public
/// output bytes and the raw proof bytes exactly.
pub fn build_fixture(artifact: &ProofArtifact, vkey_fingerprint: &Vec<u8>) -> (r: Result<
    Fixture,
    RunError,
>)
    ensures
        match r {
            Ok(f) => {
                &&& spec_decode(artifact.public_values@) == Some(
                    crate::codec::PublicOutput { n: f.n, a: f.a, b: f.b },
                )
                &&& f.vkey@ == "0x"@ + spec_hex(vkey_fingerprint@)
                &&& f.public_values@ == "0x"@ + spec_hex(artifact.public_values@)
                &&& f.proof@ == "0x"@ + spec_hex(artifact.proof_bytes@)
            },
            Err(e) => spec_decode(artifact.public_values@) is None && e == RunError::Decode,
        },
{
    let output = match decode_public_values(&artifact.public_values) {
        Ok(o) => o,
        Err(e) => {
            return Err(e);
        },
    };
    Ok(
        Fixture {
            a: output.a,
            b: output.b,
            n: output.n,
            vkey: to_prefixed_hex(vkey_fingerprint),
            public_values: to_prefixed_hex(&artifact.public_values),
            proof: to_prefixed_hex(&artifact.proof_bytes),
        },
    )
}

/// The file name a fixture is persisted under: the lowercase variant name
/// with the fixed `-fixture.json` suffix. A function of the variant alone,
/// so emitting twice for one variant targets one file and the later write
/// replaces the earlier.
pub fn fixture_file_name(system: ProofSystem) -> (r: String)
    ensures
        system == ProofSystem::Plonk ==> r@ == "plonk-fixture.json"@,
        system == ProofSystem::Groth16 ==> r@ == "groth16-fixture.json"@,
{
    match system {
        ProofSystem::Plonk => String::from_str("plonk-fixture.json"),
        ProofSystem::Groth16 => String::from_str("groth16-fixture.json"),
    }
}

/// A fixture's `public_values` field pins down the committed bytes: any
/// byte string whose prefixed hex rendering equals that field is the
/// artifact's own public output bytes, and so decodes to exactly the
/// fixture's `n`, `a`, `b`.
pub proof fn lemma_fixture_public_values_faithful(
    f: Fixture,
    artifact: ProofArtifact,
    bytes: Seq<u8>,
)
    requires
        f.public_values@ == "0x"@ + spec_hex(artifact.public_values@),
        spec_decode(artifact.public_values@) == Some(
            crate::codec::PublicOutput { n: f.n, a: f.a, b: f.b },
        ),
        "0x"@ + spec_hex(bytes) == f.public_values@,
    ensures
        bytes == artifact.public_values@,
        spec_decode(bytes) == Some(crate::codec::PublicOutput { n: f.n, a: f.a, b: f.b }),
{
    let p = "0x"@;
    let h1 = spec_hex(bytes);
    let h2 = spec_hex(artifact.public_values@);
    assert(p + h1 == p + h2);
    assert(h1 =~= (p + h1).skip(p.len() as int));
    assert(h2 =~= (p + h2).skip(p.len() as int));
    lemma_hex_injective(bytes, artifact.public_values@);
}

} // verus!
