use fibonacci_script::codec::{decode_public_values, encode_public_values};
use fibonacci_script::errors::RunError;
use fibonacci_script::fixture::{build_fixture, fixture_file_name, ProofSystem};
use fibonacci_script::hexstr::{to_hex, to_prefixed_hex};
use fibonacci_script::workflow::ProofArtifact;

#[test]
fn fixture_fields_render_exactly() {
    let artifact = ProofArtifact {
        proof_bytes: vec![0xDE, 0xAD, 0xBE, 0xEF],
        public_values: encode_public_values(20, 6765, 10946),
    };
    let fingerprint = vec![0x12, 0x34];
    let fixture = build_fixture(&artifact, &fingerprint).unwrap();
    assert_eq!(fixture.n, 20);
    assert_eq!(fixture.a, 6765);
    assert_eq!(fixture.b, 10946);
    assert_eq!(fixture.vkey, "0x1234");
    assert_eq!(fixture.proof, "0xdeadbeef");
    assert_eq!(
        fixture.public_values,
        format!("0x{}", hex::encode(&artifact.public_values))
    );
}

#[test]
fn emitted_public_values_decode_back_to_the_outputs() {
    let artifact = ProofArtifact {
        proof_bytes: vec![0x01],
        public_values: encode_public_values(20, 6765, 10946),
    };
    let fixture = build_fixture(&artifact, &vec![0xAA]).unwrap();
    let stripped = fixture.public_values.strip_prefix("0x").unwrap();
    let bytes = hex::decode(stripped).unwrap();
    let decoded = decode_public_values(&bytes).unwrap();
    assert_eq!(decoded.n, 20);
    assert_eq!(decoded.a, 6765);
    assert_eq!(decoded.b, 10946);
}

#[test]
fn unparseable_public_values_give_a_decode_error() {
    let artifact = ProofArtifact { proof_bytes: vec![], public_values: vec![1] };
    assert_eq!(build_fixture(&artifact, &vec![]), Err(RunError::Decode));
}

#[test]
fn fixture_file_name_is_the_lowercased_variant() {
    assert_eq!(fixture_file_name(ProofSystem::Plonk), "plonk-fixture.json");
    assert_eq!(fixture_file_name(ProofSystem::Groth16), "groth16-fixture.json");
}

#[test]
fn same_variant_always_targets_the_same_file() {
    assert_eq!(
        fixture_file_name(ProofSystem::Groth16),
        fixture_file_name(ProofSystem::Groth16)
    );
    assert_ne!(
        fixture_file_name(ProofSystem::Groth16),
        fixture_file_name(ProofSystem::Plonk)
    );
}

#[test]
fn hex_helpers_agree_with_the_hex_crate() {
    let bytes = vec![0x00, 0x01, 0x7F, 0x80, 0xFF];
    assert_eq!(to_hex(&bytes), hex::encode(&bytes));
    assert_eq!(to_prefixed_hex(&bytes), format!("0x{}", hex::encode(&bytes)));
    assert_eq!(to_prefixed_hex(&vec![]), "0x");
}
