//! The fixture emitter: turns a locally verified proof artifact into the
//! canonical `{ vkey, proof }` artifact that on-chain consumers read.

use vstd::prelude::*;
use vstd::string::StringExecFns;
use crate::errors::VerificationError;

verus! {

/// The sixteen lowercase hexadecimal digit characters, by value.
pub open spec fn hex_digits() -> Seq<char> {
    "0123456789abcdef"@
}

/// Lowercase hexadecimal rendering of a byte sequence, two digits per byte,
/// high nibble first.
pub open spec fn hex_of(b: Seq<u8>) -> Seq<char>
    decreases b.len(),
{
    if b.len() == 0 {
        Seq::empty()
    } else {
        seq![
            hex_digits()[(b[0] >> 4) as int],
            hex_digits()[(b[0] & 0x0f) as int],
        ] + hex_of(b.drop_first())
    }
}

/// Relies on hex::encode (hex 0.4): lowercase hexadecimal, two digits per
/// byte, high nibble first.
#[verifier::external_body]
fn hex_encode(data: &Vec<u8>) -> (r: String)
    ensures
        r@ == hex_of(data@),
{
    hex::encode(data.as_slice())
}

/// The `{ vkey, proof }` projection of a verified proof artifact, one per
/// backend. `vkey` is the fixed-size verifying-key commitment; `proof` is the
/// `0x`-prefixed hex rendering of the proof bytes.
#[derive(Clone, Debug, PartialEq, Eq)]
pub struct ProofFixture {
    pub vkey: String,
    pub proof: String,
}

/// The `proof` field for given proof bytes.
pub open spec fn proof_field_spec(bytes: Seq<u8>) -> Seq<char> {
    "0x"@ + hex_of(bytes)
}

/// Builds the fixture for a proof: the verifying-key commitment is carried
/// through unchanged and the proof bytes are hex-encoded under a `0x` prefix.
pub fn build_fixture(vkey_commit: String, proof_bytes: &Vec<u8>) -> (f: ProofFixture)
    ensures
        f.vkey@ == vkey_commit@,
        f.proof@ == proof_field_spec(proof_bytes@),
{
    let hexed = hex_encode(proof_bytes);
    let mut proof_field = String::from_str("0x");
    proof_field.append(hexed.as_str());
    ProofFixture { vkey: vkey_commit, proof: proof_field }
}

/// The serialized fixture text for given field contents.
pub open spec fn fixture_json_spec(vkey: Seq<char>, proof: Seq<char>) -> Seq<char> {
    "{\n  \"vkey\": \""@ + vkey + "\",\n  \"proof\": \""@ + proof + "\"\n}"@
}

/// Serializes the fixture as its canonical two-field artifact text. The two
/// fields are key commitments and hex strings, which never need escaping.
pub fn fixture_json(f: &ProofFixture) -> (s: String)
    ensures
        s@ == fixture_json_spec(f.vkey@, f.proof@),
{
    let mut s = String::from_str("{\n  \"vkey\": \"");
    s.append(f.vkey.as_str());
    s.append("\",\n  \"proof\": \"");
    s.append(f.proof.as_str());
    s.append("\"\n}");
    s
}

/// Gates emission on the local verifier's outcome: an artifact that failed
/// the local check never reaches the emitter, while a verified one yields
/// exactly the fixture `build_fixture` describes.
pub fn fixture_for_outcome(
    outcome: Result<(), VerificationError>,
    vkey_commit: String,
    proof_bytes: &Vec<u8>,
) -> (r: Option<ProofFixture>)
    ensures
        outcome is Err ==> r is None,
        outcome is Ok ==> (r matches Some(f) && f.vkey@ == vkey_commit@ && f.proof@
            == proof_field_spec(proof_bytes@)),
{
    match outcome {
        Ok(()) => Some(build_fixture(vkey_commit, proof_bytes)),
        Err(_) => None,
    }
}

} // verus!
