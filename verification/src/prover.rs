//! The proof entry point: hands an input payload to the external prover and
//! returns the proof encoded as text, as a typed success/failure result
//! instead of an abort.

use vstd::prelude::*;

use crate::input::{spec_acceptable_input, validate_input};
use crate::runtime::{ready_for_proofs, Runtime};

verus! {

#[verifier::external_type_specification]
#[verifier::external_body]
pub struct ExWitnessFn(circom_prover::witness::WitnessFn);

#[verifier::external_type_specification]
#[verifier::external_body]
pub struct ExCircomProof(circom_prover::prover::CircomProof);

/// The external prover, configured for one circuit: the witness callback
/// the host built over the witness-dependency graph artifact, and the path
/// where the host materialized the proving-key artifact (this prover
/// consumes the key through a path, not through bytes). Constructed once;
/// every proof request borrows it read-only.
pub struct ProverHandle {
    wit_fn: circom_prover::witness::WitnessFn,
    zkey_path: String,
}

impl View for ProverHandle {
    type V = Seq<char>;

    closed spec fn view(&self) -> Seq<char> {
        self.zkey_path@
    }
}

impl ProverHandle {
    /// Binds a witness callback and a proving-key location into a prover
    /// handle. The view of the handle is the proving-key path.
    pub fn new(wit_fn: circom_prover::witness::WitnessFn, zkey_path: String) -> (h: ProverHandle)
        ensures
            h@ == zkey_path@,
    {
        ProverHandle { wit_fn, zkey_path }
    }
}

/// Why a proof request failed.
#[derive(Debug, Clone, PartialEq, Eq)]
pub enum BoundaryError {
    /// The bootstrap is incomplete: the diagnostic hook is not installed,
    /// or the worker pool this build configuration needs is missing.
    NotReady,
    /// The input payload is not valid JSON, or carries a signal value that
    /// is not a decimal integer string.
    MalformedInput,
    /// The external prover reported a failure; the payload carries its
    /// message.
    ProverFailure(String),
    /// The proof was generated but could not be encoded as text; the
    /// payload carries the encoder's message.
    EncodingFailure(String),
}

/// Relies on circom_prover::CircomProver::prove: it generates a Groth16
/// proof from the input payload, the handle's witness callback and the
/// proving key read from the handle's path. The proof is randomized, so
/// nothing ties the result to the arguments; errors reading the proving
/// key come back as messages. On payloads admitted by the `requires` the
/// prover's own input reading cannot abort; a proving-key file that is
/// missing or truncated, a witness callback that rejects the payload, or a
/// key that does not match the witness still aborts the call (the
/// diagnostic hook reports the abort), which this boundary deliberately
/// passes through.
#[verifier::external_body]
fn prove_call(prover: &ProverHandle, inputs: &str) -> (r: Result<
    circom_prover::prover::CircomProof,
    String,
>)
    requires
        spec_acceptable_input(inputs@),
{
    circom_prover::CircomProver::prove(
        circom_prover::prover::ProofLib::Arkworks,
        prover.wit_fn,
        inputs.to_string(),
        prover.zkey_path.clone(),
    ).map_err(|e| format!("{e}"))
}

/// Relies on serde_json::to_string: a proof serializes to JSON text, and
/// JSON text of a value is never empty.
#[verifier::external_body]
fn proof_to_json(proof: &circom_prover::prover::CircomProof) -> (r: Result<String, String>)
    ensures
        r is Ok ==> r.unwrap()@.len() > 0,
{
    serde_json::to_string(proof).map_err(|e| format!("{e}"))
}

/// The single exposed proof-generation operation: takes the serialized
/// input payload, calls the external prover with the configured artifacts,
/// and returns the proof as text.
///
/// An incomplete bootstrap and a malformed payload each come back as their
/// own typed error, exactly when they hold; a failure inside the external
/// prover comes back with the prover's message. A success carries the
/// prover's text result, unmodified and non-empty.
pub fn process_string(rt: &Runtime, prover: &ProverHandle, inputs: &str) -> (r: Result<
    String,
    BoundaryError,
>)
    ensures
        (r == Err::<String, BoundaryError>(BoundaryError::NotReady)) <==> !ready_for_proofs(rt@),
        (r == Err::<String, BoundaryError>(BoundaryError::MalformedInput)) <==> (ready_for_proofs(
            rt@,
        ) && !spec_acceptable_input(inputs@)),
        r is Ok ==> ready_for_proofs(rt@) && spec_acceptable_input(inputs@),
        r is Ok ==> r.unwrap()@.len() > 0,
        (r matches Err(e) && (e is ProverFailure || e is EncodingFailure)) ==> (ready_for_proofs(
            rt@,
        ) && spec_acceptable_input(inputs@)),
{
    if !rt.is_ready() {
        return Err(BoundaryError::NotReady);
    }
    if !validate_input(inputs) {
        return Err(BoundaryError::MalformedInput);
    }
    match prove_call(prover, inputs) {
        Err(msg) => Err(BoundaryError::ProverFailure(msg)),
        Ok(proof) => match proof_to_json(&proof) {
            Err(msg) => Err(BoundaryError::EncodingFailure(msg)),
            Ok(text) => Ok(text),
        },
    }
}

} // verus!
