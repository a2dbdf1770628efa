//! The message and error types the parent and the enclave exchange.

use vstd::prelude::*;

verus! {

/// Everything that can go wrong in the protocol core.
#[derive(Debug)]
pub enum OprfError {
    /// A value could not be serialized.
    Serialization(String),
    /// Bytes could not be deserialized into the expected shape.
    Deserialization(String),
    /// Bytes do not name a point of the curve group.
    InvalidPoint,
    /// The declared query hash does not match the received query bytes.
    HashMismatch,
    /// An attestation backend could not produce a document.
    AttestationFailed(String),
    /// The user data of an attestation differs from the expected bytes.
    UserDataMismatch,
    /// The byte stream ended early or carried a malformed frame.
    Transport(String),
}

/// Request from parent to enclave.
///
/// Invariant on the wire: `query_hash` is the lowercase hex SHA-256 digest of
/// `blinded_query`, so tampering with either is detected by the evaluator.
#[derive(Debug)]
pub struct OprfRequest {
    /// Blinded query point `g^(m·b)`, serialized.
    pub blinded_query: Vec<u8>,
    /// Hash of the query for integrity.
    pub query_hash: String,
}

/// Response from enclave to parent.
#[derive(Debug)]
pub struct OprfResponse {
    /// Evaluated point `blinded_query^k`, serialized.
    pub evaluated_point: Vec<u8>,
    /// The enclave's long-term public key `g^k`, serialized.
    pub public_key: Vec<u8>,
    /// Attestation document binding the evaluation to the enclave.
    pub attestation: AttestationDocument,
}

/// Attestation document, one shape for every backend.
///
/// The common fields are always set; the measurement fields are filled by the
/// backend that knows them and left `None` by the others.
#[derive(Debug)]
pub struct AttestationDocument {
    /// Whether this is a mock document or real attestation evidence.
    pub is_mock: bool,
    /// The backend-specific evidence blob.
    pub document: Vec<u8>,
    /// Platform configuration register values, hex-encoded.
    pub pcrs: Option<Vec<String>>,
    /// Measurement root of the trust domain, hex-encoded.
    pub mrtd: Option<String>,
    /// Runtime measurement register values, hex-encoded.
    pub rtmrs: Option<Vec<String>>,
    /// User data the document binds: the evaluated point of the same response.
    pub user_data: Vec<u8>,
}

} // verus!
