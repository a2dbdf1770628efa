//! An oblivious pseudo-random function (OPRF) evaluated inside a trusted
//! execution environment, split between an untrusted parent and an isolated
//! enclave that talk over a length-prefixed byte stream.
//!
//! The parent blinds a private input, the enclave evaluates it under a secret
//! key it alone holds and attests to the result, and the parent unblinds.
//! This crate holds the protocol core: group and scalar primitives over the
//! BN254 curve, blinding / evaluation / unblinding with the request-integrity
//! check, the attestation document model with its backend builders and the
//! user-data verification, and the message framing.

pub mod attestation;
pub mod encoding;
pub mod framing;
pub mod group;
pub mod hashing;
pub mod messages;
pub mod oprf;

pub use attestation::{
    build_platform_quote_document, build_tpm_quote_document, chrono_lite_timestamp,
    extract_pcr_values, extract_tdx_measurements, generate_mock_attestation, nsm_evidence_payload,
    verify_attestation,
};
pub use encoding::{be_bytes_to_u32, u32_to_be_bytes};
pub use framing::{decode_frame, encode_frame, frame_round_trip};
pub use group::{
    deserialize_fr, deserialize_g1, g1_generator, hash_to_scalar, point_eq, point_round_trip,
    random_scalar, scalar_eq, scalar_inverse, scalar_mul, scalar_mul_generator, scalar_round_trip,
    serialize_fr, serialize_g1, GroupElement, Scalar,
};
pub use hashing::sha256_hex;
pub use oprf::{blind, compute_integrity_hash, make_request, oprf_round, unblind, EnclaveState};
pub use messages::{AttestationDocument, OprfError, OprfRequest, OprfResponse};
