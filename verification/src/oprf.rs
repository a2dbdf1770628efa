//! The OPRF protocol core: blinding, evaluation under the enclave's secret
//! key, unblinding, and the request-integrity check.

use vstd::prelude::*;
use vstd::arithmetic::div_mod::{
    lemma_mod_bound, lemma_mul_mod_noop_left, lemma_mul_mod_noop_right, lemma_small_mod,
};
use crate::group::{
    deserialize_g1, g1_dec, g1_enc, group_order, is_field_inverse, point_dlog, point_wf,
    random_scalar, scalar_inverse, scalar_mul, scalar_mul_generator, scalar_product, scalar_value,
    scalar_wf, serialize_g1, GroupElement, Scalar,
};
use crate::attestation::{generate_mock_attestation, is_mock_attestation};
use crate::hashing::{hex_of, sha256_hex, sha256_of};
use crate::messages::{OprfError, OprfRequest, OprfResponse};

verus! {

/// Blinds the input `m` with the blinding factor `b`: the point `g^(m·b)`.
///
/// The evaluator sees only this point, which reveals nothing of `m` while `b`
/// stays private.
pub fn blind(m: &Scalar, b: &Scalar) -> (r: GroupElement)
    ensures
        point_wf(r),
        point_dlog(r) == (scalar_value(*m) * scalar_value(*b)) % group_order(),
{
    let product = scalar_product(m, b);
    proof {
        lemma_mod_bound((scalar_value(*m) * scalar_value(*b)) as int, group_order() as int);
    }
    scalar_mul_generator(&product)
}

/// The integrity hash a request must declare: the lowercase hex SHA-256
/// digest of the exact serialized query bytes that travel on the wire.
pub fn compute_integrity_hash(serialized_query: &[u8]) -> (r: String)
    ensures
        r@ == hex_of(sha256_of(serialized_query@)),
{
    sha256_hex(serialized_query)
}

/// Builds a request whose hash binds its query bytes, as the evaluator will
/// demand.
pub fn make_request(blinded_query: Vec<u8>) -> (r: OprfRequest)
    ensures
        r.blinded_query@ == blinded_query@,
        r.query_hash@ == hex_of(sha256_of(blinded_query@)),
{
    let query_hash = sha256_hex(blinded_query.as_slice());
    OprfRequest { blinded_query, query_hash }
}

/// Unblinds an evaluated point: `evaluated^(b⁻¹)`, or `None` where the
/// blinding factor is zero and has no inverse.
///
/// The result is the unique point that the blinding factor carries back to
/// `evaluated`: raising it to `b` gives `evaluated` again.
pub fn unblind(evaluated: &GroupElement, blinding: &Scalar) -> (r: Option<GroupElement>)
    requires
        point_wf(*evaluated),
    ensures
        r is Some <==> scalar_value(*blinding) != 0,
        r matches Some(u) ==> point_wf(u) && (point_dlog(u) * scalar_value(*blinding))
            % group_order() == point_dlog(*evaluated),
        r matches Some(u) ==> exists|i: nat|
            #[trigger] is_field_inverse(scalar_value(*blinding), i) && point_dlog(u) == (point_dlog(
                *evaluated,
            ) * i) % group_order(),
{
    match scalar_inverse(blinding) {
        Some(inv) => {
            let u = scalar_mul(evaluated, &inv);
            proof {
                let e = point_dlog(*evaluated);
                let b = scalar_value(*blinding) as int;
                let i = scalar_value(inv) as int;
                let r_ord = group_order() as int;
                lemma_mod_bound((e * i) as int, r_ord);
                lemma_mul_mod_noop_left((e * i) as int, b, r_ord);
                assert(e * i * b == e * (b * i)) by (nonlinear_arith);
                lemma_mul_mod_noop_right(e as int, b * i, r_ord);
                lemma_small_mod(e, group_order());
                assert(is_field_inverse(scalar_value(*blinding), scalar_value(inv)));
            }
            Some(u)
        },
        None => None,
    }
}

/// Correctness of the protocol: for any secret key `k`, input `m` and
/// blinding factor `b` with inverse `b_inv`, evaluating the blinded point
/// `g^(m·b)` under `k` and unblinding with `b_inv` lands on `g^(m·k)`, the
/// same point that evaluating the bare input would give. The terms below are
/// the discrete logarithms that `blind`, `scalar_mul` and `unblind` produce.
pub proof fn lemma_oprf_correctness(k: nat, m: nat, b: nat, b_inv: nat)
    requires
        (b * b_inv) % group_order() == 1,
    ensures
        ((((m * b) % group_order()) * k) % group_order() * b_inv) % group_order() == (m * k)
            % group_order(),
{
    let r_ord = group_order() as int;
    lemma_mul_mod_noop_left((m * b) as int, k as int, r_ord);
    lemma_mul_mod_noop_left((m * b * k) as int, b_inv as int, r_ord);
    assert(m * b * k * b_inv == (m * k) * (b * b_inv)) by (nonlinear_arith);
    lemma_mul_mod_noop_right((m * k) as int, (b * b_inv) as int, r_ord);
}

/// Correctness of the protocol over the functions themselves: blinding `m`
/// with `b`, evaluating the blinded point under `k`, and unblinding with `b`
/// lands on `g^(m·k)`, the point that evaluating the bare input directly
/// would give — for every `b` other than zero. The integrity check of the
/// full exchange rejects tampered requests; it never changes these values.
pub fn oprf_round(k: &Scalar, m: &Scalar, b: &Scalar) -> (r: Option<GroupElement>)
    ensures
        r is Some <==> scalar_value(*b) != 0,
        r matches Some(u) ==> point_dlog(u) == (scalar_value(*m) * scalar_value(*k))
            % group_order(),
{
    let blinded = blind(m, b);
    let evaluated = scalar_mul(&blinded, k);
    let result = unblind(&evaluated, b);
    proof {
        if result is Some {
            let u = result.unwrap();
            let i = choose|i: nat|
                #[trigger] is_field_inverse(scalar_value(*b), i) && point_dlog(u) == (point_dlog(
                    evaluated,
                ) * i) % group_order();
            lemma_oprf_correctness(scalar_value(*k), scalar_value(*m), scalar_value(*b), i);
        }
    }
    result
}

/// The enclave's key material: generated once at startup, immutable for the
/// rest of the process, never serialized. The secret key never leaves this
/// type; only the serialized public key is shared.
pub struct EnclaveState {
    secret_key: Scalar,
    public_key_bytes: Vec<u8>,
}

impl EnclaveState {
    /// The secret key `k`, as the integer it represents.
    pub closed spec fn key(&self) -> nat {
        scalar_value(self.secret_key)
    }

    /// The serialized public key `g^k`.
    pub closed spec fn pk_bytes(&self) -> Seq<u8> {
        self.public_key_bytes@
    }

    /// The key is reduced and the stored bytes encode `g^k`.
    pub open spec fn wf(&self) -> bool {
        self.key() < group_order() && self.pk_bytes() == g1_enc(self.key())
    }

    /// One-time key generation: samples the secret key and fixes the
    /// serialized public key for the life of the process.
    pub fn new() -> (r: Self)
        ensures
            r.wf(),
    {
        let secret_key = random_scalar();
        let public_key = scalar_mul_generator(&secret_key);
        let public_key_bytes = serialize_g1(&public_key).unwrap();
        EnclaveState { secret_key, public_key_bytes }
    }

    /// The enclave's long-term serialized public key.
    pub fn public_key(&self) -> (r: &Vec<u8>)
        ensures
            r@ == self.pk_bytes(),
    {
        &self.public_key_bytes
    }

    /// Verifies a request's integrity hash and evaluates the blinded query
    /// under the secret key, returning the serialized evaluated point.
    ///
    /// Fail-closed: on a hash mismatch the request is rejected before any
    /// curve arithmetic, and bytes that name no curve point are rejected as
    /// an invalid point.
    pub fn evaluate_blinded(&self, request: &OprfRequest) -> (r: Result<Vec<u8>, OprfError>)
        requires
            self.wf(),
        ensures
            r is Ok <==> (hex_of(sha256_of(request.blinded_query@)) == request.query_hash@
                && g1_dec(request.blinded_query@) is Some),
            r matches Ok(v) ==> v@ == g1_enc(
                (g1_dec(request.blinded_query@).unwrap() * self.key()) % group_order(),
            ),
            hex_of(sha256_of(request.blinded_query@)) != request.query_hash@ ==> (r matches Err(e)
                && e is HashMismatch),
            hex_of(sha256_of(request.blinded_query@)) == request.query_hash@ && g1_dec(
                request.blinded_query@,
            ) is None ==> (r matches Err(e) && e is InvalidPoint),
    {
        let computed_hash = sha256_hex(request.blinded_query.as_slice());
        if !computed_hash.eq(&request.query_hash) {
            return Err(OprfError::HashMismatch);
        }
        let blinded_query = match deserialize_g1(request.blinded_query.as_slice()) {
            Ok(p) => p,
            Err(e) => {
                return Err(e);
            },
        };
        let evaluated = scalar_mul(&blinded_query, &self.secret_key);
        let evaluated_bytes = serialize_g1(&evaluated).unwrap();
        Ok(evaluated_bytes)
    }

    /// One full exchange on the enclave side with the mock attestation
    /// backend: verify the request, evaluate it, and assemble the response
    /// with a fresh mock document bound to the evaluated point.
    pub fn evaluate(&self, request: &OprfRequest) -> (r: Result<OprfResponse, OprfError>)
        requires
            self.wf(),
        ensures
            r is Ok <==> (hex_of(sha256_of(request.blinded_query@)) == request.query_hash@
                && g1_dec(request.blinded_query@) is Some),
            r matches Ok(resp) ==> resp.evaluated_point@ == g1_enc(
                (g1_dec(request.blinded_query@).unwrap() * self.key()) % group_order(),
            ),
            r matches Ok(resp) ==> resp.public_key@ == self.pk_bytes(),
            r matches Ok(resp) ==> is_mock_attestation(
                resp.attestation,
                self.pk_bytes(),
                resp.evaluated_point@,
            ),
            r matches Ok(resp) ==> resp.attestation.user_data@ == resp.evaluated_point@,
            hex_of(sha256_of(request.blinded_query@)) != request.query_hash@ ==> (r matches Err(e)
                && e is HashMismatch),
            hex_of(sha256_of(request.blinded_query@)) == request.query_hash@ && g1_dec(
                request.blinded_query@,
            ) is None ==> (r matches Err(e) && e is InvalidPoint),
    {
        let evaluated_bytes = match self.evaluate_blinded(request) {
            Ok(v) => v,
            Err(e) => {
                return Err(e);
            },
        };
        let attestation = generate_mock_attestation(&self.public_key_bytes, &evaluated_bytes);
        let mut public_key: Vec<u8> = Vec::new();
        crate::encoding::append_bytes(&mut public_key, self.public_key_bytes.as_slice());
        Ok(OprfResponse { evaluated_point: evaluated_bytes, public_key, attestation })
    }
}

} // verus!
