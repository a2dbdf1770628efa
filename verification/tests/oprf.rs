use tee_oprf::{
    blind, deserialize_fr, deserialize_g1, make_request, point_eq, random_scalar, scalar_inverse,
    scalar_mul, serialize_g1, unblind, verify_attestation, EnclaveState, OprfError, OprfRequest,
    Scalar,
};

fn scalar_from_u64(x: u64) -> Scalar {
    let mut bytes = vec![0u8; 32];
    bytes[..8].copy_from_slice(&x.to_le_bytes());
    deserialize_fr(&bytes).unwrap()
}

#[test]
fn test_oprf_correctness() {
    // Enclave secret key
    let k = random_scalar();

    // Parent input and blinding
    let m = random_scalar();
    let b = random_scalar();

    // Blinded query: g^(m*b)
    let blinded_query = blind(&m, &b);

    // Enclave evaluation: (g^(m*b))^k = g^(m*b*k)
    let evaluated = scalar_mul(&blinded_query, &k);

    // Parent unblinds: g^(m*b*k)^(1/b) = g^(m*k)
    let b_inv = scalar_inverse(&b).unwrap();
    let unblinded = scalar_mul(&evaluated, &b_inv);

    // Expected: g^(m*k)
    let expected = blind(&m, &k);

    assert!(point_eq(&unblinded, &expected));
}

#[test]
fn lib_test_oprf_correctness() {
    let k = random_scalar();
    let m = random_scalar();
    let b = random_scalar();

    let blinded_query = blind(&m, &b);
    let evaluated = scalar_mul(&blinded_query, &k);

    let b_inv = scalar_inverse(&b).unwrap();
    let unblinded = scalar_mul(&evaluated, &b_inv);

    let expected = blind(&m, &k);

    assert!(point_eq(&unblinded, &expected));
}

#[test]
fn test_end_to_end_exchange() {
    // The enclave generates its key pair once at startup.
    let state = EnclaveState::new();
    let pk = deserialize_g1(state.public_key()).unwrap();

    // First exchange: m = 7, b = 3.
    let m = scalar_from_u64(7);
    let b = scalar_from_u64(3);
    let blinded = blind(&m, &b);
    let request = make_request(serialize_g1(&blinded).unwrap());
    let response = state.evaluate(&request).unwrap();
    assert!(response.attestation.is_mock);
    verify_attestation(&response.attestation, &response.evaluated_point).unwrap();
    let evaluated = deserialize_g1(&response.evaluated_point).unwrap();
    let unblinded = unblind(&evaluated, &b).unwrap();
    // g^(7·k) is (g^k)^7, computable from the public key alone.
    let expected = scalar_mul(&pk, &m);
    assert!(point_eq(&unblinded, &expected));

    // Second, independent exchange under the same key: the discrete-log
    // relationship holds again, and the public key is stable.
    let m2 = scalar_from_u64(11);
    let b2 = scalar_from_u64(5);
    let blinded2 = blind(&m2, &b2);
    let request2 = make_request(serialize_g1(&blinded2).unwrap());
    let response2 = state.evaluate(&request2).unwrap();
    assert_eq!(response2.public_key, response.public_key);
    let evaluated2 = deserialize_g1(&response2.evaluated_point).unwrap();
    let unblinded2 = unblind(&evaluated2, &b2).unwrap();
    let expected2 = scalar_mul(&pk, &m2);
    assert!(point_eq(&unblinded2, &expected2));
}

#[test]
fn test_bit_flip_causes_hash_mismatch() {
    let state = EnclaveState::new();
    let m = random_scalar();
    let b = random_scalar();
    let blinded_query_bytes = serialize_g1(&blind(&m, &b)).unwrap();
    let request = make_request(blinded_query_bytes);

    // The untampered request evaluates fine.
    assert!(state.evaluate(&request).is_ok());

    // Flipping any single bit of the query without updating the hash is
    // rejected before any curve arithmetic, with no response.
    for byte in 0..request.blinded_query.len() {
        for bit in 0..8 {
            let mut tampered_query = request.blinded_query.clone();
            tampered_query[byte] ^= 1u8 << bit;
            let tampered = OprfRequest {
                blinded_query: tampered_query,
                query_hash: request.query_hash.clone(),
            };
            assert!(matches!(state.evaluate(&tampered), Err(OprfError::HashMismatch)));
        }
    }
}

#[test]
fn test_valid_hash_invalid_point_rejected() {
    let state = EnclaveState::new();
    // A query that is no point encoding, with a hash that does match it:
    // the integrity check passes and the point check rejects.
    let garbage = vec![0xffu8; 32];
    let request = make_request(garbage);
    assert!(matches!(state.evaluate(&request), Err(OprfError::InvalidPoint)));
}

#[test]
fn test_make_request_binds_hash() {
    let payload = vec![1u8, 2, 3, 4];
    let request = make_request(payload.clone());
    assert_eq!(request.blinded_query, payload);
    assert_eq!(request.query_hash, tee_oprf::sha256_hex(&payload));
}

#[test]
fn test_oprf_round_matches_direct_evaluation() {
    let k = random_scalar();
    let m = random_scalar();
    let b = random_scalar();
    let round = tee_oprf::oprf_round(&k, &m, &b).unwrap();
    let direct = blind(&m, &k);
    assert!(point_eq(&round, &direct));
}

#[test]
fn test_unblind_rejects_zero_blinding_factor() {
    let zero = scalar_from_u64(0);
    let point = blind(&random_scalar(), &random_scalar());
    assert!(scalar_inverse(&zero).is_none());
    assert!(unblind(&point, &zero).is_none());
}

#[test]
fn test_attestation_binding() {
    let state = EnclaveState::new();
    let m = random_scalar();
    let b = random_scalar();
    let request = make_request(serialize_g1(&blind(&m, &b)).unwrap());
    let response = state.evaluate(&request).unwrap();

    // The document binds the exact evaluated point of the same response.
    assert_eq!(response.attestation.user_data, response.evaluated_point);
    verify_attestation(&response.attestation, &response.evaluated_point).unwrap();

    // Changing the bound user data must fail verification.
    let mut tampered_doc = response.attestation;
    tampered_doc.user_data[0] ^= 1;
    assert!(matches!(
        verify_attestation(&tampered_doc, &response.evaluated_point),
        Err(OprfError::UserDataMismatch)
    ));
    tampered_doc.user_data[0] ^= 1;

    // Changing the evaluated point independently must fail too.
    let mut tampered_point = response.evaluated_point.clone();
    tampered_point[5] ^= 0x10;
    assert!(matches!(
        verify_attestation(&tampered_doc, &tampered_point),
        Err(OprfError::UserDataMismatch)
    ));
}
