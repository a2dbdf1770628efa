use tee_oprf::attestation::{extract_pcrs_from_attestation, PcrEntry};
use tee_oprf::{
    build_platform_quote_document, build_tpm_quote_document, chrono_lite_timestamp,
    extract_pcr_values, extract_tdx_measurements, generate_mock_attestation, nsm_evidence_payload,
    sha256_hex,
};

#[test]
fn test_mock_attestation_fields() {
    let pk = vec![9u8; 32];
    let user_data = vec![1u8, 2, 3];
    let doc = generate_mock_attestation(&pk, &user_data);

    assert!(doc.is_mock);
    assert_eq!(doc.user_data, user_data);
    let zeros = "0".repeat(96);
    let pcrs = doc.pcrs.as_ref().unwrap();
    assert_eq!(pcrs.len(), 3);
    for p in pcrs {
        assert_eq!(p, &zeros);
    }
    assert_eq!(doc.mrtd.as_ref().unwrap(), &zeros);
    let rtmrs = doc.rtmrs.as_ref().unwrap();
    assert_eq!(rtmrs.len(), 4);
    for r in rtmrs {
        assert_eq!(r, &zeros);
    }
}

#[test]
fn test_mock_document_is_json_with_bound_hashes() {
    let pk = vec![7u8; 32];
    let user_data = vec![4u8, 5, 6];
    let doc = generate_mock_attestation(&pk, &user_data);

    let parsed: serde_json::Value = serde_json::from_slice(&doc.document).unwrap();
    assert_eq!(parsed.get("module_id").unwrap().as_str().unwrap(), "mock-enclave");
    assert_eq!(
        parsed.get("public_key_hash").unwrap().as_str().unwrap(),
        sha256_hex(&pk)
    );
    assert_eq!(
        parsed.get("user_data_hash").unwrap().as_str().unwrap(),
        sha256_hex(&user_data)
    );
    assert!(parsed.get("timestamp").unwrap().as_u64().is_some());
}

#[test]
fn test_partial_quote_tolerated() {
    // A platform quote shorter than 432 bytes parses to no measurements,
    // without an error.
    let short = vec![0xaau8; 431];
    let (mrtd, rtmrs) = extract_tdx_measurements(&short);
    assert!(mrtd.is_none());
    assert!(rtmrs.is_none());

    let doc = build_platform_quote_document(short.clone(), &vec![1u8]);
    assert!(doc.mrtd.is_none());
    assert!(doc.rtmrs.is_none());
    assert_eq!(doc.document, short);
    assert!(!doc.is_mock);
}

#[test]
fn test_full_quote_measurement_offsets() {
    let mut quote = vec![0u8; 432];
    for (i, b) in quote.iter_mut().enumerate() {
        *b = (i % 251) as u8;
    }
    let (mrtd, rtmrs) = extract_tdx_measurements(&quote);
    assert_eq!(mrtd.unwrap(), hex::encode(&quote[32..80]));
    let rtmrs = rtmrs.unwrap();
    assert_eq!(rtmrs.len(), 4);
    assert_eq!(rtmrs[0], hex::encode(&quote[96..144]));
    assert_eq!(rtmrs[1], hex::encode(&quote[144..192]));
    assert_eq!(rtmrs[2], hex::encode(&quote[192..240]));
    assert_eq!(rtmrs[3], hex::encode(&quote[240..288]));
}

#[test]
fn test_tpm_document_framing() {
    let msg = vec![1u8, 2, 3];
    let sig = vec![9u8, 8];
    let pcr_data = vec![5u8; 64];
    let user_data = vec![7u8; 4];
    let doc = build_tpm_quote_document(&msg, &sig, &pcr_data, &user_data);

    let mut expected = Vec::new();
    expected.extend_from_slice(&3u32.to_be_bytes());
    expected.extend_from_slice(&msg);
    expected.extend_from_slice(&2u32.to_be_bytes());
    expected.extend_from_slice(&sig);
    expected.extend_from_slice(&pcr_data);
    assert_eq!(doc.document, expected);

    assert!(!doc.is_mock);
    assert!(doc.mrtd.is_none());
    assert!(doc.pcrs.is_none());
    assert_eq!(doc.user_data, user_data);
    let rtmrs = doc.rtmrs.unwrap();
    assert_eq!(rtmrs.len(), 2);
    assert_eq!(rtmrs[0], hex::encode(&pcr_data[0..32]));
    assert_eq!(rtmrs[1], hex::encode(&pcr_data[32..64]));
}

#[test]
fn test_pcr_values_chunking() {
    // 70 bytes hold two whole 32-byte registers; the tail is dropped.
    let mut data = vec![0u8; 70];
    for (i, b) in data.iter_mut().enumerate() {
        *b = i as u8;
    }
    let values = extract_pcr_values(&data);
    assert_eq!(values.len(), 2);
    assert_eq!(values[0], hex::encode(&data[0..32]));
    assert_eq!(values[1], hex::encode(&data[32..64]));

    // Eight registers at most, even of a longer blob.
    let long = vec![3u8; 32 * 9];
    assert_eq!(extract_pcr_values(&long).len(), 8);

    assert!(extract_pcr_values(&[0u8; 31]).is_empty());
}

#[test]
fn test_pcrs_from_register_table() {
    let entries = vec![
        PcrEntry { index: 1, value: vec![0xabu8, 0xcd] },
        PcrEntry { index: 0, value: vec![0x01u8] },
        PcrEntry { index: 7, value: vec![0xffu8] },
    ];
    // Registers zero through two, in index order; the missing one is skipped.
    let pcrs = extract_pcrs_from_attestation(&entries);
    assert_eq!(pcrs, vec!["01".to_string(), "abcd".to_string()]);

    assert!(extract_pcrs_from_attestation(&Vec::new()).is_empty());
}

#[test]
fn test_nsm_evidence_payload_shape() {
    let pk = vec![1u8, 2, 3];
    let user_data = vec![9u8, 9];
    let payload = nsm_evidence_payload(&pk, &user_data);
    let mut expected = pk.clone();
    expected.extend_from_slice(sha256_hex(&user_data).as_bytes());
    assert_eq!(payload, expected);
}

#[test]
fn test_timestamp_is_recent_epoch() {
    // The sandbox clock is past 2020; the timestamp counts seconds since the
    // Unix epoch.
    assert!(chrono_lite_timestamp() > 1_600_000_000);
}
