//! The attestation data model: document builders for the mock, remote-quote,
//! platform-quote and TPM-quote backends, the fixed-offset quote parsers, and
//! the verification the parent runs.
//!
//! The backends that need the host (a driver call, a report file pair, an
//! external quoting tool) get their opaque bytes from outside; everything
//! that decides or computes on those bytes stands here.

use vstd::prelude::*;
use vstd::string::StringSliceAdditionalSpecFns;
use crate::encoding::{append_bytes, be32_bytes, bytes_eq, u32_to_be_bytes};
use crate::hashing::{hex_ascii, hex_bytes_of, hex_of, hex_encode, sha256_digest, sha256_of};
use crate::messages::{AttestationDocument, OprfError};

verus! {

/// The decimal digits of `x`, as ASCII bytes.
pub open spec fn dec_bytes(x: nat) -> Seq<u8>
    decreases x,
{
    if x < 10 {
        seq![(48 + x) as u8]
    } else {
        dec_bytes(x / 10) + seq![(48 + x % 10) as u8]
    }
}

/// Appends the decimal digits of `x` to `out`.
pub fn push_decimal(out: &mut Vec<u8>, x: u64)
    ensures
        final(out)@ == old(out)@ + dec_bytes(x as nat),
    decreases x,
{
    if x < 10 {
        out.push(48 + x as u8);
        proof {
            assert(final(out)@ =~= old(out)@ + dec_bytes(x as nat));
        }
    } else {
        push_decimal(out, x / 10);
        out.push(48 + (x % 10) as u8);
        proof {
            assert(final(out)@ =~= old(out)@ + dec_bytes(x as nat));
        }
    }
}

/// Relies on std::time's `SystemTime::now`, `duration_since` and `as_secs`:
/// the seconds since the Unix epoch, or zero on a clock set before it.
/// Nothing is assumed of the value.
#[verifier::external_body]
fn unix_time_secs() -> u64 {
    match std::time::SystemTime::now().duration_since(std::time::UNIX_EPOCH) {
        Ok(d) => d.as_secs(),
        Err(_) => 0,
    }
}

/// The timestamp a mock document carries: whole seconds since the Unix
/// epoch, read from the system clock. Nothing is promised of the value; the
/// callers treat it as opaque.
pub fn chrono_lite_timestamp() -> u64 {
    unix_time_secs()
}

/// The placeholder measurement the mock backend writes: 96 zero digits, the
/// width of a real register value in hex.
pub open spec fn mock_measurement() -> Seq<char> {
    "000000000000000000000000000000000000000000000000000000000000000000000000000000000000000000000000"@
}

fn mock_measurement_string() -> (r: String)
    ensures
        r@ == mock_measurement(),
{
    "000000000000000000000000000000000000000000000000000000000000000000000000000000000000000000000000".to_owned()
}

/// The mock document's bytes: a JSON object with the module id, the
/// timestamp, and the hex SHA-256 digests of the public key and of the user
/// data, in the field order the serializer would emit.
pub open spec fn mock_doc_bytes(ts: nat, pk_hash: Seq<u8>, ud_hash: Seq<u8>) -> Seq<u8> {
    "{\"module_id\":\"mock-enclave\",\"public_key_hash\":\"".spec_bytes() + pk_hash
        + "\",\"timestamp\":".spec_bytes() + dec_bytes(ts) + ",\"user_data_hash\":\"".spec_bytes()
        + ud_hash + "\"}".spec_bytes()
}

/// What the mock backend promises of its document: a mock flag, the caller's
/// user data byte for byte, placeholder measurements in every register field,
/// and a document binding the hashes of the public key and of the user data.
pub open spec fn is_mock_attestation(
    doc: AttestationDocument,
    pk_bytes: Seq<u8>,
    user_data: Seq<u8>,
) -> bool {
    &&& doc.is_mock == true
    &&& doc.user_data@ == user_data
    &&& doc.pcrs matches Some(p) && p.len() == 3 && (forall|i: int|
        0 <= i < 3 ==> #[trigger] p[i]@ == mock_measurement())
    &&& doc.mrtd matches Some(m) && m@ == mock_measurement()
    &&& doc.rtmrs matches Some(rs) && rs.len() == 4 && (forall|i: int|
        0 <= i < 4 ==> #[trigger] rs[i]@ == mock_measurement())
    &&& exists|ts: nat|
        doc.document@ == mock_doc_bytes(
            ts,
            hex_bytes_of(sha256_of(pk_bytes)),
            hex_bytes_of(sha256_of(user_data)),
        )
}

/// The mock backend: builds a structured document over the current time and
/// the digests of the public key and the user data, and fills every
/// measurement field with the placeholder. Always succeeds.
pub fn generate_mock_attestation(public_key_bytes: &Vec<u8>, user_data: &Vec<u8>) -> (r:
    AttestationDocument)
    ensures
        is_mock_attestation(r, public_key_bytes@, user_data@),
{
    let ts = chrono_lite_timestamp();
    let pk_digest = sha256_digest(public_key_bytes.as_slice());
    let pk_hash = hex_ascii(pk_digest.as_slice());
    let ud_digest = sha256_digest(user_data.as_slice());
    let ud_hash = hex_ascii(ud_digest.as_slice());

    let mut document: Vec<u8> = Vec::new();
    append_bytes(&mut document, "{\"module_id\":\"mock-enclave\",\"public_key_hash\":\"".as_bytes());
    append_bytes(&mut document, pk_hash.as_slice());
    append_bytes(&mut document, "\",\"timestamp\":".as_bytes());
    push_decimal(&mut document, ts);
    append_bytes(&mut document, ",\"user_data_hash\":\"".as_bytes());
    append_bytes(&mut document, ud_hash.as_slice());
    append_bytes(&mut document, "\"}".as_bytes());

    let mut pcrs: Vec<String> = Vec::new();
    pcrs.push(mock_measurement_string());
    pcrs.push(mock_measurement_string());
    pcrs.push(mock_measurement_string());

    let mut rtmrs: Vec<String> = Vec::new();
    rtmrs.push(mock_measurement_string());
    rtmrs.push(mock_measurement_string());
    rtmrs.push(mock_measurement_string());
    rtmrs.push(mock_measurement_string());

    let mut ud: Vec<u8> = Vec::new();
    append_bytes(&mut ud, user_data.as_slice());

    let doc = AttestationDocument {
        is_mock: true,
        document,
        pcrs: Some(pcrs),
        mrtd: Some(mock_measurement_string()),
        rtmrs: Some(rtmrs),
        user_data: ud,
    };
    proof {
        assert(doc.document@ == mock_doc_bytes(
            ts as nat,
            hex_bytes_of(sha256_of(public_key_bytes@)),
            hex_bytes_of(sha256_of(user_data@)),
        ));
    }
    doc
}

/// The verification the parent runs on any backend's document: the bound
/// user data must equal the expected bytes, byte for byte. Nothing else is
/// checked here; measurement matching and signature chains are a
/// collaborator's work outside this core.
pub fn verify_attestation(attestation: &AttestationDocument, expected_user_data: &[u8]) -> (r:
    Result<(), OprfError>)
    ensures
        r is Ok <==> attestation.user_data@ == expected_user_data@,
        r matches Err(e) ==> e is UserDataMismatch,
{
    if bytes_eq(attestation.user_data.as_slice(), expected_user_data) {
        Ok(())
    } else {
        Err(OprfError::UserDataMismatch)
    }
}

/// Reads the measurement root and the four runtime measurement registers out
/// of a platform quote at their fixed offsets: 48 bytes at offset 32, and 48
/// bytes each at offsets 96, 144, 192 and 240. A blob shorter than 432 bytes
/// yields no measurements at all, and no error: tolerance for short or
/// unversioned quote formats.
pub fn extract_tdx_measurements(quote: &[u8]) -> (r: (Option<String>, Option<Vec<String>>))
    ensures
        quote@.len() < 432 ==> r.0 is None && r.1 is None,
        quote@.len() >= 432 ==> (r.0 matches Some(m) && m@ == hex_of(quote@.subrange(32, 80))),
        quote@.len() >= 432 ==> (r.1 matches Some(rs) && rs.len() == 4 && rs[0]@ == hex_of(
            quote@.subrange(96, 144),
        ) && rs[1]@ == hex_of(quote@.subrange(144, 192)) && rs[2]@ == hex_of(
            quote@.subrange(192, 240),
        ) && rs[3]@ == hex_of(quote@.subrange(240, 288))),
{
    if quote.len() < 432 {
        return (None, None);
    }
    let mrtd = if quote.len() >= 80 {
        Some(hex_encode(vstd::slice::slice_subrange(quote, 32, 80)))
    } else {
        None
    };
    let rtmrs = if quote.len() >= 288 {
        let mut rs: Vec<String> = Vec::new();
        rs.push(hex_encode(vstd::slice::slice_subrange(quote, 96, 144)));
        rs.push(hex_encode(vstd::slice::slice_subrange(quote, 144, 192)));
        rs.push(hex_encode(vstd::slice::slice_subrange(quote, 192, 240)));
        rs.push(hex_encode(vstd::slice::slice_subrange(quote, 240, 288)));
        Some(rs)
    } else {
        None
    };
    (mrtd, rtmrs)
}

/// How many whole 32-byte register values a byte string holds, up to eight.
pub open spec fn pcr_chunk_count(len: nat) -> nat {
    if len / 32 < 8 {
        len / 32
    } else {
        8
    }
}

/// The register values a raw PCR blob holds: consecutive 32-byte values for
/// registers zero through seven, hex-encoded; a trailing partial value is
/// dropped.
pub open spec fn spec_pcr_values(data: Seq<u8>) -> Seq<Seq<char>> {
    Seq::new(
        pcr_chunk_count(data.len()),
        |i: int| hex_of(data.subrange(32 * i, 32 * i + 32)),
    )
}

/// Splits a raw PCR blob into its hex register values.
pub fn extract_pcr_values(pcr_data: &[u8]) -> (r: Vec<String>)
    ensures
        r.deep_view() == spec_pcr_values(pcr_data@),
{
    let mut out: Vec<String> = Vec::new();
    let mut i: usize = 0;
    while i < 8
        invariant
            i <= 8,
            out@.len() == (if pcr_data@.len() / 32 < i as nat {
                pcr_data@.len() / 32
            } else {
                i as nat
            }),
            forall|j: int|
                0 <= j < out@.len() ==> #[trigger] out@[j]@ == hex_of(
                    pcr_data@.subrange(32 * j, 32 * j + 32),
                ),
        decreases 8 - i,
    {
        let start = i * 32;
        if start + 32 <= pcr_data.len() {
            proof {
                assert((i as nat) < pcr_data@.len() / 32) by (nonlinear_arith)
                    requires
                        (i * 32 + 32) as nat <= pcr_data@.len(),
                ;
            }
            out.push(hex_encode(vstd::slice::slice_subrange(pcr_data, start, start + 32)));
        } else {
            proof {
                assert(pcr_data@.len() / 32 <= i as nat) by (nonlinear_arith)
                    requires
                        (i * 32 + 32) as nat > pcr_data@.len(),
                ;
            }
        }
        i = i + 1;
    }
    proof {
        assert(out.deep_view() =~= spec_pcr_values(pcr_data@));
    }
    out
}

/// The TPM backend's document framing: the quote message and the quote
/// signature each behind a 4-byte big-endian length, then the raw PCR bytes.
pub open spec fn tpm_document_bytes(msg: Seq<u8>, sig: Seq<u8>, pcr_data: Seq<u8>) -> Seq<u8> {
    be32_bytes(msg.len() as nat) + msg + be32_bytes(sig.len() as nat) + sig + pcr_data
}

/// Builds the TPM-quote document out of the quoting tool's three outputs:
/// frames the message and signature, keeps the PCR bytes raw, and fills the
/// runtime-measurement field with their hex values. The platform has no
/// measurement root, so that field stays empty.
pub fn build_tpm_quote_document(
    quote_msg: &Vec<u8>,
    quote_sig: &Vec<u8>,
    pcr_data: &Vec<u8>,
    user_data: &Vec<u8>,
) -> (r: AttestationDocument)
    requires
        quote_msg@.len() <= u32::MAX,
        quote_sig@.len() <= u32::MAX,
    ensures
        r.is_mock == false,
        r.document@ == tpm_document_bytes(quote_msg@, quote_sig@, pcr_data@),
        r.pcrs is None,
        r.mrtd is None,
        r.rtmrs matches Some(rs) && rs.deep_view() == spec_pcr_values(pcr_data@),
        r.user_data@ == user_data@,
{
    let mut document = u32_to_be_bytes(quote_msg.len() as u32);
    append_bytes(&mut document, quote_msg.as_slice());
    let sig_len = u32_to_be_bytes(quote_sig.len() as u32);
    append_bytes(&mut document, sig_len.as_slice());
    append_bytes(&mut document, quote_sig.as_slice());
    append_bytes(&mut document, pcr_data.as_slice());

    let pcr_values = extract_pcr_values(pcr_data.as_slice());

    let mut ud: Vec<u8> = Vec::new();
    append_bytes(&mut ud, user_data.as_slice());

    AttestationDocument {
        is_mock: false,
        document,
        pcrs: None,
        mrtd: None,
        rtmrs: Some(pcr_values),
        user_data: ud,
    }
}

/// Builds the platform-quote document around an opaque quote blob read back
/// from the host: the blob itself, the measurements parsed out of it at
/// their fixed offsets, and the caller's user data.
pub fn build_platform_quote_document(quote: Vec<u8>, user_data: &Vec<u8>) -> (r:
    AttestationDocument)
    ensures
        r.is_mock == false,
        r.document@ == quote@,
        r.pcrs is None,
        quote@.len() < 432 ==> r.mrtd is None && r.rtmrs is None,
        quote@.len() >= 432 ==> (r.mrtd matches Some(m) && m@ == hex_of(quote@.subrange(32, 80))),
        quote@.len() >= 432 ==> (r.rtmrs matches Some(rs) && rs.len() == 4 && rs[0]@ == hex_of(
            quote@.subrange(96, 144),
        ) && rs[1]@ == hex_of(quote@.subrange(144, 192)) && rs[2]@ == hex_of(
            quote@.subrange(192, 240),
        ) && rs[3]@ == hex_of(quote@.subrange(240, 288))),
        r.user_data@ == user_data@,
{
    let (mrtd, rtmrs) = extract_tdx_measurements(quote.as_slice());
    let mut ud: Vec<u8> = Vec::new();
    append_bytes(&mut ud, user_data.as_slice());
    AttestationDocument { is_mock: false, document: quote, pcrs: None, mrtd, rtmrs, user_data: ud }
}

/// One entry of the register table of a parsed remote-attestation document:
/// the register's index and its raw value. The host driver's answer is a
/// structured map; whoever parses it hands this module the entries under its
/// register table as plain values.
pub struct PcrEntry {
    /// The register index the entry is keyed by.
    pub index: u64,
    /// The register's raw bytes.
    pub value: Vec<u8>,
}

/// The value of the first entry with the given index, if any.
pub open spec fn find_pcr(entries: Seq<PcrEntry>, from: int, key: u64) -> Option<Seq<u8>>
    decreases entries.len() - from,
{
    if from < 0 || from >= entries.len() {
        None
    } else if entries[from].index == key {
        Some(entries[from].value@)
    } else {
        find_pcr(entries, from + 1, key)
    }
}

/// The hex values of registers `from` up to two, in order, each present only
/// where the table has an entry for it.
pub open spec fn pcr_hex_list(entries: Seq<PcrEntry>, from: u64) -> Seq<Seq<char>>
    decreases 3 - from,
{
    if from >= 3 {
        Seq::empty()
    } else {
        match find_pcr(entries, 0, from) {
            Some(v) => seq![hex_of(v)] + pcr_hex_list(entries, (from + 1) as u64),
            None => pcr_hex_list(entries, (from + 1) as u64),
        }
    }
}

/// The first entry with the given index, searched from position `from`.
fn find_pcr_value<'a>(entries: &'a Vec<PcrEntry>, from: usize, key: u64) -> (r: Option<&'a Vec<u8>>)
    requires
        from <= entries@.len(),
    ensures
        r matches Some(v) ==> find_pcr(entries@, from as int, key) == Some(v@),
        r is None ==> find_pcr(entries@, from as int, key) is None,
    decreases entries@.len() - from,
{
    if from == entries.len() {
        None
    } else if entries[from].index == key {
        Some(&entries[from].value)
    } else {
        find_pcr_value(entries, from + 1, key)
    }
}

/// Reads the first three platform configuration registers out of a parsed
/// remote-attestation document's register table: for each index zero through
/// two that the table holds, its value hex-encoded, in index order.
pub fn extract_pcrs_from_attestation(entries: &Vec<PcrEntry>) -> (r: Vec<String>)
    ensures
        r.deep_view() == pcr_hex_list(entries@, 0),
{
    let mut out: Vec<String> = Vec::new();
    collect_pcrs(entries, 0, &mut out);
    proof {
        assert(out.deep_view() =~= pcr_hex_list(entries@, 0));
    }
    out
}

/// Appends the hex values of registers `from` up to two.
fn collect_pcrs(entries: &Vec<PcrEntry>, from: u64, out: &mut Vec<String>)
    requires
        from <= 3,
    ensures
        final(out).deep_view() == old(out).deep_view() + pcr_hex_list(entries@, from),
    decreases 3 - from,
{
    if from == 3 {
        proof {
            assert(out.deep_view() =~= old(out).deep_view() + pcr_hex_list(entries@, from));
        }
        return ;
    }
    match find_pcr_value(entries, 0, from) {
        Some(v) => {
            out.push(hex_encode(v.as_slice()));
            proof {
                assert(out.deep_view() =~= old(out).deep_view() + seq![
                    hex_of(find_pcr(entries@, 0, from).unwrap()),
                ]);
            }
        },
        None => {
        },
    }
    collect_pcrs(entries, from + 1, out);
    proof {
        assert(out.deep_view() =~= old(out).deep_view() + pcr_hex_list(entries@, from));
    }
}

/// The evidence payload the remote-quote backend hands the host's
/// attestation driver: the serialized public key followed by the hex SHA-256
/// digest of the user data.
pub fn nsm_evidence_payload(public_key_bytes: &Vec<u8>, user_data: &[u8]) -> (r: Vec<u8>)
    ensures
        r@ == public_key_bytes@ + hex_bytes_of(sha256_of(user_data@)),
{
    let mut payload: Vec<u8> = Vec::new();
    append_bytes(&mut payload, public_key_bytes.as_slice());
    let digest = sha256_digest(user_data);
    let digest_hex = hex_ascii(digest.as_slice());
    append_bytes(&mut payload, digest_hex.as_slice());
    payload
}

} // verus!
