//! Scalars and group elements of the BN254 curve.
//!
//! The arithmetic itself is the arkworks library's, held behind two opaque
//! types; this module gives every scalar a mathematical value and every group
//! element a discrete logarithm with respect to the fixed generator, and
//! states each operation's effect on that model. The group has prime order
//! equal to the scalar-field order and cofactor one, so every group element
//! is `g^x` for exactly one `x` below the order, and exponents compose modulo
//! the order.

use vstd::prelude::*;
use vstd::arithmetic::div_mod::lemma_small_mod;
use ark_ec::{AffineRepr, CurveGroup, PrimeGroup};
use ark_ff::{Field, PrimeField, UniformRand};
use ark_serialize::{CanonicalDeserialize, CanonicalSerialize};
use crate::encoding::{
    le_bytes, le_val, be_val, lemma_le_bytes_len, lemma_le_round_trip_32, lemma_pow256_32_value,
};
use crate::hashing::{sha256_of, sha256_digest};
use crate::messages::OprfError;

verus! {

/// The order of the BN254 scalar field, which is also the order of the curve
/// group this crate works in.
pub open spec fn group_order() -> nat {
    21888242871839275222246405745257275088548364400416034343698204186575808495617nat
}

/// An element of the scalar field: secret keys, blinding factors and logical
/// inputs of the protocol. The arkworks field element is held opaquely;
/// `scalar_value` gives the integer it represents.
#[verifier::external_body]
pub struct Scalar {
    inner: ark_bn254::Fr,
}

/// An element of the curve group. The arkworks point is held opaquely;
/// `point_dlog` gives its discrete logarithm with respect to the generator.
#[verifier::external_body]
pub struct GroupElement {
    inner: ark_bn254::G1Projective,
}

/// The field element a scalar represents, as an integer below the group order.
pub uninterp spec fn scalar_value(s: Scalar) -> nat;

/// The unique exponent `d` below the group order with `p == g^d`.
pub uninterp spec fn point_dlog(p: GroupElement) -> nat;

/// The canonical compressed encoding of a scalar: its value in 32
/// little-endian bytes.
pub open spec fn fr_enc(x: nat) -> Seq<u8> {
    le_bytes(x, 32)
}

/// The canonical compressed encoding of the group element `g^d`; a fixed
/// 32-byte string determined by the element alone.
pub uninterp spec fn g1_enc(d: nat) -> Seq<u8>;

/// The discrete logarithm of the group element a byte string deserializes to,
/// or `None` where deserialization rejects the bytes.
pub uninterp spec fn g1_dec(b: Seq<u8>) -> Option<nat>;

/// Whether `i` is the multiplicative inverse of `b` in the scalar field.
pub open spec fn is_field_inverse(b: nat, i: nat) -> bool {
    (b * i) % group_order() == 1
}

/// A scalar is well formed when its value is reduced modulo the order.
pub open spec fn scalar_wf(s: Scalar) -> bool {
    scalar_value(s) < group_order()
}

/// A group element is well formed when its exponent is reduced modulo the
/// order.
pub open spec fn point_wf(p: GroupElement) -> bool {
    point_dlog(p) < group_order()
}

/// Relies on ark_std's UniformRand for the scalar field, fed from the
/// operating-system randomness source: the sample is a field element, an
/// integer below the group order. Nothing more is assumed of it.
#[verifier::external_body]
pub fn random_scalar() -> (r: Scalar)
    ensures
        scalar_value(r) < group_order(),
{
    let mut rng = rand::rngs::OsRng;
    Scalar { inner: ark_bn254::Fr::rand(&mut rng) }
}

/// Relies on multiplication in ark_ff's prime field: the product of two field
/// elements is their integer product reduced modulo the field order.
#[verifier::external_body]
pub(crate) fn scalar_product(a: &Scalar, b: &Scalar) -> (r: Scalar)
    ensures
        scalar_value(r) == (scalar_value(*a) * scalar_value(*b)) % group_order(),
{
    Scalar { inner: a.inner * b.inner }
}

/// Relies on ark_ff's `Field::inverse`: `None` exactly for the zero element,
/// otherwise the multiplicative inverse in the field.
#[verifier::external_body]
pub fn scalar_inverse(s: &Scalar) -> (r: Option<Scalar>)
    ensures
        r is Some <==> scalar_value(*s) != 0,
        r matches Some(t) ==> scalar_wf(t) && (scalar_value(*s) * scalar_value(t))
            % group_order() == 1,
{
    match s.inner.inverse() {
        Some(inv) => Some(Scalar { inner: inv }),
        None => None,
    }
}

/// Relies on ark_ec's `PrimeGroup::generator`: the fixed generator of the
/// group, the element of discrete logarithm one.
#[verifier::external_body]
pub fn g1_generator() -> (r: GroupElement)
    ensures
        point_dlog(r) == 1,
{
    GroupElement { inner: ark_bn254::G1Projective::generator() }
}

/// Relies on scalar multiplication in ark_ec's short-Weierstrass group: in a
/// cyclic group of prime order, multiplying `g^d` by the scalar `s` gives
/// `g^(d·s mod order)`.
#[verifier::external_body]
pub fn scalar_mul(point: &GroupElement, scalar: &Scalar) -> (r: GroupElement)
    ensures
        point_dlog(r) == (point_dlog(*point) * scalar_value(*scalar)) % group_order(),
{
    GroupElement { inner: point.inner * scalar.inner }
}

/// `g^scalar`: the generator raised to a scalar.
pub fn scalar_mul_generator(scalar: &Scalar) -> (r: GroupElement)
    requires
        scalar_wf(*scalar),
    ensures
        point_wf(r),
        point_dlog(r) == scalar_value(*scalar),
{
    let g = g1_generator();
    let r = scalar_mul(&g, scalar);
    proof {
        lemma_small_mod(scalar_value(*scalar), group_order());
    }
    r
}

/// Relies on ark_serialize's `CanonicalSerialize` for the scalar field: the
/// compressed form of a field element is its value in 32 little-endian bytes,
/// and writing into a byte vector cannot fail.
#[verifier::external_body]
pub fn serialize_fr(scalar: &Scalar) -> (r: Result<Vec<u8>, OprfError>)
    ensures
        r is Ok,
        r matches Ok(v) ==> v@ == fr_enc(scalar_value(*scalar)),
{
    let mut bytes = Vec::new();
    match scalar.inner.serialize_compressed(&mut bytes) {
        Ok(()) => Ok(bytes),
        Err(e) => Err(OprfError::Serialization(e.to_string())),
    }
}

/// Relies on ark_serialize's `CanonicalDeserialize` for the scalar field: it
/// reads 32 little-endian bytes, accepts exactly the values below the field
/// order, and does not look past the first 32 bytes.
#[verifier::external_body]
pub fn deserialize_fr(bytes: &[u8]) -> (r: Result<Scalar, OprfError>)
    ensures
        r is Ok <==> (bytes@.len() >= 32 && le_val(bytes@.take(32)) < group_order()),
        r matches Ok(s) ==> scalar_value(s) == le_val(bytes@.take(32)),
        r matches Err(e) ==> e is Deserialization,
{
    match ark_bn254::Fr::deserialize_compressed(bytes) {
        Ok(f) => Ok(Scalar { inner: f }),
        Err(e) => Err(OprfError::Deserialization(e.to_string())),
    }
}

/// Relies on ark_serialize's compressed encoding of curve points: a fixed
/// 32-byte form determined by the group element alone, and deserializing an
/// element's own encoding gives the element back.
#[verifier::external_body]
pub fn serialize_g1(point: &GroupElement) -> (r: Result<Vec<u8>, OprfError>)
    ensures
        r is Ok,
        r matches Ok(v) ==> v@ == g1_enc(point_dlog(*point)) && v@.len() == 32,
        r is Ok ==> g1_dec(g1_enc(point_dlog(*point))) == Some(point_dlog(*point)),
{
    let affine = point.inner.into_affine();
    let mut bytes = Vec::new();
    match affine.serialize_compressed(&mut bytes) {
        Ok(()) => Ok(bytes),
        Err(e) => Err(OprfError::Serialization(e.to_string())),
    }
}

/// Relies on ark_serialize's validated deserialization of compressed curve
/// points: it accepts bytes only where they name a point of the curve group,
/// and rejects everything else.
#[verifier::external_body]
pub fn deserialize_g1(bytes: &[u8]) -> (r: Result<GroupElement, OprfError>)
    ensures
        r is Ok <==> g1_dec(bytes@) is Some,
        r matches Ok(p) ==> point_wf(p) && g1_dec(bytes@) == Some(point_dlog(p)),
        r matches Err(e) ==> e is InvalidPoint,
{
    match ark_bn254::G1Affine::deserialize_compressed(bytes) {
        Ok(affine) => Ok(GroupElement { inner: affine.into_group() }),
        Err(_) => Err(OprfError::InvalidPoint),
    }
}

/// Relies on ark_ff's `PrimeField::from_be_bytes_mod_order`: the bytes are
/// read as a big-endian integer and reduced modulo the field order.
#[verifier::external_body]
fn scalar_from_be_bytes_mod_order(bytes: &[u8]) -> (r: Scalar)
    ensures
        scalar_value(r) == be_val(bytes@) % group_order(),
{
    Scalar { inner: ark_bn254::Fr::from_be_bytes_mod_order(bytes) }
}

/// Hashes arbitrary bytes to a scalar: the SHA-256 digest read as a
/// big-endian integer, reduced modulo the field order.
pub fn hash_to_scalar(data: &[u8]) -> (r: Scalar)
    ensures
        scalar_value(r) == be_val(sha256_of(data@)) % group_order(),
{
    let digest = sha256_digest(data);
    scalar_from_be_bytes_mod_order(digest.as_slice())
}

/// The canonical scalar encoding determines the scalar: below the order, no
/// two values share their 32 little-endian bytes.
proof fn lemma_fr_enc_injective(x: nat, y: nat)
    requires
        x < group_order(),
        y < group_order(),
        fr_enc(x) == fr_enc(y),
    ensures
        x == y,
{
    lemma_pow256_32_value();
    lemma_le_round_trip_32(x);
    lemma_le_round_trip_32(y);
}

/// Two scalars are equal exactly when their canonical encodings are: the
/// encoding is little-endian and injective below the order.
pub fn scalar_eq(a: &Scalar, b: &Scalar) -> (r: bool)
    requires
        scalar_wf(*a),
        scalar_wf(*b),
    ensures
        r == (scalar_value(*a) == scalar_value(*b)),
{
    let ab = serialize_fr(a).unwrap();
    let bb = serialize_fr(b).unwrap();
    proof {
        lemma_le_bytes_len(scalar_value(*a), 32);
        lemma_le_bytes_len(scalar_value(*b), 32);
        if fr_enc(scalar_value(*a)) == fr_enc(scalar_value(*b)) {
            lemma_fr_enc_injective(scalar_value(*a), scalar_value(*b));
        }
    }
    crate::encoding::bytes_eq(ab.as_slice(), bb.as_slice())
}

/// Two group elements are equal exactly when their canonical encodings are.
pub fn point_eq(a: &GroupElement, b: &GroupElement) -> (r: bool)
    ensures
        r == (point_dlog(*a) == point_dlog(*b)),
{
    let ab = serialize_g1(a).unwrap();
    let bb = serialize_g1(b).unwrap();
    crate::encoding::bytes_eq(ab.as_slice(), bb.as_slice())
}

/// Round trip: deserializing the canonical encoding of a scalar yields an
/// equal scalar.
pub fn scalar_round_trip(s: &Scalar) -> (r: Scalar)
    requires
        scalar_wf(*s),
    ensures
        scalar_value(r) == scalar_value(*s),
{
    let bytes = serialize_fr(s).unwrap();
    proof {
        lemma_le_bytes_len(scalar_value(*s), 32);
        lemma_pow256_32_value();
        lemma_le_round_trip_32(scalar_value(*s));
        assert(bytes@.take(32) =~= bytes@);
    }
    deserialize_fr(bytes.as_slice()).unwrap()
}

/// Round trip: deserializing the canonical encoding of a group element yields
/// an equal group element.
pub fn point_round_trip(p: &GroupElement) -> (r: GroupElement)
    ensures
        point_dlog(r) == point_dlog(*p),
{
    let bytes = serialize_g1(p).unwrap();
    deserialize_g1(bytes.as_slice()).unwrap()
}

} // verus!
