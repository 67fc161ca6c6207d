//! The trusted boundary to the outside cryptography and record-encoding
//! crates. The record type and the signing-key type are opaque here; what
//! the logic reads of them is named: the key material a signing key holds,
//! the record's content map (relative key bytes to raw RLP value bytes, as
//! the record stores them) and its sequence number, and what a base64 text
//! decodes to. Each wrapper states over those names what the crates'
//! sources show of the one call it makes.
use vstd::prelude::*;
use crate::rlp_text::{rlp_str, rlp_u16};

verus! {

/// The identity record, signed with a curve secp256k1 key. The record
/// itself is opaque to this crate; the names below say what it holds.
#[verifier::external_body]
pub struct NodeRecord {
    inner: enr::Enr<secp256k1::SecretKey>,
}

#[verifier::external_type_specification]
#[verifier::external_body]
pub struct ExSecretKey(secp256k1::SecretKey);

/// The thirty-two bytes of key material a signing key holds.
pub uninterp spec fn sk_view(k: secp256k1::SecretKey) -> Seq<u8>;

/// Whether thirty-two bytes form a valid signing key: nonzero and below the
/// curve order.
pub uninterp spec fn sk_valid(bytes: Seq<u8>) -> bool;

/// The compressed public key derived from signing-key material; a function
/// of the bytes alone.
pub uninterp spec fn public_of(secret_bytes: Seq<u8>) -> Seq<u8>;

/// The record's content: relative key bytes to raw RLP value bytes.
pub uninterp spec fn enr_content(e: NodeRecord) -> Map<Seq<u8>, Seq<u8>>;

/// The record's sequence number.
pub uninterp spec fn enr_seq(e: NodeRecord) -> u64;

/// What a base64 record text decodes to: the content and sequence number of
/// the signed record it spells, if it spells one.
pub uninterp spec fn enr_decoded(s: Seq<char>) -> Option<(Map<Seq<u8>, Seq<u8>>, u64)>;

/// The content key under which a record embeds its public key.
pub open spec fn key_pubkey() -> Seq<u8> {
    seq![115u8, 101u8, 99u8, 112u8, 50u8, 53u8, 54u8, 107u8, 49u8]
}

/// The content key of the identity-scheme tag.
pub open spec fn key_id() -> Seq<u8> {
    seq![105u8, 100u8]
}

/// The identity-scheme tag itself.
pub open spec fn v4_bytes() -> Seq<u8> {
    seq![118u8, 52u8]
}

/// The content key of the IP version 4 address.
pub open spec fn key_ip() -> Seq<u8> {
    seq![105u8, 112u8]
}

/// The content key of the IP version 6 address.
pub open spec fn key_ip6() -> Seq<u8> {
    seq![105u8, 112u8, 54u8]
}

/// The content key of the TCP port.
pub open spec fn key_tcp() -> Seq<u8> {
    seq![116u8, 99u8, 112u8]
}

/// The content key of the TCP port beside an IP version 6 address.
pub open spec fn key_tcp6() -> Seq<u8> {
    seq![116u8, 99u8, 112u8, 54u8]
}

/// The content key of the UDP port.
pub open spec fn key_udp() -> Seq<u8> {
    seq![117u8, 100u8, 112u8]
}

/// The content key of the UDP port beside an IP version 6 address.
pub open spec fn key_udp6() -> Seq<u8> {
    seq![117u8, 100u8, 112u8, 54u8]
}

/// The content of a freshly built record: the scheme tag and the public
/// key of the given key material, nothing else.
pub open spec fn fresh_content(key_material: Seq<u8>) -> Map<Seq<u8>, Seq<u8>> {
    Map::<Seq<u8>, Seq<u8>>::empty().insert(key_id(), rlp_str(v4_bytes())).insert(
        key_pubkey(),
        rlp_str(public_of(key_material)),
    )
}

/// The content of a record after one entry is stored and the record is
/// re-signed with the given key material.
pub open spec fn content_with(
    c: Map<Seq<u8>, Seq<u8>>,
    key: Seq<u8>,
    raw_value: Seq<u8>,
    key_material: Seq<u8>,
) -> Map<Seq<u8>, Seq<u8>> {
    c.insert(key, raw_value).insert(key_pubkey(), rlp_str(public_of(key_material)))
}

/// Relies on secp256k1's SecretKey::from_secret_bytes: succeeds exactly on
/// valid key material and wraps those very bytes.
#[verifier::external_body]
pub(crate) fn to_signing_key(bytes: &Vec<u8>) -> (r: Option<secp256k1::SecretKey>)
    requires
        bytes@.len() == 32,
    ensures
        r is Some <==> sk_valid(bytes@),
        r matches Some(k) ==> sk_view(k) == bytes@,
{
    let mut data = [0u8; 32];
    data.copy_from_slice(bytes.as_slice());
    secp256k1::SecretKey::from_secret_bytes(data).ok()
}

/// Relies on secp256k1's PublicKey::from_secret_key and its serialize: the
/// compressed thirty-three byte public key, a function of the key material.
#[verifier::external_body]
pub(crate) fn derive_public(k: &secp256k1::SecretKey) -> (r: Vec<u8>)
    ensures
        r@ == public_of(sk_view(*k)),
        r@.len() == 33,
{
    secp256k1::PublicKey::from_secret_key(k).serialize().to_vec()
}

/// Relies on enr's Builder::build: a fresh record carries the given sequence
/// number and exactly two content entries, the scheme tag and the signing
/// key's public key.
#[verifier::external_body]
pub(crate) fn enr_build(seq: u64, k: &secp256k1::SecretKey) -> (r: Option<NodeRecord>)
    ensures
        r matches Some(e) ==> enr_seq(e) == seq && enr_content(e) == fresh_content(sk_view(*k)),
{
    let mut b = enr::Enr::builder();
    b.seq(seq);
    b.build(k).ok().map(|inner| NodeRecord { inner })
}

/// Relies on enr's Clone for Enr: every field is kept.
#[verifier::external_body]
pub(crate) fn enr_clone(e: &NodeRecord) -> (r: NodeRecord)
    ensures
        enr_content(r) == enr_content(*e),
        enr_seq(r) == enr_seq(*e),
{
    NodeRecord { inner: e.inner.clone() }
}

/// Relies on enr's Enr::seq: returns the stored sequence number.
#[verifier::external_body]
pub(crate) fn enr_read_seq(e: &NodeRecord) -> (r: u64)
    ensures
        r == enr_seq(*e),
{
    e.inner.seq()
}

/// Relies on enr's Enr::get_raw_rlp: the stored raw RLP value under a key,
/// if the record has one.
#[verifier::external_body]
pub(crate) fn enr_entry(e: &NodeRecord, key: &Vec<u8>) -> (r: Option<Vec<u8>>)
    ensures
        r is Some <==> enr_content(*e).contains_key(key@),
        r matches Some(v) ==> v@ == enr_content(*e)[key@],
{
    e.inner.get_raw_rlp(key.as_slice()).map(|b| b.to_vec())
}

/// Relies on enr's Enr::insert with a byte-string value: on success the
/// value is stored RLP-encoded under the key, the signing key's public key
/// entry is rewritten, the sequence number steps up by one, and the record
/// is re-signed. A failed store can leave the crate's record half-changed
/// and stale-signed, so the record is taken by value and only a successful
/// result is handed back; the short RLP form holds for payloads under 56
/// bytes only, hence the bound.
#[verifier::external_body]
pub(crate) fn enr_insert_bytes(
    e: NodeRecord,
    key: &Vec<u8>,
    value: &Vec<u8>,
    k: &secp256k1::SecretKey,
) -> (r: Option<NodeRecord>)
    requires
        value@.len() < 56,
    ensures
        r matches Some(n) ==> enr_seq(e) < u64::MAX && enr_seq(n) == enr_seq(e) + 1,
        r matches Some(n) ==> enr_content(n) == content_with(enr_content(e), key@, rlp_str(value@), sk_view(*k)),
{
    let mut inner = e.inner;
    match inner.insert(key.as_slice(), &value.as_slice(), k) {
        Ok(_) => Some(NodeRecord { inner }),
        Err(_) => None,
    }
}

/// Relies on enr's Enr::insert with a 16-bit integer value: as with byte
/// strings, with the value stored as a minimal big-endian RLP integer, and
/// by value for the same reason — a failed store is dropped here, never
/// handed out.
#[verifier::external_body]
pub(crate) fn enr_insert_u16(
    e: NodeRecord,
    key: &Vec<u8>,
    value: u16,
    k: &secp256k1::SecretKey,
) -> (r: Option<NodeRecord>)
    ensures
        r matches Some(n) ==> enr_seq(e) < u64::MAX && enr_seq(n) == enr_seq(e) + 1,
        r matches Some(n) ==> enr_content(n) == content_with(enr_content(e), key@, rlp_u16(value), sk_view(*k)),
{
    let mut inner = e.inner;
    match inner.insert(key.as_slice(), &value, k) {
        Ok(_) => Some(NodeRecord { inner }),
        Err(_) => None,
    }
}

/// Relies on enr's Enr::set_seq: on success the sequence number is set and
/// the content is untouched; on failure both are put back as they were.
/// Unlike insert, set_seq re-signs without rewriting the embedded public-key
/// entry, so the record must already embed the signing key's public key —
/// otherwise it would leave a record whose signature no longer verifies
/// against its content, which the decoding contracts rule out.
#[verifier::external_body]
pub(crate) fn enr_write_seq(e: &mut NodeRecord, seq: u64, k: &secp256k1::SecretKey) -> (r: bool)
    requires
        enr_content(*old(e)).contains_key(key_pubkey()),
        enr_content(*old(e))[key_pubkey()] == rlp_str(public_of(sk_view(*k))),
    ensures
        r ==> enr_seq(*final(e)) == seq,
        !r ==> enr_seq(*final(e)) == enr_seq(*old(e)),
        enr_content(*final(e)) == enr_content(*old(e)),
{
    e.inner.set_seq(seq, k).is_ok()
}

/// Relies on enr's Enr::to_base64 together with its FromStr: the text spells
/// this record back, content and sequence number alike, since the record
/// stores canonical RLP under sorted keys and carries a valid signature —
/// every record this boundary hands out does, because a store that fails
/// mid-way is dropped inside its wrapper rather than handed back.
#[verifier::external_body]
pub(crate) fn enr_to_base64(e: &NodeRecord) -> (r: String)
    ensures
        enr_decoded(r@) == Some((enr_content(*e), enr_seq(*e))),
{
    e.inner.to_base64()
}

/// Relies on enr's FromStr for Enr: decodes exactly the texts that spell a
/// well-signed record, to a record with that text's content and sequence
/// number.
#[verifier::external_body]
pub(crate) fn enr_from_str(s: &str) -> (r: Option<NodeRecord>)
    ensures
        r is Some <==> enr_decoded(s@) is Some,
        r matches Some(e) ==> Some((enr_content(e), enr_seq(e))) == enr_decoded(s@),
{
    <enr::Enr<secp256k1::SecretKey> as core::str::FromStr>::from_str(s).ok().map(|inner| NodeRecord { inner })
}

} // verus!
