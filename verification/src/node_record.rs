//! The record manager: a signing key paired with a signed identity record
//! that always embeds that key's public key, moves to a fresh sequence
//! number on every completed endpoint update, and is persisted as base64
//! text under the file name `enr`.
use vstd::prelude::*;
use crate::disk::DiskEntity;
use crate::endpoint::NodeEndpoint;
use crate::enr_link::{
    NodeRecord, content_with, derive_public, enr_build, enr_clone, enr_content, enr_decoded,
    enr_entry, enr_from_str, enr_insert_bytes, enr_insert_u16, enr_read_seq, enr_seq,
    enr_to_base64, enr_write_seq, fresh_content, key_ip, key_ip6, key_pubkey, key_tcp, key_tcp6,
    key_udp, key_udp6, public_of, sk_valid, sk_view, to_signing_key,
};
use crate::rlp_text::{
    lemma_rlp_str_round_trip, lemma_rlp_u16_round_trip, rlp_decode_bytes, rlp_decode_u16,
    rlp_encode_bytes, rlp_str, rlp_str_parse, rlp_u16, rlp_u16_parse,
};
use crate::secret::Secret;

verus! {

/// Whether a record content embeds exactly the public key derived from the
/// given key material.
pub open spec fn paired(c: Map<Seq<u8>, Seq<u8>>, key_material: Seq<u8>) -> bool {
    c.contains_key(key_pubkey()) && c[key_pubkey()] == rlp_str(public_of(key_material))
}

/// The record content after an endpoint update: the address octets and both
/// ports stored under the keys of the address family, each store re-signing
/// the record.
pub open spec fn updated_content(
    c: Map<Seq<u8>, Seq<u8>>,
    e: NodeEndpoint,
    key_material: Seq<u8>,
) -> Map<Seq<u8>, Seq<u8>> {
    let ipk = if e.is_v4() {
        key_ip()
    } else {
        key_ip6()
    };
    let tpk = if e.is_v4() {
        key_tcp()
    } else {
        key_tcp6()
    };
    let upk = if e.is_v4() {
        key_udp()
    } else {
        key_udp6()
    };
    content_with(
        content_with(
            content_with(c, ipk, rlp_str(e.ip@), key_material),
            tpk,
            rlp_u16(e.tcp_port),
            key_material,
        ),
        upk,
        rlp_u16(e.udp_port),
        key_material,
    )
}

/// The port a record content stores under a key, if a well-formed one is
/// there.
pub open spec fn port_in(c: Map<Seq<u8>, Seq<u8>>, key: Seq<u8>) -> Option<u16> {
    if c.contains_key(key) {
        rlp_u16_parse(c[key])
    } else {
        None
    }
}

/// The address octets a record content stores under a key, if well-formed
/// ones are there.
pub open spec fn ip_in(c: Map<Seq<u8>, Seq<u8>>, key: Seq<u8>) -> Option<Seq<u8>> {
    if c.contains_key(key) {
        rlp_str_parse(c[key])
    } else {
        None
    }
}

/// Holds a signing key and a signed identity record that are guaranteed to
/// belong together.
pub struct EnrManager {
    secret: secp256k1::SecretKey,
    inner: NodeRecord,
}

impl EnrManager {
    /// The record's embedded public key always matches the held signing key.
    #[verifier::type_invariant]
    spec fn wf(self) -> bool {
        paired(enr_content(self.inner), sk_view(self.secret))
    }

    /// The key material of the held signing key.
    pub closed spec fn key_material(self) -> Seq<u8> {
        sk_view(self.secret)
    }

    /// The held record's content.
    pub closed spec fn record_content(self) -> Map<Seq<u8>, Seq<u8>> {
        enr_content(self.inner)
    }

    /// The held record's sequence number.
    pub closed spec fn record_seq(self) -> u64 {
        enr_seq(self.inner)
    }

    /// Build a fresh manager: derive the signing key from the secret and
    /// sign a minimal record with the given starting sequence number.
    /// Absent if the secret is no valid signing key, or the record could not
    /// be built.
    pub fn new(key: Secret, seq: u64) -> (r: Option<EnrManager>)
        ensures
            !sk_valid(key@) ==> r is None,
            r is Some ==> sk_valid(key@),
            r matches Some(m) ==> m.key_material() == key@ && m.record_seq() == seq
                && m.record_content() == fresh_content(key@),
    {
        let bytes = key.to_bytes();
        let secret = match to_signing_key(&bytes) {
            Some(k) => k,
            None => {
                return None;
            },
        };
        let inner = match enr_build(seq, &secret) {
            Some(e) => e,
            None => {
                return None;
            },
        };
        Some(EnrManager { secret, inner })
    }

    /// Wrap an existing record, verifying it belongs to the secret: succeeds
    /// exactly when the secret is a valid signing key and the record embeds
    /// its public key.
    pub fn load(key: Secret, inner: NodeRecord) -> (r: Option<EnrManager>)
        ensures
            r is Some <==> sk_valid(key@) && paired(enr_content(inner), key@),
            r matches Some(m) ==> m.key_material() == key@ && m.record_content()
                == enr_content(inner) && m.record_seq() == enr_seq(inner),
    {
        let bytes = key.to_bytes();
        let secret = match to_signing_key(&bytes) {
            Some(k) => k,
            None => {
                return None;
            },
        };
        let public = derive_public(&secret);
        let expected = rlp_encode_bytes(&public);
        let pk_key = pubkey_key();
        match enr_entry(&inner, &pk_key) {
            Some(entry) => {
                if vec_u8_eq(&entry, &expected) {
                    Some(EnrManager { secret, inner })
                } else {
                    None
                }
            },
            None => None,
        }
    }

    /// Update the record to a new endpoint: store its address octets and
    /// both ports, each signed, then move the sequence number one past its
    /// value before the update. Completes unless the record encoding would
    /// outgrow its bound or the sequence number its width; an update that
    /// does not complete leaves the record as it was.
    pub fn set_node_endpoint(&mut self, endpoint: &NodeEndpoint) -> (done: bool)
        requires
            endpoint.wf(),
        ensures
            final(self).key_material() == old(self).key_material(),
            done ==> old(self).record_seq() < u64::MAX,
            done ==> final(self).record_seq() == old(self).record_seq() + 1,
            done ==> final(self).record_content() == updated_content(
                old(self).record_content(),
                *endpoint,
                old(self).key_material(),
            ),
            !done ==> final(self).record_seq() == old(self).record_seq(),
            !done ==> final(self).record_content() == old(self).record_content(),
    {
        proof {
            use_type_invariant(&*self);
        }
        let seq = enr_read_seq(&self.inner);
        let work = enr_clone(&self.inner);
        let v4 = endpoint.ip.len() == 4;
        let ipk = if v4 {
            ip_key()
        } else {
            ip6_key()
        };
        let tpk = if v4 {
            tcp_key()
        } else {
            tcp6_key()
        };
        let upk = if v4 {
            udp_key()
        } else {
            udp6_key()
        };
        let work = match enr_insert_bytes(work, &ipk, &endpoint.ip, &self.secret) {
            Some(w) => w,
            None => {
                return false;
            },
        };
        let work = match enr_insert_u16(work, &tpk, endpoint.tcp_port, &self.secret) {
            Some(w) => w,
            None => {
                return false;
            },
        };
        let mut work = match enr_insert_u16(work, &upk, endpoint.udp_port, &self.secret) {
            Some(w) => w,
            None => {
                return false;
            },
        };
        if !enr_write_seq(&mut work, seq + 1, &self.secret) {
            return false;
        }
        self.inner = work;
        true
    }

    /// Update the endpoint on an owned manager and hand the manager back:
    /// the builder-style form of [`Self::set_node_endpoint`].
    pub fn with_node_endpoint(self, endpoint: &NodeEndpoint) -> (r: EnrManager)
        requires
            endpoint.wf(),
        ensures
            r.key_material() == self.key_material(),
            (r.record_seq() == self.record_seq() + 1 && r.record_content() == updated_content(
                self.record_content(),
                *endpoint,
                self.key_material(),
            )) || (r.record_seq() == self.record_seq() && r.record_content()
                == self.record_content()),
    {
        let mut m = self;
        m.set_node_endpoint(endpoint);
        m
    }

    /// The record's current sequence number.
    pub fn seq(&self) -> (r: u64)
        ensures
            r == self.record_seq(),
    {
        enr_read_seq(&self.inner)
    }

    /// The UDP port the record stores, if a well-formed one is there.
    pub fn udp_port(&self) -> (r: Option<u16>)
        ensures
            r == port_in(self.record_content(), key_udp()),
    {
        match enr_entry(&self.inner, &udp_key()) {
            Some(v) => rlp_decode_u16(&v),
            None => None,
        }
    }

    /// The TCP port the record stores, if a well-formed one is there.
    pub fn tcp_port(&self) -> (r: Option<u16>)
        ensures
            r == port_in(self.record_content(), key_tcp()),
    {
        match enr_entry(&self.inner, &tcp_key()) {
            Some(v) => rlp_decode_u16(&v),
            None => None,
        }
    }

    /// The IP version 4 address octets the record stores, if well-formed
    /// ones are there.
    pub fn ip_octets(&self) -> (r: Option<Vec<u8>>)
        ensures
            r is Some <==> ip_in(self.record_content(), key_ip()) is Some,
            r matches Some(v) ==> Some(v@) == ip_in(self.record_content(), key_ip()),
    {
        match enr_entry(&self.inner, &ip_key()) {
            Some(v) => rlp_decode_bytes(&v),
            None => None,
        }
    }

    /// The UDP port the record stores beside a version 6 address, if a
    /// well-formed one is there.
    pub fn udp6_port(&self) -> (r: Option<u16>)
        ensures
            r == port_in(self.record_content(), key_udp6()),
    {
        match enr_entry(&self.inner, &udp6_key()) {
            Some(v) => rlp_decode_u16(&v),
            None => None,
        }
    }

    /// The TCP port the record stores beside a version 6 address, if a
    /// well-formed one is there.
    pub fn tcp6_port(&self) -> (r: Option<u16>)
        ensures
            r == port_in(self.record_content(), key_tcp6()),
    {
        match enr_entry(&self.inner, &tcp6_key()) {
            Some(v) => rlp_decode_u16(&v),
            None => None,
        }
    }

    /// The IP version 6 address octets the record stores, if well-formed
    /// ones are there.
    pub fn ip6_octets(&self) -> (r: Option<Vec<u8>>)
        ensures
            r is Some <==> ip_in(self.record_content(), key_ip6()) is Some,
            r matches Some(v) ==> Some(v@) == ip_in(self.record_content(), key_ip6()),
    {
        match enr_entry(&self.inner, &ip6_key()) {
            Some(v) => rlp_decode_bytes(&v),
            None => None,
        }
    }

    /// The held record, by reference, for transmission.
    pub fn as_enr(&self) -> (r: &NodeRecord)
        ensures
            enr_content(*r) == self.record_content(),
            enr_seq(*r) == self.record_seq(),
    {
        &self.inner
    }

    /// The held record, by value, consuming the manager.
    pub fn into_enr(self) -> (r: NodeRecord)
        ensures
            enr_content(r) == self.record_content(),
            enr_seq(r) == self.record_seq(),
    {
        self.inner
    }
}

impl DiskEntity for NodeRecord {
    type Model = (Map<Seq<u8>, Seq<u8>>, u64);

    open spec fn model(&self) -> (Map<Seq<u8>, Seq<u8>>, u64) {
        (enr_content(*self), enr_seq(*self))
    }

    open spec fn spec_path() -> Seq<char> {
        "enr"@
    }

    open spec fn spec_desc() -> Seq<char> {
        "Ethereum Node Record"@
    }

    /// A text determines a record exactly when it spells a well-signed one.
    open spec fn decoded(s: Seq<char>) -> Option<(Map<Seq<u8>, Seq<u8>>, u64)> {
        enr_decoded(s)
    }

    fn path_name() -> (r: String)
        ensures
            r@ == Self::spec_path(),
    {
        String::from_str("enr")
    }

    fn desc() -> (r: String)
        ensures
            r@ == Self::spec_desc(),
    {
        String::from_str("Ethereum Node Record")
    }

    fn to_repr(&self) -> (r: String)
        ensures
            Self::decoded(r@) == Some(self.model()),
    {
        enr_to_base64(self)
    }

    fn from_repr(s: &str) -> (r: Option<Self>)
        ensures
            r is Some <==> Self::decoded(s@) is Some,
            r matches Some(e) ==> Self::decoded(s@) == Some(e.model()),
    {
        enr_from_str(s)
    }
}

/// Law (endpoint fidelity): after an endpoint update of a version 4
/// endpoint, the record content reads back exactly the stored address
/// octets and both ports.
pub proof fn lemma_endpoint_fidelity(c: Map<Seq<u8>, Seq<u8>>, e: NodeEndpoint, km: Seq<u8>)
    requires
        e.is_v4(),
    ensures
        port_in(updated_content(c, e, km), key_udp()) == Some(e.udp_port),
        port_in(updated_content(c, e, km), key_tcp()) == Some(e.tcp_port),
        ip_in(updated_content(c, e, km), key_ip()) == Some(e.ip@),
{
    lemma_rlp_u16_round_trip(e.udp_port);
    lemma_rlp_u16_round_trip(e.tcp_port);
    lemma_rlp_str_round_trip(e.ip@);
}

/// Law (endpoint fidelity, version 6): after an endpoint update of a
/// version 6 endpoint, the record content reads back exactly the stored
/// address octets and both ports under the version 6 keys.
pub proof fn lemma_endpoint_fidelity_v6(c: Map<Seq<u8>, Seq<u8>>, e: NodeEndpoint, km: Seq<u8>)
    requires
        e.wf(),
        !e.is_v4(),
    ensures
        port_in(updated_content(c, e, km), key_udp6()) == Some(e.udp_port),
        port_in(updated_content(c, e, km), key_tcp6()) == Some(e.tcp_port),
        ip_in(updated_content(c, e, km), key_ip6()) == Some(e.ip@),
{
    lemma_rlp_u16_round_trip(e.udp_port);
    lemma_rlp_u16_round_trip(e.tcp_port);
    lemma_rlp_str_round_trip(e.ip@);
}

/// Law (pairing is kept): an endpoint update leaves the record embedding
/// the public key of the very key material it was signed with.
pub proof fn lemma_update_keeps_pairing(c: Map<Seq<u8>, Seq<u8>>, e: NodeEndpoint, km: Seq<u8>)
    ensures
        paired(updated_content(c, e, km), km),
{
}

/// The sequence number reached after a run of completed endpoint updates,
/// each moving it up by one as `set_node_endpoint` ensures.
pub open spec fn seq_after(start: u64, n: nat) -> int
    decreases n,
{
    if n == 0 {
        start as int
    } else {
        seq_after(start, (n - 1) as nat) + 1
    }
}

/// Law (monotonic sequencing): a run of completed endpoint updates from
/// starting sequence number S reaches exactly S plus the number of updates.
pub proof fn lemma_monotonic_sequencing(start: u64, n: nat)
    ensures
        seq_after(start, n) == start + n,
    decreases n,
{
    if n > 0 {
        lemma_monotonic_sequencing(start, (n - 1) as nat);
    }
}

/// Whether two byte vectors hold the same bytes.
fn vec_u8_eq(a: &Vec<u8>, b: &Vec<u8>) -> (r: bool)
    ensures
        r <==> a@ == b@,
{
    if a.len() != b.len() {
        proof {
            assert(a@ != b@);
        }
        return false;
    }
    let mut i: usize = 0;
    while i < a.len()
        invariant
            a@.len() == b@.len(),
            i <= a@.len(),
            forall|j: int| 0 <= j < i ==> a@[j] == b@[j],
        decreases a@.len() - i,
    {
        if a[i] != b[i] {
            return false;
        }
        i += 1;
    }
    proof {
        assert(a@ =~= b@);
    }
    true
}

/// The pubkey content key, as bytes.
fn pubkey_key() -> (r: Vec<u8>)
    ensures
        r@ == key_pubkey(),
{
    let mut v: Vec<u8> = Vec::new();
    v.push(115);
    v.push(101);
    v.push(99);
    v.push(112);
    v.push(50);
    v.push(53);
    v.push(54);
    v.push(107);
    v.push(49);
    proof {
        assert(v@ =~= key_pubkey());
    }
    v
}

/// The IP version 4 address content key, as bytes.
fn ip_key() -> (r: Vec<u8>)
    ensures
        r@ == key_ip(),
{
    let mut v: Vec<u8> = Vec::new();
    v.push(105);
    v.push(112);
    proof {
        assert(v@ =~= key_ip());
    }
    v
}

/// The IP version 6 address content key, as bytes.
fn ip6_key() -> (r: Vec<u8>)
    ensures
        r@ == key_ip6(),
{
    let mut v: Vec<u8> = Vec::new();
    v.push(105);
    v.push(112);
    v.push(54);
    proof {
        assert(v@ =~= key_ip6());
    }
    v
}

/// The TCP port content key, as bytes.
fn tcp_key() -> (r: Vec<u8>)
    ensures
        r@ == key_tcp(),
{
    let mut v: Vec<u8> = Vec::new();
    v.push(116);
    v.push(99);
    v.push(112);
    proof {
        assert(v@ =~= key_tcp());
    }
    v
}

/// The TCP port content key beside a version 6 address, as bytes.
fn tcp6_key() -> (r: Vec<u8>)
    ensures
        r@ == key_tcp6(),
{
    let mut v: Vec<u8> = Vec::new();
    v.push(116);
    v.push(99);
    v.push(112);
    v.push(54);
    proof {
        assert(v@ =~= key_tcp6());
    }
    v
}

/// The UDP port content key, as bytes.
fn udp_key() -> (r: Vec<u8>)
    ensures
        r@ == key_udp(),
{
    let mut v: Vec<u8> = Vec::new();
    v.push(117);
    v.push(100);
    v.push(112);
    proof {
        assert(v@ =~= key_udp());
    }
    v
}

/// The UDP port content key beside a version 6 address, as bytes.
fn udp6_key() -> (r: Vec<u8>)
    ensures
        r@ == key_udp6(),
{
    let mut v: Vec<u8> = Vec::new();
    v.push(117);
    v.push(100);
    v.push(112);
    v.push(54);
    proof {
        assert(v@ =~= key_udp6());
    }
    v
}

} // verus!
