//! The raw private-key secret: thirty-two bytes of key material, persisted
//! as lowercase hexadecimal text under the file name `key`.
use vstd::prelude::*;
use crate::disk::{DiskEntity, dir_load, dir_save};
use crate::hex_text::{bytes_to_hex, hex_of, hex_parse, hex_to_bytes, lemma_hex_round_trip};

verus! {

/// The number of bytes of key material a secret holds.
pub const SECRET_LEN: usize = 32;

/// A raw private-key secret: exactly [`SECRET_LEN`] bytes of key material.
#[derive(Debug)]
pub struct Secret {
    bytes: Vec<u8>,
}

impl View for Secret {
    type V = Seq<u8>;

    closed spec fn view(&self) -> Seq<u8> {
        self.bytes@
    }
}

impl Secret {
    /// Every secret holds exactly [`SECRET_LEN`] bytes.
    #[verifier::type_invariant]
    pub closed spec fn wf(self) -> bool {
        self@.len() == SECRET_LEN
    }

    /// Wrap raw key material; absent unless it is exactly [`SECRET_LEN`]
    /// bytes long.
    pub fn from_bytes(bytes: Vec<u8>) -> (r: Option<Secret>)
        ensures
            r is Some <==> bytes@.len() == SECRET_LEN,
            r matches Some(s) ==> s@ == bytes@,
    {
        if bytes.len() == SECRET_LEN {
            Some(Secret { bytes })
        } else {
            None
        }
    }

    /// A copy of the key material.
    pub fn to_bytes(&self) -> (r: Vec<u8>)
        ensures
            r@ == self@,
            r@.len() == SECRET_LEN,
    {
        proof {
            use_type_invariant(self);
        }
        let mut r: Vec<u8> = Vec::new();
        let mut i: usize = 0;
        while i < self.bytes.len()
            invariant
                i <= self@.len(),
                r@ == self@.take(i as int),
            decreases self@.len() - i,
        {
            r.push(self.bytes[i]);
            proof {
                assert(r@ =~= self@.take(i + 1));
            }
            i += 1;
        }
        proof {
            assert(r@ =~= self@);
        }
        r
    }

    /// Whether two secrets hold the same key material.
    pub fn same_key(&self, other: &Secret) -> (r: bool)
        ensures
            r <==> self@ == other@,
    {
        proof {
            use_type_invariant(self);
            use_type_invariant(other);
        }
        let mut i: usize = 0;
        while i < self.bytes.len()
            invariant
                self@.len() == SECRET_LEN,
                other@.len() == SECRET_LEN,
                i <= SECRET_LEN,
                forall|j: int| 0 <= j < i ==> self@[j] == other@[j],
            decreases self@.len() - i,
        {
            if self.bytes[i] != other.bytes[i] {
                return false;
            }
            i += 1;
        }
        proof {
            assert(self@ =~= other@);
        }
        true
    }
}

impl DiskEntity for Secret {
    type Model = Seq<u8>;

    open spec fn model(&self) -> Seq<u8> {
        self@
    }

    open spec fn spec_path() -> Seq<char> {
        "key"@
    }

    open spec fn spec_desc() -> Seq<char> {
        "key file"@
    }

    /// A text determines a secret exactly when it is the hexadecimal form of
    /// [`SECRET_LEN`] bytes.
    open spec fn decoded(s: Seq<char>) -> Option<Seq<u8>> {
        match hex_parse(s) {
            Some(b) => if b.len() == SECRET_LEN {
                Some(b)
            } else {
                None
            },
            None => None,
        }
    }

    fn path_name() -> (r: String)
        ensures
            r@ == Self::spec_path(),
    {
        String::from_str("key")
    }

    fn desc() -> (r: String)
        ensures
            r@ == Self::spec_desc(),
    {
        String::from_str("key file")
    }

    fn to_repr(&self) -> (r: String)
        ensures
            Self::decoded(r@) == Some(self.model()),
    {
        proof {
            use_type_invariant(self);
            lemma_hex_round_trip(self@);
        }
        bytes_to_hex(&self.bytes)
    }

    fn from_repr(s: &str) -> (r: Option<Self>)
        ensures
            r is Some <==> Self::decoded(s@) is Some,
            r matches Some(e) ==> Self::decoded(s@) == Some(e.model()),
    {
        match hex_to_bytes(s) {
            Some(bytes) => {
                if bytes.len() == SECRET_LEN {
                    Some(Secret { bytes })
                } else {
                    None
                }
            },
            None => None,
        }
    }
}

/// Law: saving a secret's canonical hexadecimal text into any directory and
/// loading the key entity back yields exactly that secret's key material —
/// the text a secret's serialization provably produces.
pub proof fn lemma_key_save_then_load(dir: Map<Seq<char>, Seq<char>>, key_material: Seq<u8>)
    requires
        key_material.len() == SECRET_LEN,
    ensures
        dir_load::<Secret>(dir_save::<Secret>(dir, hex_of(key_material))) == Some(key_material),
{
    lemma_hex_round_trip(key_material);
}

impl PartialEq for Secret {
    /// Two secrets are equal when they hold the same key material.
    fn eq(&self, other: &Secret) -> (r: bool) {
        self.same_key(other)
    }
}

impl vstd::std_specs::cmp::PartialEqSpecImpl for Secret {
    open spec fn obeys_eq_spec() -> bool {
        true
    }

    open spec fn eq_spec(&self, other: &Secret) -> bool {
        self@ == other@
    }
}

impl Eq for Secret {

}

} // verus!
