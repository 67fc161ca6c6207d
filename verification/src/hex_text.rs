//! Lowercase hexadecimal text form for byte strings, with an exact
//! specification and a proved round trip.
use vstd::prelude::*;

verus! {

/// The character standing for one hexadecimal digit value (lowercase).
pub open spec fn hex_char_of(n: u8) -> char
    recommends
        n < 16,
{
    if n < 10 {
        (48 + n) as char
    } else {
        (87 + n) as char
    }
}

/// Whether a character is a hexadecimal digit (either case).
pub open spec fn is_hex_char(c: char) -> bool {
    ('0' <= c && c <= '9') || ('a' <= c && c <= 'f') || ('A' <= c && c <= 'F')
}

/// The digit value of a hexadecimal character.
pub open spec fn hex_val_of(c: char) -> u8
    recommends
        is_hex_char(c),
{
    if '0' <= c && c <= '9' {
        (c as u8 - 48) as u8
    } else if 'a' <= c && c <= 'f' {
        (c as u8 - 87) as u8
    } else {
        (c as u8 - 55) as u8
    }
}

/// The lowercase hexadecimal text of a byte string: two digits per byte,
/// high digit first.
pub open spec fn hex_of(bytes: Seq<u8>) -> Seq<char> {
    Seq::new(
        bytes.len() * 2,
        |i: int| if i % 2 == 0 {
            hex_char_of(bytes[i / 2] / 16)
        } else {
            hex_char_of(bytes[i / 2] % 16)
        },
    )
}

/// What a hexadecimal text parses to: the byte string, if every character is
/// a digit and the length is even; nothing otherwise.
pub open spec fn hex_parse(s: Seq<char>) -> Option<Seq<u8>> {
    if s.len() % 2 == 0 && (forall|i: int| 0 <= i < s.len() ==> is_hex_char(s[i])) {
        Some(Seq::new(s.len() / 2, |i: int| (hex_val_of(s[2 * i]) * 16 + hex_val_of(s[2 * i + 1])) as u8))
    } else {
        None
    }
}

/// Encode one digit value as a lowercase hexadecimal character.
fn hex_char(n: u8) -> (c: char)
    requires
        n < 16,
    ensures
        c == hex_char_of(n),
        is_hex_char(c),
        hex_val_of(c) == n,
{
    if n < 10 {
        (48 + n) as char
    } else {
        (87 + n) as char
    }
}

/// The digit value of a hexadecimal character, if it is one.
fn hex_val(c: char) -> (r: Option<u8>)
    ensures
        r is Some <==> is_hex_char(c),
        r matches Some(v) ==> v == hex_val_of(c) && v < 16,
{
    if '0' <= c && c <= '9' {
        Some(c as u8 - 48)
    } else if 'a' <= c && c <= 'f' {
        Some(c as u8 - 87)
    } else if 'A' <= c && c <= 'F' {
        Some(c as u8 - 55)
    } else {
        None
    }
}

/// Relies on std's String::push: appends exactly the one character.
#[verifier::external_body]
fn push_char(s: &mut String, c: char)
    ensures
        final(s)@ == old(s)@.push(c),
{
    s.push(c);
}

/// Encode a byte string as lowercase hexadecimal text.
pub fn bytes_to_hex(bytes: &Vec<u8>) -> (s: String)
    requires
        bytes@.len() * 2 <= usize::MAX,
    ensures
        s@ == hex_of(bytes@),
{
    let mut out = String::new();
    let mut i: usize = 0;
    while i < bytes.len()
        invariant
            i <= bytes@.len(),
            bytes@.len() * 2 <= usize::MAX,
            out@.len() == 2 * i,
            forall|j: int| 0 <= j < out@.len() ==> out@[j] == hex_of(bytes@)[j],
        decreases bytes@.len() - i,
    {
        let b = bytes[i];
        push_char(&mut out, hex_char(b / 16));
        push_char(&mut out, hex_char(b % 16));
        i += 1;
    }
    proof {
        assert(out@ =~= hex_of(bytes@));
    }
    out
}

/// Parse hexadecimal text back into bytes; absent if some character is not
/// a digit or the length is odd.
pub fn hex_to_bytes(s: &str) -> (r: Option<Vec<u8>>)
    ensures
        r is Some <==> hex_parse(s@) is Some,
        r matches Some(v) ==> Some(v@) == hex_parse(s@),
{
    let n = s.unicode_len();
    if n % 2 != 0 {
        return None;
    }
    let mut out: Vec<u8> = Vec::new();
    let mut i: usize = 0;
    while i < n
        invariant
            n == s@.len(),
            n % 2 == 0,
            i <= n,
            i % 2 == 0,
            out@.len() == i / 2,
            forall|j: int| 0 <= j < i ==> is_hex_char(s@[j]),
            forall|j: int| 0 <= j < out@.len() ==> out@[j] == (hex_val_of(s@[2 * j]) * 16 + hex_val_of(
                s@[2 * j + 1])) as u8,
        decreases n - i,
    {
        let hi = match hex_val(s.get_char(i)) {
            Some(v) => v,
            None => {
                return None;
            },
        };
        let lo = match hex_val(s.get_char(i + 1)) {
            Some(v) => v,
            None => {
                return None;
            },
        };
        out.push(hi * 16 + lo);
        i += 2;
    }
    proof {
        let parsed = hex_parse(s@);
        assert(parsed is Some);
        assert(out@ =~= parsed.unwrap());
    }
    Some(out)
}

/// Law: parsing the hexadecimal text of any byte string yields that byte
/// string back.
pub proof fn lemma_hex_round_trip(bytes: Seq<u8>)
    ensures
        hex_parse(hex_of(bytes)) == Some(bytes),
{
    let s = hex_of(bytes);
    assert forall|i: int| 0 <= i < s.len() implies is_hex_char(s[i]) by {
        let b = bytes[i / 2];
        assert(b / 16 < 16 && b % 16 < 16);
    }
    let parsed = hex_parse(s).unwrap();
    assert forall|i: int| 0 <= i < parsed.len() implies parsed[i] == bytes[i] by {
        let b = bytes[i];
        assert(b / 16 < 16 && b % 16 < 16);
        assert(s[2 * i] == hex_char_of(b / 16));
        assert(s[2 * i + 1] == hex_char_of(b % 16));
        assert(hex_val_of(hex_char_of(b / 16)) == b / 16);
        assert(hex_val_of(hex_char_of(b % 16)) == b % 16);
        assert(parsed[i] == (b / 16 * 16 + b % 16) as u8);
    }
    assert(parsed =~= bytes);
}

} // verus!
