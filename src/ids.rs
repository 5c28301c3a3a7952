use argon2::password_hash::rand_core::{OsRng, RngCore};
use vstd::prelude::*;

verus! {

/// The lower-case character of a hexadecimal digit.
pub open spec fn hex_char(d: nat) -> char {
    if d == 0 { '0' }
    else if d == 1 { '1' }
    else if d == 2 { '2' }
    else if d == 3 { '3' }
    else if d == 4 { '4' }
    else if d == 5 { '5' }
    else if d == 6 { '6' }
    else if d == 7 { '7' }
    else if d == 8 { '8' }
    else if d == 9 { '9' }
    else if d == 10 { 'a' }
    else if d == 11 { 'b' }
    else if d == 12 { 'c' }
    else if d == 13 { 'd' }
    else if d == 14 { 'e' }
    else { 'f' }
}

/// The last `k` hexadecimal digits of `n`, most significant first, padded
/// with zeros.
pub open spec fn hex_digits(n: nat, k: nat) -> Seq<char>
    decreases k,
{
    if k == 0 {
        Seq::empty()
    } else {
        hex_digits(n / 16, (k - 1) as nat).push(hex_char(n % 16))
    }
}

/// The hyphenated lower-case form of a 128-bit identifier: its 32 hex digits
/// in groups of 8, 4, 4, 4 and 12, as the `uuid` crate writes it.
pub open spec fn uuid_text(id: u128) -> Seq<char> {
    let n = id as nat;
    hex_digits(n / 0x1_0000_0000_0000_0000_0000_0000, 8) + "-"@
        + hex_digits((n / 0x1_0000_0000_0000_0000_0000) % 0x1_0000, 4) + "-"@
        + hex_digits((n / 0x1_0000_0000_0000_0000) % 0x1_0000, 4) + "-"@
        + hex_digits((n / 0x1_0000_0000_0000) % 0x1_0000, 4) + "-"@
        + hex_digits(n % 0x1_0000_0000_0000, 12)
}

/// Whether a 128-bit value carries the version-4 nibble and the RFC 4122
/// variant bits `10` of a random UUID.
pub open spec fn is_random_uuid(x: u128) -> bool {
    (x >> 76u128) & 0xfu128 == 4 && (x >> 62u128) & 0x3u128 == 2
}

/// Relies on rand_core's `OsRng::try_fill_bytes` for 16 random bytes and on
/// uuid's `Builder::from_random_bytes`, which sets the version-4 nibble and
/// the RFC 4122 variant bits; the identifier is handed back as its 128-bit
/// value. `None` stands for a failure of the random source.
#[verifier::external_body]
pub(crate) fn random_uuid() -> (r: Option<u128>)
    ensures
        r matches Some(x) ==> is_random_uuid(x),
{
    let mut bytes = [0u8; 16];
    if OsRng.try_fill_bytes(&mut bytes).is_err() {
        return None;
    }
    Some(uuid::Builder::from_random_bytes(bytes).into_uuid().as_u128())
}

fn hex_str(d: u128) -> (r: &'static str)
    requires
        d < 16,
    ensures
        r@ =~= seq![hex_char(d as nat)],
{
    if d == 0 {
        proof { reveal_strlit("0"); }
        "0"
    } else if d == 1 {
        proof { reveal_strlit("1"); }
        "1"
    } else if d == 2 {
        proof { reveal_strlit("2"); }
        "2"
    } else if d == 3 {
        proof { reveal_strlit("3"); }
        "3"
    } else if d == 4 {
        proof { reveal_strlit("4"); }
        "4"
    } else if d == 5 {
        proof { reveal_strlit("5"); }
        "5"
    } else if d == 6 {
        proof { reveal_strlit("6"); }
        "6"
    } else if d == 7 {
        proof { reveal_strlit("7"); }
        "7"
    } else if d == 8 {
        proof { reveal_strlit("8"); }
        "8"
    } else if d == 9 {
        proof { reveal_strlit("9"); }
        "9"
    } else if d == 10 {
        proof { reveal_strlit("a"); }
        "a"
    } else if d == 11 {
        proof { reveal_strlit("b"); }
        "b"
    } else if d == 12 {
        proof { reveal_strlit("c"); }
        "c"
    } else if d == 13 {
        proof { reveal_strlit("d"); }
        "d"
    } else if d == 14 {
        proof { reveal_strlit("e"); }
        "e"
    } else {
        proof { reveal_strlit("f"); }
        "f"
    }
}

/// The last `k` hexadecimal digits of `n`.
fn hex_string(n: u128, k: u32) -> (r: String)
    ensures
        r@ == hex_digits(n as nat, k as nat),
    decreases k,
{
    if k == 0 {
        String::new()
    } else {
        let mut s = hex_string(n / 16, k - 1);
        s.append(hex_str(n % 16));
        s
    }
}

/// The hyphenated lower-case text of a 128-bit identifier.
pub fn uuid_string(id: u128) -> (r: String)
    ensures
        r@ == uuid_text(id),
{
    let mut s = hex_string(id / 0x1_0000_0000_0000_0000_0000_0000, 8);
    s.append("-");
    let g = hex_string((id / 0x1_0000_0000_0000_0000_0000) % 0x1_0000, 4);
    s.append(g.as_str());
    s.append("-");
    let g = hex_string((id / 0x1_0000_0000_0000_0000) % 0x1_0000, 4);
    s.append(g.as_str());
    s.append("-");
    let g = hex_string((id / 0x1_0000_0000_0000) % 0x1_0000, 4);
    s.append(g.as_str());
    s.append("-");
    let g = hex_string(id % 0x1_0000_0000_0000, 12);
    s.append(g.as_str());
    s
}

} // verus!
