//! MAC address text: validation, decoding and canonical rendering.
use vstd::prelude::*;

use crate::text::push_char;

verus! {

pub open spec fn is_hex_digit(c: char) -> bool {
    ('0' <= c && c <= '9') || ('a' <= c && c <= 'f') || ('A' <= c && c <= 'F')
}

/// Value of a hexadecimal digit, upper or lower case.
pub open spec fn hex_value(c: char) -> nat {
    if '0' <= c && c <= '9' {
        (c as nat - '0' as nat) as nat
    } else if 'a' <= c && c <= 'f' {
        (c as nat - 'a' as nat + 10) as nat
    } else {
        (c as nat - 'A' as nat + 10) as nat
    }
}

/// Lower-case hexadecimal digit of a value below 16.
pub open spec fn hex_char(n: nat) -> char {
    seq!['0', '1', '2', '3', '4', '5', '6', '7', '8', '9', 'a', 'b', 'c', 'd', 'e', 'f'][n as int]
}

pub open spec fn is_mac_delimiter(c: char) -> bool {
    c == ':' || c == '-'
}

/// Six groups of two hexadecimal digits, joined by one delimiter (`:` or `-`)
/// that is the same throughout.
pub open spec fn is_mac_text(s: Seq<char>) -> bool {
    &&& s.len() == 17
    &&& is_mac_delimiter(s[2])
    &&& forall|i: int| 0 <= i < 17 && i % 3 != 2 ==> is_hex_digit(#[trigger] s[i])
    &&& forall|i: int| 0 <= i < 17 && i % 3 == 2 ==> #[trigger] s[i] == s[2]
}

/// The six octets that MAC text spells.
pub open spec fn mac_text_octets(s: Seq<char>) -> Seq<u8> {
    Seq::new(6, |i: int| (hex_value(s[3 * i]) * 16 + hex_value(s[3 * i + 1])) as u8)
}

/// Canonical form of MAC text: lower-case digits, `:` between octets.
pub open spec fn canonical_mac_text(s: Seq<char>) -> Seq<char> {
    Seq::new(
        s.len(),
        |i: int|
            if i % 3 == 2 {
                ':'
            } else {
                hex_char(hex_value(s[i]))
            },
    )
}

/// Rendering of six octets as `xx:xx:xx:xx:xx:xx` in lower case.
pub open spec fn mac_string_of(octets: Seq<u8>) -> Seq<char> {
    Seq::new(
        17,
        |i: int|
            if i % 3 == 2 {
                ':'
            } else if i % 3 == 0 {
                hex_char(octets[i / 3] as nat / 16)
            } else {
                hex_char(octets[i / 3] as nat % 16)
            },
    )
}

fn hex_digit_value(c: char) -> (r: Option<u8>)
    ensures
        r is Some <==> is_hex_digit(c),
        r matches Some(v) ==> v as nat == hex_value(c) && v < 16,
{
    if '0' <= c && c <= '9' {
        Some((c as u32 - '0' as u32) as u8)
    } else if 'a' <= c && c <= 'f' {
        Some((c as u32 - 'a' as u32 + 10) as u8)
    } else if 'A' <= c && c <= 'F' {
        Some((c as u32 - 'A' as u32 + 10) as u8)
    } else {
        None
    }
}

/// Whether `s` is the text of a six-octet MAC address.
pub fn validate_mac(s: &str) -> (r: bool)
    ensures
        r == is_mac_text(s@),
{
    let n = s.unicode_len();
    if n != 17 {
        return false;
    }
    let delim = s.get_char(2);
    if delim != ':' && delim != '-' {
        return false;
    }
    let mut i: usize = 0;
    while i < 17
        invariant
            n == 17,
            s@.len() == 17,
            i <= 17,
            delim == s@[2],
            is_mac_delimiter(delim),
            forall|j: int| 0 <= j < i && j % 3 != 2 ==> is_hex_digit(#[trigger] s@[j]),
            forall|j: int| 0 <= j < i && j % 3 == 2 ==> #[trigger] s@[j] == s@[2],
        decreases 17 - i,
    {
        let c = s.get_char(i);
        if i % 3 == 2 {
            if c != delim {
                return false;
            }
        } else {
            if hex_digit_value(c).is_none() {
                return false;
            }
        }
        i = i + 1;
    }
    true
}


/// Relies on `macaddr::MacAddr6`'s `FromStr`: text of six two-digit hex groups
/// joined by one `:` or `-` throughout parses to the octets it spells.
#[verifier::external_body]
fn parse_mac6(s: &str) -> (r: Option<Vec<u8>>)
    ensures
        is_mac_text(s@) ==> r is Some && r->Some_0@ == mac_text_octets(s@),
{
    match s.parse::<macaddr::MacAddr6>() {
        Ok(m) => Some(m.into_array().to_vec()),
        Err(_) => None,
    }
}

/// The octets of MAC text, or `None` where `s` is not MAC text.
pub fn parse_mac(s: &str) -> (r: Option<Vec<u8>>)
    ensures
        r is Some <==> is_mac_text(s@),
        r matches Some(o) ==> o@ == mac_text_octets(s@),
{
    if !validate_mac(s) {
        return None;
    }
    parse_mac6(s)
}

fn hex_digit_char(n: u8) -> (c: char)
    requires
        n < 16,
    ensures
        c == hex_char(n as nat),
{
    let table: [char; 16] = ['0', '1', '2', '3', '4', '5', '6', '7', '8', '9', 'a', 'b', 'c', 'd', 'e', 'f'];
    assert(table@ == seq!['0', '1', '2', '3', '4', '5', '6', '7', '8', '9', 'a', 'b', 'c', 'd', 'e', 'f']);
    table[n as usize]
}

/// Renders six octets as `xx:xx:xx:xx:xx:xx`, lower case.
pub fn format_mac(octets: &Vec<u8>) -> (r: String)
    requires
        octets@.len() == 6,
    ensures
        r@ == mac_string_of(octets@),
{
    let mut out = String::new();
    let mut k: usize = 0;
    while k < 6
        invariant
            octets@.len() == 6,
            k <= 6,
            out@.len() == if k == 0 { 0 } else { 3 * k - 1 },
            forall|i: int| 0 <= i < out@.len() ==> #[trigger] out@[i] == mac_string_of(octets@)[i],
        decreases 6 - k,
    {
        if k > 0 {
            push_char(&mut out, ':');
        }
        let b = octets[k];
        push_char(&mut out, hex_digit_char(b / 16));
        push_char(&mut out, hex_digit_char(b % 16));
        assert forall|i: int| 0 <= i < out@.len() implies #[trigger] out@[i] == mac_string_of(octets@)[i] by {
            if i >= 3 * k - 1 {
                if k > 0 && i == 3 * k - 1 {
                    assert(i % 3 == 2);
                } else if i == 3 * k {
                    assert(i % 3 == 0 && i / 3 == k);
                } else {
                    assert(i == 3 * k + 1);
                    assert(i % 3 == 1 && i / 3 == k);
                }
            }
        }
        k = k + 1;
    }
    assert(out@ =~= mac_string_of(octets@));
    out
}

/// Decoding MAC text and rendering the octets again gives the canonical text.
pub proof fn lemma_mac_round_trip(s: Seq<char>)
    requires
        is_mac_text(s),
    ensures
        mac_string_of(mac_text_octets(s)) == canonical_mac_text(s),
{
    let o = mac_text_octets(s);
    assert forall|i: int| 0 <= i < 17 implies #[trigger] mac_string_of(o)[i] == canonical_mac_text(s)[i] by {
        if i % 3 != 2 {
            let k = i / 3;
            let hi = 3 * k;
            assert(0 <= k < 6);
            assert(is_hex_digit(s[hi]) && is_hex_digit(s[hi + 1]));
            let a = hex_value(s[hi]);
            let b = hex_value(s[hi + 1]);
            assert(a < 16 && b < 16);
            assert(a * 16 + b < 256) by (nonlinear_arith)
                requires a < 16, b < 16;
            assert((a * 16 + b) / 16 == a && (a * 16 + b) % 16 == b) by (nonlinear_arith)
                requires a < 16, b < 16;
            assert(o[k] as nat == a * 16 + b);
        }
    }
    assert(mac_string_of(o) =~= canonical_mac_text(s));
}

/// The canonical text of a MAC, or `None` where `s` is not MAC text.
pub fn canonical_mac(s: &str) -> (r: Option<String>)
    ensures
        r is Some <==> is_mac_text(s@),
        r matches Some(t) ==> t@ == canonical_mac_text(s@),
{
    match parse_mac(s) {
        Some(o) => {
            proof {
                lemma_mac_round_trip(s@);
            }
            Some(format_mac(&o))
        },
        None => None,
    }
}

} // verus!
