//! Exact byte-pattern search and the hex notation in which patterns are given.
use vstd::prelude::*;
use vstd::string::StringSliceAdditionalSpecFns;

verus! {

#[verifier::external_type_specification]
#[verifier::external_body]
pub struct ExFromHexError(hex::FromHexError);

/// `c` is an ASCII hex digit of either case.
pub open spec fn is_hex_digit(c: u8) -> bool {
    (48 <= c <= 57) || (65 <= c <= 70) || (97 <= c <= 102)
}

/// The value of the hex digit `c`.
pub open spec fn hex_digit_value(c: u8) -> int {
    if 48 <= c <= 57 {
        c - 48
    } else if 65 <= c <= 70 {
        c - 55
    } else {
        c - 87
    }
}

/// `s` is an even number of hex digits.
pub open spec fn valid_hex(s: Seq<u8>) -> bool {
    s.len() % 2 == 0 && forall|i: int| 0 <= i < s.len() ==> is_hex_digit(#[trigger] s[i])
}

/// The bytes that the digit pairs of `s` denote, high digit first.
pub open spec fn hex_decoded(s: Seq<u8>) -> Seq<u8> {
    Seq::new(
        (s.len() / 2) as nat,
        |i: int| (16 * hex_digit_value(s[2 * i]) + hex_digit_value(s[2 * i + 1])) as u8,
    )
}

/// Relies on hex::decode: it accepts exactly an even number of hex digits of
/// either case and turns each pair into one byte, high digit first.
#[verifier::external_body]
fn decode_hex(s: &[u8]) -> (r: Result<Vec<u8>, hex::FromHexError>)
    ensures
        r is Ok <==> valid_hex(s@),
        r matches Ok(v) ==> v@ == hex_decoded(s@),
{
    hex::decode(s)
}

/// The bytes that the hex text `s` denotes, or the reason it denotes none.
pub fn parse_hex(s: &str) -> (r: Result<Vec<u8>, hex::FromHexError>)
    ensures
        r is Ok <==> valid_hex(s.spec_bytes()),
        r matches Ok(v) ==> v@ == hex_decoded(s.spec_bytes()),
{
    decode_hex(s.as_bytes())
}

/// `p` is non-empty and occurs in `d` at offset `i`.
pub open spec fn occurs_at(d: Seq<u8>, p: Seq<u8>, i: int) -> bool {
    &&& p.len() > 0
    &&& 0 <= i
    &&& i + p.len() <= d.len()
    &&& d.subrange(i, i + p.len()) == p
}

/// The offsets below `n` at which `p` occurs in `d`, ascending; overlapping
/// occurrences all count.
pub open spec fn offsets_below(d: Seq<u8>, p: Seq<u8>, n: int) -> Seq<u64>
    decreases n,
{
    if n <= 0 {
        Seq::empty()
    } else if occurs_at(d, p, n - 1) {
        offsets_below(d, p, n - 1).push((n - 1) as u64)
    } else {
        offsets_below(d, p, n - 1)
    }
}

/// Every offset at which `p` occurs in `d`, ascending.
pub open spec fn match_offsets(d: Seq<u8>, p: Seq<u8>) -> Seq<u64> {
    offsets_below(d, p, d.len() as int)
}

/// Whether `p` occurs in `d` at offset `i`, comparing byte by byte.
fn matches_at(d: &[u8], p: &[u8], i: usize) -> (r: bool)
    ensures
        r == occurs_at(d@, p@, i as int),
{
    if p.len() == 0 || p.len() > d.len() || i > d.len() - p.len() {
        return false;
    }
    let mut j: usize = 0;
    while j < p.len()
        invariant
            0 < p@.len(),
            i + p@.len() <= d@.len(),
            j <= p@.len(),
            forall|k: int| 0 <= k < j ==> d@[i + k] == p@[k],
        decreases p.len() - j,
    {
        assert(i + j < d.len());
        if d[i + j] != p[j] {
            assert(d@.subrange(i as int, i + p@.len())[j as int] != p@[j as int]);
            return false;
        }
        j = j + 1;
    }
    assert(d@.subrange(i as int, i + p@.len()) =~= p@);
    true
}

/// Every offset at which `p` occurs in `d`, ascending, overlapping
/// occurrences included. An empty pattern, or one longer than `d`, occurs
/// nowhere.
pub fn find_pattern(d: &[u8], p: &[u8]) -> (r: Vec<u64>)
    ensures
        r@ == match_offsets(d@, p@),
{
    let mut r: Vec<u64> = Vec::new();
    let mut i: usize = 0;
    while i < d.len()
        invariant
            i <= d@.len(),
            r@ == offsets_below(d@, p@, i as int),
        decreases d.len() - i,
    {
        if matches_at(d, p, i) {
            r.push(i as u64);
        }
        i = i + 1;
    }
    r
}

} // verus!
