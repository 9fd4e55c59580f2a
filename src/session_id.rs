//! Session identifiers: 128-bit values written as hyphenated UUID text.
use vstd::prelude::*;
use vstd::arithmetic::div_mod::{lemma_mod_breakdown, lemma_small_mod};

verus! {

/// The lower-case hexadecimal digit for `d` (0 to 15).
pub open spec fn hex_char(d: int) -> char {
    if d == 0 { '0' } else if d == 1 { '1' } else if d == 2 { '2' } else if d == 3 { '3' }
    else if d == 4 { '4' } else if d == 5 { '5' } else if d == 6 { '6' } else if d == 7 { '7' }
    else if d == 8 { '8' } else if d == 9 { '9' } else if d == 10 { 'a' } else if d == 11 { 'b' }
    else if d == 12 { 'c' } else if d == 13 { 'd' } else if d == 14 { 'e' } else { 'f' }
}

/// The last `n` hexadecimal digits of `v`, most significant first.
pub open spec fn hex_digits(v: nat, n: nat) -> Seq<char>
    decreases n,
{
    if n == 0 {
        Seq::empty()
    } else {
        hex_digits(v / 16, (n - 1) as nat).push(hex_char((v % 16) as int))
    }
}

/// 16 to the power `n`.
pub open spec fn pow16(n: nat) -> nat
    decreases n,
{
    if n == 0 { 1 } else { 16 * pow16((n - 1) as nat) }
}

/// The canonical text of a UUID: 32 lower-case hex digits of its big-endian
/// value, in groups of 8-4-4-4-12 joined by hyphens.
pub open spec fn uuid_text(v: u128) -> Seq<char> {
    let d = hex_digits(v as nat, 32);
    d.subrange(0, 8) + seq!['-'] + d.subrange(8, 12) + seq!['-'] + d.subrange(12, 16)
        + seq!['-'] + d.subrange(16, 20) + seq!['-'] + d.subrange(20, 32)
}

/// Lengths of the text forms that a UUID parser accepts: simple (32),
/// hyphenated (36), braced (38) and URN (45).
pub open spec fn uuid_text_len_ok(n: int) -> bool {
    n == 32 || n == 36 || n == 38 || n == 45
}

proof fn lemma_hex_digits_len(v: nat, n: nat)
    ensures
        hex_digits(v, n).len() == n,
    decreases n,
{
    if n > 0 {
        lemma_hex_digits_len(v / 16, (n - 1) as nat);
    }
}

proof fn lemma_hex_digits_injective(a: nat, b: nat, n: nat)
    requires
        hex_digits(a, n) == hex_digits(b, n),
    ensures
        pow16(n) > 0,
        a % pow16(n) == b % pow16(n),
    decreases n,
{
    if n == 0 {
        assert(a % 1 == 0 && b % 1 == 0) by (nonlinear_arith);
    } else {
        let m = (n - 1) as nat;
        let da = hex_digits(a / 16, m);
        let db = hex_digits(b / 16, m);
        lemma_hex_digits_len(a / 16, m);
        lemma_hex_digits_len(b / 16, m);
        assert(hex_digits(a, n).last() == hex_char((a % 16) as int));
        assert(hex_digits(b, n).last() == hex_char((b % 16) as int));
        assert(a % 16 == b % 16);
        assert(da =~= hex_digits(a, n).drop_last());
        assert(db =~= hex_digits(b, n).drop_last());
        lemma_hex_digits_injective(a / 16, b / 16, m);
        lemma_mod_breakdown(a as int, 16, pow16(m) as int);
        lemma_mod_breakdown(b as int, 16, pow16(m) as int);
    }
}

/// The text of a UUID has 36 characters and determines the UUID: two
/// different values never share a text.
pub proof fn lemma_uuid_text_injective(a: u128, b: u128)
    ensures
        uuid_text(a).len() == 36,
        uuid_text(a) == uuid_text(b) ==> a == b,
{
    lemma_hex_digits_len(a as nat, 32);
    lemma_hex_digits_len(b as nat, 32);
    if uuid_text(a) == uuid_text(b) {
        let da = hex_digits(a as nat, 32);
        let db = hex_digits(b as nat, 32);
        let ta = uuid_text(a);
        let tb = uuid_text(b);
        assert forall|k: int| 0 <= k < 32 implies da[k] == db[k] by {
            if k < 8 {
                assert(ta[k] == da[k] && tb[k] == db[k]);
            } else if k < 12 {
                assert(ta[k + 1] == da[k] && tb[k + 1] == db[k]);
            } else if k < 16 {
                assert(ta[k + 2] == da[k] && tb[k + 2] == db[k]);
            } else if k < 20 {
                assert(ta[k + 3] == da[k] && tb[k + 3] == db[k]);
            } else {
                assert(ta[k + 4] == da[k] && tb[k + 4] == db[k]);
            }
        }
        assert(da =~= db);
        lemma_hex_digits_injective(a as nat, b as nat, 32);
        reveal_with_fuel(pow16, 33);
        assert(pow16(32) == 0x1_0000_0000_0000_0000_0000_0000_0000_0000);
        lemma_small_mod(a as nat, pow16(32));
        lemma_small_mod(b as nat, pow16(32));
    }
}

/// Relies on `uuid::Uuid::from_u128` and its `Display` impl, which writes the
/// hyphenated lower-case form of the big-endian bytes.
#[verifier::external_body]
pub(crate) fn uuid_to_text(v: u128) -> (r: String)
    ensures
        r@ == uuid_text(v),
{
    uuid::Uuid::from_u128(v).to_string()
}

/// What a UUID parser makes of a text: the value, or nothing where the text
/// is no UUID in any accepted form.
pub uninterp spec fn parsed_uuid(s: Seq<char>) -> Option<u128>;

/// Relies on `uuid::Uuid::parse_str` and `as_u128`: the result depends on the
/// text alone, the canonical text of a value parses back to that value, and
/// no input whose length is not that of one of the accepted forms parses.
#[verifier::external_body]
pub(crate) fn uuid_from_text(s: &str) -> (r: Option<u128>)
    ensures
        r == parsed_uuid(s@),
        forall|v: u128| s@ == uuid_text(v) ==> r == Some(v),
        !uuid_text_len_ok(s@.len() as int) ==> r is None,
{
    match uuid::Uuid::parse_str(s) {
        Ok(u) => Some(u.as_u128()),
        Err(_) => None,
    }
}

/// Relies on `uuid::Uuid::new_v4`: a random UUID from the operating system's
/// generator, with the version nibble set to 4 and the RFC 4122 variant bits.
#[verifier::external_body]
pub(crate) fn random_uuid_v4() -> (r: u128)
    ensures
        (r >> 76u128) & 0xfu128 == 4u128,
        (r >> 62u128) & 0x3u128 == 2u128,
{
    uuid::Uuid::new_v4().as_u128()
}

} // verus!
