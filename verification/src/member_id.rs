//! Member IDs of the form `BRAND-YYYY-NNNN-SS` and receipt references.
//!
//! `BRAND` is the configured brand code (`"BSDS"` unless configured),
//! `YYYY` the joining year, `NNNN` the primary member number (zero-padded to
//! four digits) and `SS` the sub-member index (`00` for the primary member).

use vstd::prelude::*;
use crate::text::string_views;
use crate::text::{
    all_digits, boundary, byte_len, digits_from, digits_value, digit_value, byte_range, is_digit, lemma_ascii_bytes, str_byte_len, byte_slice, chars_eq, chars_of, decimal, lemma_decimal_digits,
    join_on, lemma_decimal_len, lemma_split_concat, lemma_split_join, lemma_split_no_sep, lemma_zero_padded, parse_u32,
    parse_u32_chars, push_char, push_decimal, split_chars, split_on, string_from_chars, to_upper,
    trim_chars, trimmed, unicode_upper, views, zero_padded, zero_padded_string,
};

verus! {

broadcast use vstd::string::group_string_axioms;

/// Brand code used when none is configured.
pub const DEFAULT_BRAND_CODE: &'static str = "BSDS";

// ---------------------------------------------------------------------------
// Specification
// ---------------------------------------------------------------------------

pub open spec fn dash() -> Seq<char> {
    seq!['-']
}

/// The brand code given a configured value: trimmed and upper-cased, or the
/// default when nothing (or only white space) is configured.
pub open spec fn brand_code_spec(value: Option<Seq<char>>) -> Seq<char> {
    match value {
        Some(v) => if unicode_upper(trimmed(v)).len() > 0 {
            unicode_upper(trimmed(v))
        } else {
            DEFAULT_BRAND_CODE@
        },
        None => DEFAULT_BRAND_CODE@,
    }
}

/// `BRAND-YYYY-`
pub open spec fn member_id_prefix_spec(brand: Seq<char>, year: nat) -> Seq<char> {
    brand + dash() + decimal(year) + dash()
}

/// `BRAND-REC-YYYY-`
pub open spec fn receipt_number_prefix_spec(brand: Seq<char>, year: nat) -> Seq<char> {
    brand + seq!['-', 'R', 'E', 'C', '-'] + decimal(year) + dash()
}

/// `BRAND-YYYY-NNNN-SS`
pub open spec fn member_id_spec(brand: Seq<char>, year: nat, sequence: nat, suffix: nat) -> Seq<char> {
    member_id_prefix_spec(brand, year) + zero_padded(sequence, 4) + dash() + zero_padded(suffix, 2)
}

/// The `NNNN` number of a well-formed member ID: four `-`-separated parts,
/// the brand, then exactly four, four and two ASCII digits.
pub open spec fn sequence_number_spec(brand: Seq<char>, id: Seq<char>) -> Option<u32> {
    let p = split_on(id, '-');
    if p.len() == 4 && p[0] == brand && p[1].len() == 4 && all_digits(p[1])
        && p[2].len() == 4 && all_digits(p[2]) && p[3].len() == 2 && all_digits(p[3]) {
        Some(digits_value(p[2]) as u32)
    } else {
        None
    }
}

/// Four ASCII digits read as a number below 10000.
proof fn lemma_four_digits(s: Seq<char>)
    requires
        s.len() == 4,
        all_digits(s),
    ensures
        digits_value(s) < 10000,
        parse_u32(s) == Some(digits_value(s) as u32),
{
    let s3 = s.drop_last();
    let s2 = s3.drop_last();
    let s1 = s2.drop_last();
    let s0 = s1.drop_last();
    assert(s0.len() == 0);
    assert(is_digit(s[0]) && is_digit(s[1]) && is_digit(s[2]) && is_digit(s[3]));
    assert(s1.last() == s[0] && s2.last() == s[1] && s3.last() == s[2] && s.last() == s[3]);
    assert(digits_value(s1) == digits_value(s0) * 10 + digit_value(s[0]));
    assert(digits_value(s2) == digits_value(s1) * 10 + digit_value(s[1]));
    assert(digits_value(s3) == digits_value(s2) * 10 + digit_value(s[2]));
    assert(digits_value(s) == digits_value(s3) * 10 + digit_value(s[3]));
}

// ---------------------------------------------------------------------------
// Brand code
// ---------------------------------------------------------------------------

/// The brand code from the configured value (`DATA_BRAND_CODE`), if any.
pub fn brand_code(value: Option<&str>) -> (r: String)
    ensures
        r@ == brand_code_spec(match value { Some(v) => Some(v@), None => None }),
{
    match value {
        Some(v) => {
            let t = trim_chars(&chars_of(v));
            let ts = string_from_chars(&t);
            let u = to_upper(ts.as_str());
            if chars_of(u.as_str()).len() > 0 {
                u
            } else {
                DEFAULT_BRAND_CODE.to_string()
            }
        },
        None => DEFAULT_BRAND_CODE.to_string(),
    }
}

// ---------------------------------------------------------------------------
// Prefix helpers
// ---------------------------------------------------------------------------

/// The member ID prefix for a year, e.g. `"BSDS-2026-"`.
pub fn member_id_prefix(brand: &str, year: u32) -> (r: String)
    ensures
        r@ == member_id_prefix_spec(brand@, year as nat),
{
    let mut r = brand.to_string();
    push_char(&mut r, '-');
    push_decimal(&mut r, year as u64);
    push_char(&mut r, '-');
    r
}

/// The receipt number prefix for a year, e.g. `"BSDS-REC-2026-"`.
pub fn receipt_number_prefix(brand: &str, year: u32) -> (r: String)
    ensures
        r@ == receipt_number_prefix_spec(brand@, year as nat),
{
    let mut r = brand.to_string();
    push_char(&mut r, '-');
    push_char(&mut r, 'R');
    push_char(&mut r, 'E');
    push_char(&mut r, 'C');
    push_char(&mut r, '-');
    push_decimal(&mut r, year as u64);
    push_char(&mut r, '-');
    assert(r@ =~= receipt_number_prefix_spec(brand@, year as nat));
    r
}

// ---------------------------------------------------------------------------
// Primary member ID
// ---------------------------------------------------------------------------

/// Builds a member ID from its parts: `(2026, 1, 0)` gives `"BSDS-2026-0001-00"`.
pub fn build_member_id(brand: &str, year: u32, sequence: u32, suffix: u32) -> (r: String)
    ensures
        r@ == member_id_spec(brand@, year as nat, sequence as nat, suffix as nat),
{
    let mut r = member_id_prefix(brand, year);
    let s = zero_padded_string(sequence as u64, 4);
    r.append(s.as_str());
    push_char(&mut r, '-');
    let t = zero_padded_string(suffix as u64, 2);
    r.append(t.as_str());
    r
}

/// The next primary member ID given the highest sequence number in use this
/// year (`None` when there is none yet).
pub fn generate_member_id(brand: &str, year: u32, current_max_sequence: Option<u32>) -> (r: String)
    requires
        current_max_sequence != Some(u32::MAX),
    ensures
        r@ == member_id_spec(brand@, year as nat, match current_max_sequence {
            Some(s) => s + 1,
            None => 1,
        } as nat, 0),
{
    let next_seq = match current_max_sequence {
        Some(s) => s + 1,
        None => 1,
    };
    build_member_id(brand, year, next_seq, 0)
}

// ---------------------------------------------------------------------------
// Sub-member ID
// ---------------------------------------------------------------------------

/// The sub-member ID with the 1-based `index` (1, 2 or 3): the parent's ID
/// with its last two bytes replaced by the two-digit index.
pub fn generate_sub_member_id(parent_member_id: &str, index: u32) -> (r: Result<String, String>)
    requires
        1 <= index <= 3 && byte_len(parent_member_id@) >= 2
            ==> boundary(parent_member_id@, byte_len(parent_member_id@) - 2),
    ensures
        !(1 <= index <= 3) ==> (r matches Err(e)
            && e@ == "Sub-member index must be 1-3, got "@ + decimal(index as nat)),
        1 <= index <= 3 && byte_len(parent_member_id@) < 2 ==> (r matches Err(e)
            && e@ == "Parent member ID is too short"@),
        1 <= index <= 3 && byte_len(parent_member_id@) >= 2 ==> (r matches Ok(s)
            && s@ == byte_slice(parent_member_id@, 0, byte_len(parent_member_id@) - 2)
                + zero_padded(index as nat, 2)),
{
    if !(1 <= index && index <= 3) {
        let mut e = "Sub-member index must be 1-3, got ".to_string();
        push_decimal(&mut e, index as u64);
        return Err(e);
    }
    let n = str_byte_len(parent_member_id);
    if n < 2 {
        return Err("Parent member ID is too short".to_string());
    }
    proof {
        vstd::utf8::encode_utf8_valid_utf8(parent_member_id@);
        vstd::utf8::is_char_boundary_start_end_of_seq(vstd::utf8::encode_utf8(parent_member_id@));
    }
    let base = byte_range(parent_member_id, 0, n - 2);
    let mut r = base.to_string();
    let idx = zero_padded_string(index as u64, 2);
    r.append(idx.as_str());
    Ok(r)
}

// ---------------------------------------------------------------------------
// Validation
// ---------------------------------------------------------------------------

/// The `NNNN` segment of a member ID, or `None` when the ID is not of the
/// `BRAND-YYYY-NNNN-SS` form.
pub fn parse_sequence_number(brand: &str, member_id: &str) -> (r: Option<u32>)
    ensures
        r == sequence_number_spec(brand@, member_id@),
{
    let b = chars_of(brand);
    let parts = split_chars(&chars_of(member_id), '-');
    proof {
        assert(parts@.len() == views(parts@).len());
    }
    if parts.len() != 4 {
        return None;
    }
    proof {
        assert(views(parts@)[0] == parts@[0]@);
        assert(views(parts@)[1] == parts@[1]@);
        assert(views(parts@)[2] == parts@[2]@);
        assert(views(parts@)[3] == parts@[3]@);
    }
    if !chars_eq(&parts[0], &b) {
        return None;
    }
    if parts[1].len() != 4 || !digits_from(&parts[1], 0) {
        return None;
    }
    if parts[2].len() != 4 || !digits_from(&parts[2], 0) {
        return None;
    }
    if parts[3].len() != 2 || !digits_from(&parts[3], 0) {
        return None;
    }
    proof {
        assert(parts@[1]@.subrange(0, 4) == parts@[1]@);
        assert(parts@[2]@.subrange(0, 4) == parts@[2]@);
        assert(parts@[3]@.subrange(0, 2) == parts@[3]@);
        lemma_four_digits(parts@[2]@);
    }
    parse_u32_chars(&parts[2])
}

/// Whether `id` has the `BRAND-YYYY-NNNN-SS` form.
pub fn is_valid_member_id(brand: &str, id: &str) -> (b: bool)
    ensures
        b == (sequence_number_spec(brand@, id@) is Some),
{
    parse_sequence_number(brand, id).is_some()
}

/// A built member ID parses back to its sequence number.
///
/// Holds for every brand without `-`, every four-digit year, sequence numbers
/// up to 9999 and suffixes up to 99.
pub proof fn lemma_member_id_round_trip(brand: Seq<char>, year: nat, sequence: nat, suffix: nat)
    requires
        !brand.contains('-'),
        1000 <= year <= 9999,
        sequence <= 9999,
        suffix <= 99,
    ensures
        sequence_number_spec(brand, member_id_spec(brand, year, sequence, suffix))
            == Some(sequence as u32),
{
    let y = decimal(year);
    let s = zero_padded(sequence, 4);
    let x = zero_padded(suffix, 2);
    lemma_decimal_digits(year);
    lemma_decimal_len(year);
    lemma_zero_padded(year, 0);
    lemma_zero_padded(sequence, 4);
    lemma_zero_padded(suffix, 2);
    assert(zero_padded(year, 0) == y);
    let id = member_id_spec(brand, year, sequence, suffix);
    assert(id == brand + seq!['-'] + (y + seq!['-'] + (s + seq!['-'] + x)));
    lemma_split_concat(brand, y + seq!['-'] + (s + seq!['-'] + x), '-');
    lemma_split_concat(y, s + seq!['-'] + x, '-');
    lemma_split_concat(s, x, '-');
    lemma_split_no_sep(brand, '-');
    lemma_split_no_sep(y, '-');
    lemma_split_no_sep(s, '-');
    lemma_split_no_sep(x, '-');
    let p = split_on(id, '-');
    assert(p =~= seq![brand, y, s, x]);
}

/// A valid member ID is its four parts joined by `-`.
proof fn lemma_valid_id_joined(brand: Seq<char>, parent: Seq<char>)
    requires
        sequence_number_spec(brand, parent) is Some,
    ensures
        ({
            let p = split_on(parent, '-');
            &&& p.len() == 4
            &&& !p[0].contains('-') && !p[1].contains('-') && !p[2].contains('-') && !p[3].contains('-')
            &&& parent == p[0] + seq!['-'] + p[1] + seq!['-'] + p[2] + seq!['-'] + p[3]
        }),
{
    let p = split_on(parent, '-');
    lemma_split_join(parent, '-');
    assert(!p[0].contains('-') && !p[1].contains('-') && !p[2].contains('-') && !p[3].contains('-'));
    let p1 = p.drop_last();
    let p2 = p1.drop_last();
    let p3 = p2.drop_last();
    assert(p3 =~= seq![p[0]]);
    assert(p2 =~= seq![p[0], p[1]]);
    assert(p1 =~= seq![p[0], p[1], p[2]]);
    assert(join_on(p3, '-') == p[0]);
    assert(join_on(p2, '-') == p[0] + seq!['-'] + p[1]);
    assert(join_on(p1, '-') == p[0] + seq!['-'] + p[1] + seq!['-'] + p[2]);
    assert(join_on(p, '-') == join_on(p1, '-') + seq!['-'] + p[3]);
}

/// Text made of an ASCII brand, `-` and digits is ASCII.
proof fn lemma_joined_ascii(brand: Seq<char>, y: Seq<char>, q: Seq<char>, x: Seq<char>)
    requires
        vstd::utf8::is_ascii_chars(brand),
        all_digits(y),
        all_digits(q),
        all_digits(x),
    ensures
        vstd::utf8::is_ascii_chars(brand + seq!['-'] + y + seq!['-'] + q + seq!['-'] + x),
{
    let t = brand + seq!['-'] + y + seq!['-'] + q + seq!['-'] + x;
    let b = brand.len() as int;
    let c1 = b + 1 + y.len();
    let c2 = c1 + 1 + q.len();
    assert forall|i: int| 0 <= i < t.len() implies '\0' <= #[trigger] t[i] <= '\u{7f}' by {
        if i < b {
            assert(t[i] == brand[i]);
        } else if i == b {
        } else if i < c1 {
            assert(t[i] == y[i - b - 1]);
            assert(is_digit(y[i - b - 1]));
        } else if i == c1 {
        } else if i < c2 {
            assert(t[i] == q[i - c1 - 1]);
            assert(is_digit(q[i - c1 - 1]));
        } else if i == c2 {
        } else {
            assert(t[i] == x[i - c2 - 1]);
            assert(is_digit(x[i - c2 - 1]));
        }
    }
}

/// A sub-member's ID is its parent's with the last two characters replaced by
/// the two-digit slot, so it carries the parent's sequence number.
///
/// Holds for every valid member ID of an ASCII brand and every slot up to 99.
pub proof fn lemma_sub_member_id_keeps_sequence(brand: Seq<char>, parent: Seq<char>, slot: nat)
    requires
        vstd::utf8::is_ascii_chars(brand),
        sequence_number_spec(brand, parent) is Some,
        slot <= 99,
    ensures
        ({
            let sub = byte_slice(parent, 0, byte_len(parent) - 2) + zero_padded(slot, 2);
            &&& byte_len(parent) >= 2
            &&& boundary(parent, byte_len(parent) - 2)
            &&& sequence_number_spec(brand, sub) == sequence_number_spec(brand, parent)
        }),
{
    let p = split_on(parent, '-');
    lemma_valid_id_joined(brand, parent);
    let y = p[1];
    let q = p[2];
    let x = p[3];
    lemma_joined_ascii(brand, y, q, x);
    let head = brand + seq!['-'] + y + seq!['-'] + q + seq!['-'];
    assert(parent =~= head + x);
    lemma_ascii_bytes(parent);
    assert(byte_slice(parent, 0, parent.len() - 2) == parent.subrange(0, parent.len() - 2));
    assert(parent.subrange(0, parent.len() - 2) =~= head);
    let z = zero_padded(slot, 2);
    lemma_zero_padded(slot, 2);
    let sub = head + z;
    assert(sub =~= brand + seq!['-'] + (y + seq!['-'] + (q + seq!['-'] + z)));
    lemma_split_concat(brand, y + seq!['-'] + (q + seq!['-'] + z), '-');
    lemma_split_concat(y, q + seq!['-'] + z, '-');
    lemma_split_concat(q, z, '-');
    lemma_split_no_sep(brand, '-');
    lemma_split_no_sep(y, '-');
    lemma_split_no_sep(q, '-');
    lemma_split_no_sep(z, '-');
    assert(split_on(sub, '-') =~= seq![brand, y, q, z]);
}

// ---------------------------------------------------------------------------
// Receipt references for payment orders
// ---------------------------------------------------------------------------

pub open spec fn min_int(a: int, b: int) -> int {
    if a <= b { a } else { b }
}

/// The first `n` bytes of `s` (all of it when shorter).
pub open spec fn head_bytes(s: Seq<char>, n: int) -> Seq<char> {
    byte_slice(s, 0, min_int(n, byte_len(s)))
}

/// `BRAND-<first 8 bytes of the member ID>-<timestamp>`, before the 40-byte cut.
pub open spec fn member_order_raw(brand: Seq<char>, member_id: Seq<char>, timestamp: nat) -> Seq<char> {
    brand + dash() + head_bytes(member_id, 8) + dash() + decimal(timestamp)
}

/// `BRAND-SP-<first 8 bytes of the token>-<timestamp>`, before the 40-byte cut.
pub open spec fn sponsor_order_raw(brand: Seq<char>, token: Seq<char>, timestamp: nat) -> Seq<char> {
    brand + seq!['-', 'S', 'P', '-'] + head_bytes(token, 8) + dash() + decimal(timestamp)
}

/// Byte offsets where `s` may be cut at `n` bytes without splitting a character.
pub open spec fn cut_ok(s: Seq<char>, n: int) -> bool {
    boundary(s, min_int(n, byte_len(s)))
}

/// The first `n` bytes of `s` as a new string.
fn head_string(s: &str, n: usize) -> (r: String)
    requires
        cut_ok(s@, n as int),
    ensures
        r@ == head_bytes(s@, n as int),
{
    let len = str_byte_len(s);
    let end = if n <= len { n } else { len };
    proof {
        vstd::utf8::encode_utf8_valid_utf8(s@);
        vstd::utf8::is_char_boundary_start_end_of_seq(vstd::utf8::encode_utf8(s@));
    }
    byte_range(s, 0, end).to_string()
}

/// The receipt reference of a member's payment order (at most 40 bytes).
pub fn build_member_order_receipt_reference(brand: &str, member_id: &str, timestamp: u64) -> (r: String)
    requires
        cut_ok(member_id@, 8),
        cut_ok(member_order_raw(brand@, member_id@, timestamp as nat), 40),
    ensures
        r@ == head_bytes(member_order_raw(brand@, member_id@, timestamp as nat), 40),
{
    let prefix = head_string(member_id, 8);
    let mut raw = brand.to_string();
    push_char(&mut raw, '-');
    raw.append(prefix.as_str());
    push_char(&mut raw, '-');
    push_decimal(&mut raw, timestamp);
    assert(raw@ =~= member_order_raw(brand@, member_id@, timestamp as nat));
    head_string(raw.as_str(), 40)
}

/// The receipt reference of a sponsor's payment order (at most 40 bytes).
pub fn build_sponsor_order_receipt_reference(brand: &str, token: &str, timestamp: u64) -> (r: String)
    requires
        cut_ok(token@, 8),
        cut_ok(sponsor_order_raw(brand@, token@, timestamp as nat), 40),
    ensures
        r@ == head_bytes(sponsor_order_raw(brand@, token@, timestamp as nat), 40),
{
    let prefix = head_string(token, 8);
    let mut raw = brand.to_string();
    push_char(&mut raw, '-');
    push_char(&mut raw, 'S');
    push_char(&mut raw, 'P');
    push_char(&mut raw, '-');
    raw.append(prefix.as_str());
    push_char(&mut raw, '-');
    push_decimal(&mut raw, timestamp);
    assert(raw@ =~= sponsor_order_raw(brand@, token@, timestamp as nat));
    head_string(raw.as_str(), 40)
}

/// The bytes `4..12` of a payment ID (fewer when it is shorter).
pub open spec fn payment_segment(payment_id: Seq<char>) -> Seq<char> {
    let end = min_int(byte_len(payment_id), 12);
    byte_slice(payment_id, min_int(4, end), end)
}

/// Fallback receipt reference from a payment ID: `BRAND-PAY-` and the
/// upper-cased bytes `4..12` of the ID.
pub fn build_sponsor_payment_fallback_receipt(brand: &str, payment_id: &str) -> (r: String)
    requires
        cut_ok(payment_id@, 12),
        boundary(payment_id@, min_int(4, min_int(byte_len(payment_id@), 12))),
    ensures
        r@ == brand@ + seq!['-', 'P', 'A', 'Y', '-'] + unicode_upper(payment_segment(payment_id@)),
{
    let len = str_byte_len(payment_id);
    let end = if len <= 12 { len } else { 12 };
    let start = if 4 <= end { 4 } else { end };
    let segment = byte_range(payment_id, start, end);
    let upper = to_upper(segment);
    let mut r = brand.to_string();
    push_char(&mut r, '-');
    push_char(&mut r, 'P');
    push_char(&mut r, 'A');
    push_char(&mut r, 'Y');
    push_char(&mut r, '-');
    r.append(upper.as_str());
    assert(r@ =~= brand@ + seq!['-', 'P', 'A', 'Y', '-'] + unicode_upper(payment_segment(payment_id@)));
    r
}

// ---------------------------------------------------------------------------
// Sub-member slots
// ---------------------------------------------------------------------------

/// The slot a sub-member ID claims: its last `-`-separated part, read as a
/// number.
pub open spec fn claimed_slot(member_id: Seq<char>) -> Option<u32> {
    parse_u32(split_on(member_id, '-').last())
}

/// Whether some ID in `ids` claims slot `i`.
pub open spec fn slot_used(ids: Seq<Seq<char>>, i: u32) -> bool {
    exists|k: int| 0 <= k < ids.len() && claimed_slot(ids[k]) == Some(i)
}

fn claimed_slot_of(member_id: &String) -> (r: Option<u32>)
    ensures
        r == claimed_slot(member_id@),
{
    let parts = split_chars(&chars_of(member_id.as_str()), '-');
    proof {
        crate::text::lemma_split_nonempty(member_id@, '-');
    }
    let last = parts.len() - 1;
    assert(views(parts@)[last as int] == parts@[last as int]@);
    parse_u32_chars(&parts[last])
}

/// The first of slots 1 to 3 that no ID in `ids` claims.
pub open spec fn first_free_slot(ids: Seq<Seq<char>>) -> Option<u32> {
    if !slot_used(ids, 1) {
        Some(1)
    } else if !slot_used(ids, 2) {
        Some(2)
    } else if !slot_used(ids, 3) {
        Some(3)
    } else {
        None
    }
}

/// The first of slots 1 to 3 that no existing sub-member ID claims.
pub fn first_free_sub_member_slot(existing_ids: &Vec<String>) -> (r: Option<u32>)
    ensures
        r == first_free_slot(string_views(existing_ids@)),
{
    let ghost ids = string_views(existing_ids@);
    let mut used1 = false;
    let mut used2 = false;
    let mut used3 = false;
    let mut k: usize = 0;
    while k < existing_ids.len()
        invariant
            ids == string_views(existing_ids@),
            0 <= k <= existing_ids@.len(),
            used1 == exists|m: int| 0 <= m < k && claimed_slot(ids[m]) == Some(1u32),
            used2 == exists|m: int| 0 <= m < k && claimed_slot(ids[m]) == Some(2u32),
            used3 == exists|m: int| 0 <= m < k && claimed_slot(ids[m]) == Some(3u32),
        decreases existing_ids.len() - k,
    {
        let slot = claimed_slot_of(&existing_ids[k]);
        assert(ids[k as int] == existing_ids@[k as int]@);
        match slot {
            Some(1) => { used1 = true; },
            Some(2) => { used2 = true; },
            Some(3) => { used3 = true; },
            _ => {},
        }
        k = k + 1;
    }
    if !used1 {
        Some(1)
    } else if !used2 {
        Some(2)
    } else if !used3 {
        Some(3)
    } else {
        None
    }
}

} // verus!
