//! Server-side validation of API inputs.

use vstd::prelude::*;
use crate::text::string_views;
use vstd::utf8::is_ascii_chars;
use crate::text::{
    all_digits, byte_len, char_is_control, char_is_digit, digits_from, char_is_upper, chars_of, contains_char,
    decimal, is_control, is_digit, is_upper, push_char, push_decimal, str_byte_len, str_eq,
    string_from_chars, to_lower, trim_chars, trimmed, unicode_lower,
};

verus! {

broadcast use vstd::string::group_string_axioms;

// ---------------------------------------------------------------------------
// String sanitization
// ---------------------------------------------------------------------------

pub open spec fn not_control(c: char) -> bool {
    !is_control(c)
}

/// `s` trimmed, without ASCII control characters.
pub open spec fn sanitized(s: Seq<char>) -> Seq<char> {
    trimmed(s).filter(|c: char| not_control(c))
}

/// Trims white space and strips ASCII control characters (0x00-0x1F, 0x7F).
pub fn sanitize_string(input: &str) -> (r: String)
    ensures
        r@ == sanitized(input@),
{
    let t = trim_chars(&chars_of(input));
    let mut out: Vec<char> = Vec::new();
    let mut i: usize = 0;
    while i < t.len()
        invariant
            0 <= i <= t@.len(),
            out@ == t@.subrange(0, i as int).filter(|c: char| not_control(c)),
        decreases t.len() - i,
    {
        let c = t[i];
        proof {
            reveal(Seq::filter);
            assert(t@.subrange(0, i + 1).drop_last() == t@.subrange(0, i as int));
        }
        if !char_is_control(c) {
            out.push(c);
        }
        i = i + 1;
    }
    assert(t@.subrange(0, t@.len() as int) == t@);
    string_from_chars(&out)
}

// ---------------------------------------------------------------------------
// Field validators
// ---------------------------------------------------------------------------

/// `+91` followed by ten digits, thirteen bytes in all.
pub open spec fn phone_ok(p: Seq<char>) -> bool {
    byte_len(p) == 13 && p.len() >= 3 && p.subrange(0, 3) == seq!['+', '9', '1']
        && all_digits(p.subrange(3, p.len() as int))
}

/// Validates an Indian phone number in `+91XXXXXXXXXX` form.
pub fn validate_phone(phone: &str) -> (r: Result<(), String>)
    ensures
        r is Ok <==> phone_ok(phone@),
        r matches Err(e) ==> e@ == "Phone must be in +91XXXXXXXXXX format"@,
{
    let p = chars_of(phone);
    let ok = str_byte_len(phone) == 13 && p.len() >= 3 && p[0] == '+' && p[1] == '9' && p[2] == '1'
        && digits_from(&p, 3);
    proof {
        if p@.len() >= 3 {
            assert(p@.subrange(0, 3) =~= seq![p@[0], p@[1], p@[2]]);
        }
    }
    if !ok {
        return Err("Phone must be in +91XXXXXXXXXX format".to_string());
    }
    Ok(())
}

/// The index of the first `@` in `s`, when there is one.
pub open spec fn first_at(s: Seq<char>, i: int) -> bool {
    0 <= i < s.len() && s[i] == '@' && forall|j: int| 0 <= j < i ==> s[j] != '@'
}

/// Exactly one `@`, with a non-empty local part before it, a non-empty
/// domain after it, and a `.` in the domain.
pub open spec fn email_ok(s: Seq<char>) -> bool {
    exists|i: int| first_at(s, i) && i > 0 && i + 1 < s.len()
        && #[trigger] s.subrange(i + 1, s.len() as int).contains('.')
        && !s.subrange(i + 1, s.len() as int).contains('@')
}

/// Validates an e-mail address (basic format check).
pub fn validate_email(email: &str) -> (r: Result<(), String>)
    ensures
        r is Ok <==> email_ok(email@),
        r matches Err(e) ==> e@ == "Must be a valid email address"@,
{
    let s = chars_of(email);
    let mut i: usize = 0;
    while i < s.len() && s[i] != '@'
        invariant
            0 <= i <= s@.len(),
            forall|j: int| 0 <= j < i ==> s@[j] != '@',
        decreases s.len() - i,
    {
        i = i + 1;
    }
    if i == s.len() || i == 0 || i + 1 == s.len() {
        proof {
            if email_ok(s@) {
                let k = choose|k: int| first_at(s@, k) && k > 0 && k + 1 < s@.len()
                    && #[trigger] s@.subrange(k + 1, s@.len() as int).contains('.');
                if k < i {
                } else if k > i {
                    assert(s@[i as int] != '@');
                }
            }
        }
        return Err("Must be a valid email address".to_string());
    }
    let mut domain: Vec<char> = Vec::new();
    let mut k: usize = i + 1;
    while k < s.len()
        invariant
            i + 1 <= k <= s@.len(),
            domain@ == s@.subrange(i + 1, k as int),
        decreases s.len() - k,
    {
        domain.push(s[k]);
        assert(s@.subrange(i + 1, k + 1) == s@.subrange(i + 1, k as int).push(s@[k as int]));
        k = k + 1;
    }
    let has_dot = contains_char(&domain, '.');
    let second_at = contains_char(&domain, '@');
    proof {
        assert(first_at(s@, i as int));
        if email_ok(s@) {
            let k2 = choose|k2: int| first_at(s@, k2) && k2 > 0 && k2 + 1 < s@.len()
                && #[trigger] s@.subrange(k2 + 1, s@.len() as int).contains('.')
                && !s@.subrange(k2 + 1, s@.len() as int).contains('@');
            if k2 < i {
            } else if k2 > i {
                assert(s@[i as int] != '@');
            }
        }
    }
    if !has_dot || second_at {
        return Err("Must be a valid email address".to_string());
    }
    Ok(())
}

/// Validates a name: non-empty and at most 255 bytes.
pub fn validate_name(name: &str) -> (r: Result<(), String>)
    ensures
        name@.len() == 0 ==> (r matches Err(e) && e@ == "Name is required"@),
        name@.len() > 0 && byte_len(name@) > 255 ==> (r matches Err(e)
            && e@ == "Name must be 255 characters or less"@),
        name@.len() > 0 && byte_len(name@) <= 255 ==> r is Ok,
{
    if name.is_empty() {
        return Err("Name is required".to_string());
    }
    if str_byte_len(name) > 255 {
        return Err("Name must be 255 characters or less".to_string());
    }
    Ok(())
}

/// `<field> is required`
pub open spec fn required_message(field: Seq<char>) -> Seq<char> {
    field + " is required"@
}

/// `<field> must be <max> characters or less`
pub open spec fn too_long_message(field: Seq<char>, max_len: nat) -> Seq<char> {
    field + " must be "@ + decimal(max_len) + " characters or less"@
}

fn too_long(field_name: &str, max_len: usize) -> (e: String)
    ensures
        e@ == too_long_message(field_name@, max_len as nat),
{
    let mut e = field_name.to_string();
    e.append(" must be ");
    push_decimal(&mut e, max_len as u64);
    e.append(" characters or less");
    e
}

/// Validates a required string: non-empty, at most `max_len` bytes.
pub fn validate_required_string(value: &str, field_name: &str, max_len: usize) -> (r: Result<(), String>)
    ensures
        value@.len() == 0 ==> (r matches Err(e) && e@ == required_message(field_name@)),
        value@.len() > 0 && byte_len(value@) > max_len ==> (r matches Err(e)
            && e@ == too_long_message(field_name@, max_len as nat)),
        value@.len() > 0 && byte_len(value@) <= max_len ==> r is Ok,
{
    if value.is_empty() {
        let mut e = field_name.to_string();
        e.append(" is required");
        return Err(e);
    }
    if str_byte_len(value) > max_len {
        return Err(too_long(field_name, max_len));
    }
    Ok(())
}

/// Validates an optional string: at most `max_len` bytes when present.
pub fn validate_optional_string(value: Option<&str>, field_name: &str, max_len: usize) -> (r: Result<(), String>)
    ensures
        match value {
            Some(v) => if byte_len(v@) > max_len {
                r matches Err(e) && e@ == too_long_message(field_name@, max_len as nat)
            } else {
                r is Ok
            },
            None => r is Ok,
        },
{
    if let Some(v) = value {
        if str_byte_len(v) > max_len {
            return Err(too_long(field_name, max_len));
        }
    }
    Ok(())
}

// ---------------------------------------------------------------------------
// Enum validators
// ---------------------------------------------------------------------------

/// Valid transaction types.
pub const TRANSACTION_TYPES: [&'static str; 2] = ["CASH_IN", "CASH_OUT"];

/// Valid transaction categories.
pub const TRANSACTION_CATEGORIES: [&'static str; 4] = ["MEMBERSHIP", "SPONSORSHIP", "EXPENSE", "OTHER"];

/// Valid payment modes.
pub const PAYMENT_MODES: [&'static str; 3] = ["UPI", "BANK_TRANSFER", "CASH"];

/// Valid sponsor purposes.
pub const SPONSOR_PURPOSES: [&'static str; 8] = [
    "TITLE_SPONSOR",
    "GOLD_SPONSOR",
    "SILVER_SPONSOR",
    "FOOD_PARTNER",
    "MEDIA_PARTNER",
    "STALL_VENDOR",
    "MARKETING_PARTNER",
    "OTHER",
];

/// Valid expense purposes.
pub const EXPENSE_PURPOSES: [&'static str; 12] = [
    "DECORATION_PANDAL",
    "IDOL_MURTI",
    "LIGHTING_SOUND",
    "FOOD_BHOG_PRASAD",
    "PRIEST_PUROHIT",
    "TRANSPORT_LOGISTICS",
    "PRINTING_PUBLICITY",
    "CULTURAL_PROGRAM",
    "CLEANING_SANITATION",
    "ELECTRICITY_GENERATOR",
    "SECURITY",
    "OTHER",
];

/// Valid approval statuses.
pub const APPROVAL_STATUSES: [&'static str; 3] = ["PENDING", "APPROVED", "REJECTED"];

/// Valid membership types.
pub const MEMBERSHIP_TYPES: [&'static str; 3] = ["MONTHLY", "HALF_YEARLY", "ANNUAL"];

/// Valid member statuses.
pub const MEMBER_STATUSES: [&'static str; 5] = [
    "PENDING_APPROVAL",
    "PENDING_PAYMENT",
    "ACTIVE",
    "EXPIRED",
    "SUSPENDED",
];

/// The parts joined with `sep` between them.
pub open spec fn join(parts: Seq<Seq<char>>, sep: Seq<char>) -> Seq<char>
    decreases parts.len(),
{
    if parts.len() == 0 {
        Seq::<char>::empty()
    } else if parts.len() == 1 {
        parts[0]
    } else {
        join(parts.drop_last(), sep) + sep + parts.last()
    }
}

/// The texts of a list of string slices.
pub open spec fn str_views(v: Seq<&str>) -> Seq<Seq<char>> {
    v.map_values(|s: &str| s@)
}

/// `allowed.join(", ")`
pub fn join_strs(allowed: &[&str], sep: &str) -> (r: String)
    ensures
        r@ == join(str_views(allowed@), sep@),
{
    let mut r = String::new();
    let mut i: usize = 0;
    while i < allowed.len()
        invariant
            0 <= i <= allowed@.len(),
            r@ == join(str_views(allowed@.subrange(0, i as int)), sep@),
        decreases allowed.len() - i,
    {
        let ghost pre = str_views(allowed@.subrange(0, i as int));
        let ghost next = str_views(allowed@.subrange(0, i + 1));
        assert(next.drop_last() =~= pre);
        assert(next.last() == allowed@[i as int]@);
        if i > 0 {
            r.append(sep);
        } else {
            assert(next.len() == 1);
        }
        r.append(allowed[i]);
        i = i + 1;
    }
    assert(allowed@.subrange(0, allowed@.len() as int) == allowed@);
    r
}

/// `<field> must be one of: A, B, ...`
pub open spec fn enum_message(field: Seq<char>, allowed: Seq<&str>) -> Seq<char> {
    field + " must be one of: "@ + join(str_views(allowed), ", "@)
}

/// Validates that `value` is one of `allowed`.
pub fn validate_enum(value: &str, allowed: &[&str], field_name: &str) -> (r: Result<(), String>)
    ensures
        r is Ok <==> str_views(allowed@).contains(value@),
        r matches Err(e) ==> e@ == enum_message(field_name@, allowed@),
{
    let mut i: usize = 0;
    while i < allowed.len()
        invariant
            0 <= i <= allowed@.len(),
            forall|j: int| 0 <= j < i ==> allowed@[j]@ != value@,
        decreases allowed.len() - i,
    {
        if str_eq(allowed[i], value) {
            assert(str_views(allowed@)[i as int] == value@);
            return Ok(());
        }
        i = i + 1;
    }
    assert(!str_views(allowed@).contains(value@)) by {
        if str_views(allowed@).contains(value@) {
            let k = choose|k: int| 0 <= k < str_views(allowed@).len() && str_views(allowed@)[k] == value@;
            assert(allowed@[k]@ == value@);
        }
    }
    let mut e = field_name.to_string();
    e.append(" must be one of: ");
    let j = join_strs(allowed, ", ");
    e.append(j.as_str());
    Err(e)
}

// ---------------------------------------------------------------------------
// Password validation
// ---------------------------------------------------------------------------

/// Common weak passwords that are refused.
pub open spec fn common_password_list() -> Seq<Seq<char>> {
    seq![
        "password"@, "password1"@, "password123"@, "12345678"@, "123456789"@,
        "1234567890"@, "qwerty123"@, "qwertyuiop"@, "admin1234"@, "letmein1"@,
        "welcome1"@, "monkey123"@, "abc12345"@, "iloveyou1"@, "sunshine1"@,
    ]
}

/// The list of common passwords.
pub fn common_passwords() -> (v: Vec<&'static str>)
    ensures
        str_views(v@) == common_password_list(),
{
    let v = vec![
        "password", "password1", "password123", "12345678", "123456789",
        "1234567890", "qwerty123", "qwertyuiop", "admin1234", "letmein1",
        "welcome1", "monkey123", "abc12345", "iloveyou1", "sunshine1",
    ];
    assert(str_views(v@) =~= common_password_list());
    v
}

/// The errors of a password change, in the order they are reported.
pub open spec fn password_errors(current: Seq<char>, new: Seq<char>) -> Seq<Seq<char>> {
    let e0 = Seq::<Seq<char>>::empty();
    let e1 = if byte_len(current) < 8 { e0.push("Current password must be at least 8 characters"@) } else { e0 };
    let e2 = if byte_len(new) < 8 { e1.push("New password must be at least 8 characters"@) } else { e1 };
    let e3 = if byte_len(new) > 128 { e2.push("New password must be 128 characters or less"@) } else { e2 };
    let e4 = if common_password_list().contains(unicode_lower(new)) {
        e3.push("This password is too common \u{2014} please choose a stronger password"@)
    } else {
        e3
    };
    if current == new { e4.push("New password must be different from current password"@) } else { e4 }
}

fn push_message(errors: &mut Vec<String>, m: &str)
    ensures
        string_views(final(errors)@) == string_views(old(errors)@).push(m@),
{
    errors.push(m.to_string());
    assert(string_views(errors@) =~= string_views(old(errors)@).push(m@));
}

/// Validates a password change: at least 8 and at most 128 bytes, not a
/// common password, and different from the current one.
pub fn validate_password_change(current_password: &str, new_password: &str) -> (r: Result<(), Vec<String>>)
    ensures
        r is Ok <==> password_errors(current_password@, new_password@).len() == 0,
        r matches Err(v) ==> string_views(v@) == password_errors(current_password@, new_password@),
{
    let mut errors: Vec<String> = Vec::new();
    assert(string_views(errors@) =~= Seq::<Seq<char>>::empty());
    if str_byte_len(current_password) < 8 {
        push_message(&mut errors, "Current password must be at least 8 characters");
    }
    if str_byte_len(new_password) < 8 {
        push_message(&mut errors, "New password must be at least 8 characters");
    }
    if str_byte_len(new_password) > 128 {
        push_message(&mut errors, "New password must be 128 characters or less");
    }
    let lower = to_lower(new_password);
    let common = common_passwords();
    let mut found = false;
    let mut i: usize = 0;
    while i < common.len()
        invariant
            str_views(common@) == common_password_list(),
            lower@ == unicode_lower(new_password@),
            0 <= i <= common@.len(),
            found == (exists|j: int| 0 <= j < i && common@[j]@ == lower@),
        decreases common.len() - i,
    {
        if str_eq(common[i], lower.as_str()) {
            found = true;
        }
        i = i + 1;
    }
    assert(found == common_password_list().contains(unicode_lower(new_password@))) by {
        if found {
            let j = choose|j: int| 0 <= j < common@.len() && common@[j]@ == lower@;
            assert(str_views(common@)[j] == lower@);
        }
        if common_password_list().contains(unicode_lower(new_password@)) {
            let j = choose|j: int| 0 <= j < common_password_list().len() && common_password_list()[j] == unicode_lower(new_password@);
            assert(common@[j]@ == str_views(common@)[j]);
        }
    }
    if found {
        push_message(&mut errors, "This password is too common \u{2014} please choose a stronger password");
    }
    if str_eq(current_password, new_password) {
        push_message(&mut errors, "New password must be different from current password");
    }
    if errors.len() == 0 {
        Ok(())
    } else {
        Err(errors)
    }
}

// ---------------------------------------------------------------------------
// IFSC codes
// ---------------------------------------------------------------------------

pub open spec fn is_upper_or_digit(c: char) -> bool {
    is_upper(c) || is_digit(c)
}

/// Eleven bytes: four upper-case letters, `0`, then six upper-case letters
/// or digits.
pub open spec fn ifsc_ok(s: Seq<char>) -> bool {
    byte_len(s) == 11 && s.len() >= 5
        && (forall|i: int| 0 <= i < 4 ==> is_upper(#[trigger] s[i]))
        && s[4] == '0'
        && (forall|i: int| 5 <= i < s.len() ==> is_upper_or_digit(#[trigger] s[i]))
}

/// Validates an IFSC code (`XXXX0XXXXXX`).
pub fn validate_ifsc(code: &str) -> (r: Result<(), String>)
    requires
        byte_len(code@) == 11 ==> code@.len() >= 4,
    ensures
        r is Ok <==> ifsc_ok(code@),
        r matches Err(e) ==> e@ == "ifscCode must be in XXXX0XXXXXX format"@,
{
    if str_byte_len(code) != 11 {
        return Err("ifscCode must be in XXXX0XXXXXX format".to_string());
    }
    let c = chars_of(code);
    let mut valid = true;
    let mut i: usize = 0;
    while i < 4
        invariant
            c@ == code@,
            c@.len() >= 4,
            0 <= i <= 4,
            valid == (forall|j: int| 0 <= j < i ==> is_upper(#[trigger] c@[j])),
        decreases 4 - i,
    {
        if !char_is_upper(c[i]) {
            valid = false;
        }
        i = i + 1;
    }
    if valid {
        if c.len() < 5 || c[4] != '0' {
            valid = false;
        } else {
            let mut k: usize = 5;
            while k < c.len()
                invariant
                    5 <= k <= c@.len(),
                    valid == (forall|j: int| 5 <= j < k ==> is_upper_or_digit(#[trigger] c@[j])),
                decreases c.len() - k,
            {
                if !(char_is_upper(c[k]) || char_is_digit(c[k])) {
                    valid = false;
                }
                k = k + 1;
            }
        }
    }
    if !valid {
        return Err("ifscCode must be in XXXX0XXXXXX format".to_string());
    }
    Ok(())
}

// ---------------------------------------------------------------------------
// Pagination
// ---------------------------------------------------------------------------

/// Parsed and validated pagination parameters.
#[derive(Debug, Clone, Copy)]
pub struct Pagination {
    pub page: u32,
    pub limit: u32,
    pub offset: u32,
}

pub open spec fn page_of(page: Option<u32>) -> u32 {
    match page {
        Some(p) => if p >= 1 { p } else { 1 },
        None => 1,
    }
}

pub open spec fn limit_of(limit: Option<u32>) -> u32 {
    match limit {
        Some(l) => if l < 1 { 1 } else if l > 100 { 100 } else { l },
        None => 20,
    }
}

/// Pagination from query parameters: page defaults to 1 (at least 1), limit
/// to 20 (kept within 1..=100), and the offset of the page's first row.
pub fn validate_pagination(page: Option<u32>, limit: Option<u32>) -> (p: Pagination)
    requires
        (page_of(page) - 1) * limit_of(limit) <= u32::MAX,
    ensures
        p.page == page_of(page),
        p.limit == limit_of(limit),
        p.offset == (p.page - 1) * p.limit,
{
    let page = match page {
        Some(p) => if p >= 1 { p } else { 1 },
        None => 1,
    };
    let limit = match limit {
        Some(l) => if l < 1 { 1 } else if l > 100 { 100 } else { l },
        None => 20,
    };
    let offset = (page - 1) * limit;
    Pagination { page, limit, offset }
}

/// Validates that `value` is a UUID.
pub fn validate_uuid(value: &str, field_name: &str) -> (r: Result<(), String>)
    ensures
        r is Ok <==> crate::crypto::uuid_parses(value@),
        r matches Err(e) ==> e@ == field_name@ + " must be a valid UUID"@,
{
    if crate::crypto::uuid_valid(value) {
        Ok(())
    } else {
        let mut e = field_name.to_string();
        e.append(" must be a valid UUID");
        Err(e)
    }
}

} // verus!
