//! WhatsApp messaging: phone number normalisation, configuration and the
//! address and language of template messages.

use vstd::prelude::*;
use crate::text::{char_is_digit, chars_of, is_digit, push_char, string_from_chars, string_from_range};

verus! {

broadcast use vstd::string::group_string_axioms;

pub open spec fn phone_char(c: char) -> bool {
    is_digit(c) || c == '+'
}

/// The digits and `+` signs of `s`, in order.
pub open spec fn phone_chars(s: Seq<char>) -> Seq<char> {
    s.filter(|c: char| phone_char(c))
}

/// Number of leading `+` characters.
pub open spec fn lead_plus(s: Seq<char>) -> nat
    decreases s.len(),
{
    if s.len() > 0 && s[0] == '+' { 1 + lead_plus(s.drop_first()) } else { 0 }
}

/// The number in E.164 form: digits and `+` kept; ten digits get `+91`,
/// twelve digits starting `91` get `+`; anything else keeps or gains a
/// leading `+`.
pub open spec fn indian_phone_spec(phone: Seq<char>) -> Seq<char> {
    e164_of(phone_chars(phone))
}

/// The E.164 form of `st`, the digits and `+` signs of a number.
pub open spec fn e164_of(st: Seq<char>) -> Seq<char> {
    let d = st.subrange(lead_plus(st) as int, st.len() as int);
    if d.len() == 12 && d[0] == '9' && d[1] == '1' {
        seq!['+'] + d
    } else if d.len() == 10 {
        seq!['+', '9', '1'] + d
    } else if st.len() > 0 && st[0] == '+' {
        st
    } else {
        seq!['+'] + st
    }
}

proof fn lemma_lead_plus(s: Seq<char>, k: int)
    requires
        0 <= k <= s.len(),
        forall|j: int| 0 <= j < k ==> s[j] == '+',
        k == s.len() || s[k] != '+',
    ensures
        lead_plus(s) == k,
    decreases k,
{
    if k > 0 {
        lemma_lead_plus(s.drop_first(), k - 1);
    }
}

proof fn lemma_lead_plus_bounds(s: Seq<char>)
    ensures
        lead_plus(s) <= s.len(),
        forall|j: int| 0 <= j < lead_plus(s) ==> s[j] == '+',
        lead_plus(s) < s.len() ==> s[lead_plus(s) as int] != '+',
    decreases s.len(),
{
    if s.len() > 0 && s[0] == '+' {
        let t = s.drop_first();
        lemma_lead_plus_bounds(t);
        assert forall|j: int| 0 <= j < lead_plus(s) implies s[j] == '+' by {
            if j > 0 {
                assert(s[j] == t[j - 1]);
            }
        }
    }
}

proof fn lemma_filter_keeps_phone_chars(s: Seq<char>)
    requires
        forall|i: int| 0 <= i < s.len() ==> phone_char(#[trigger] s[i]),
    ensures
        phone_chars(s) == s,
    decreases s.len(),
{
    reveal(Seq::filter);
    if s.len() > 0 {
        lemma_filter_keeps_phone_chars(s.drop_last());
        assert(s.drop_last().push(s.last()) =~= s);
    }
}

pub open spec fn all_phone_chars(s: Seq<char>) -> bool {
    forall|i: int| 0 <= i < s.len() ==> phone_char(#[trigger] s[i])
}

proof fn lemma_e164_chars(st: Seq<char>)
    requires
        all_phone_chars(st),
    ensures
        e164_of(st).len() > 0,
        e164_of(st)[0] == '+',
        all_phone_chars(e164_of(st)),
{
    lemma_lead_plus_bounds(st);
    let k = lead_plus(st);
    let d = st.subrange(k as int, st.len() as int);
    let r = e164_of(st);
    assert forall|i: int| 0 <= i < r.len() implies phone_char(#[trigger] r[i]) by {
        if d.len() == 12 && d[0] == '9' && d[1] == '1' {
            if i > 0 { assert(r[i] == d[i - 1]); assert(d[i - 1] == st[i - 1 + k]); }
        } else if d.len() == 10 {
            if i > 2 { assert(r[i] == d[i - 3]); assert(d[i - 3] == st[i - 3 + k]); }
        } else if st.len() > 0 && st[0] == '+' {
        } else {
            if i > 0 { assert(r[i] == st[i - 1]); }
        }
    }
}

proof fn lemma_e164_fixed(st: Seq<char>)
    requires
        all_phone_chars(st),
    ensures
        e164_of(e164_of(st)) == e164_of(st),
{
    lemma_lead_plus_bounds(st);
    let k = lead_plus(st);
    let d = st.subrange(k as int, st.len() as int);
    let r = e164_of(st);
    assert(d.len() > 0 ==> d[0] != '+');
    if d.len() == 12 && d[0] == '9' && d[1] == '1' {
        assert(r.drop_first() =~= d);
        assert(lead_plus(d) == 0);
        assert(lead_plus(r) == 1);
        assert(r.subrange(1, r.len() as int) =~= d);
    } else if d.len() == 10 {
        let e = seq!['9', '1'] + d;
        assert(r.drop_first() =~= e);
        assert(e[0] == '9');
        assert(lead_plus(e) == 0);
        assert(lead_plus(r) == 1);
        assert(r.subrange(1, r.len() as int) =~= e);
    } else if st.len() > 0 && st[0] == '+' {
    } else {
        assert(k == 0);
        assert(r.drop_first() =~= st);
        assert(lead_plus(st) == 0);
        assert(lead_plus(r) == 1);
        assert(r.subrange(1, r.len() as int) =~= st);
        assert(d =~= st);
    }
}

/// A normalised number starts with `+`, holds only digits and `+`, and is
/// left unchanged by normalising it again.
pub proof fn lemma_indian_phone_normal(phone: Seq<char>)
    ensures
        indian_phone_spec(phone).len() > 0,
        indian_phone_spec(phone)[0] == '+',
        forall|i: int| 0 <= i < indian_phone_spec(phone).len() ==> phone_char(#[trigger] indian_phone_spec(phone)[i]),
        indian_phone_spec(indian_phone_spec(phone)) == indian_phone_spec(phone),
{
    let st = phone_chars(phone);
    assert forall|i: int| 0 <= i < st.len() implies phone_char(#[trigger] st[i]) by {
        phone.lemma_filter_pred(|c: char| phone_char(c), i);
    }
    lemma_e164_chars(st);
    let r = e164_of(st);
    lemma_filter_keeps_phone_chars(r);
    lemma_e164_fixed(st);
}

/// Normalises a phone number to E.164 with the `+91` country code.
pub fn format_indian_phone(phone: &str) -> (r: String)
    ensures
        r@ == indian_phone_spec(phone@),
{
    let p = chars_of(phone);
    let mut st: Vec<char> = Vec::new();
    let mut i: usize = 0;
    while i < p.len()
        invariant
            0 <= i <= p@.len(),
            st@ == phone_chars(p@.subrange(0, i as int)),
        decreases p.len() - i,
    {
        proof {
            reveal(Seq::filter);
            assert(p@.subrange(0, i + 1).drop_last() == p@.subrange(0, i as int));
        }
        let c = p[i];
        if char_is_digit(c) || c == '+' {
            st.push(c);
        }
        i = i + 1;
    }
    assert(p@.subrange(0, p@.len() as int) == p@);
    let mut k: usize = 0;
    while k < st.len() && st[k] == '+'
        invariant
            0 <= k <= st@.len(),
            forall|j: int| 0 <= j < k ==> st@[j] == '+',
        decreases st.len() - k,
    {
        k = k + 1;
    }
    proof {
        lemma_lead_plus(st@, k as int);
    }
    let n = st.len() - k;
    let digits = string_from_range(&st, k, st.len());
    if n == 12 && st[k] == '9' && st[k + 1] == '1' {
        let mut r = String::new();
        push_char(&mut r, '+');
        r.append(digits.as_str());
        return r;
    }
    if n == 10 {
        let mut r = String::new();
        push_char(&mut r, '+');
        push_char(&mut r, '9');
        push_char(&mut r, '1');
        r.append(digits.as_str());
        assert(r@ =~= seq!['+', '9', '1'] + digits@);
        return r;
    }
    if st.len() > 0 && st[0] == '+' {
        string_from_chars(&st)
    } else {
        let mut r = String::new();
        push_char(&mut r, '+');
        let all = string_from_chars(&st);
        r.append(all.as_str());
        r
    }
}

/// What sending one WhatsApp message came to.
#[derive(Debug, Clone)]
pub struct WhatsAppSendResult {
    pub success: bool,
    pub message_id: Option<String>,
    pub error: Option<String>,
}

/// The Graph API the messages are sent through.
pub const GRAPH_API_BASE: &'static str = "https://graph.facebook.com/v18.0";

/// WhatsApp is configured when both the API token and the sender's phone
/// number id are set and not empty.
pub fn whatsapp_configured(token: Option<&str>, phone_number_id: Option<&str>) -> (b: bool)
    ensures
        b == ((token matches Some(t) && t@.len() > 0) && (phone_number_id matches Some(p) && p@.len() > 0)),
{
    let t = match token {
        Some(t) => t.unicode_len() > 0,
        None => false,
    };
    let p = match phone_number_id {
        Some(p) => p.unicode_len() > 0,
        None => false,
    };
    t && p
}

/// The address messages are posted to.
pub fn messages_url(phone_number_id: &str) -> (r: String)
    ensures
        r@ == GRAPH_API_BASE@ + "/"@ + phone_number_id@ + "/messages"@,
{
    let mut r = GRAPH_API_BASE.to_string();
    r.append("/");
    r.append(phone_number_id);
    r.append("/messages");
    r
}

/// The template language: the one given, English otherwise.
pub fn template_language(language_code: Option<&str>) -> (r: &str)
    ensures
        r@ == match language_code {
            Some(c) => c@,
            None => "en"@,
        },
{
    match language_code {
        Some(c) => c,
        None => "en",
    }
}

} // verus!
