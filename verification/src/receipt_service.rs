//! Receipt decisions: receipt numbering, and the purpose and breakdown a
//! member's or sponsor's receipt records.
//!
//! Receipt numbers run `BSDS-REC-<year>-0001`, `-0002`, ... within a year.

use vstd::prelude::*;
use crate::member_id::{receipt_number_prefix, receipt_number_prefix_spec};
use crate::membership_rules::{fee_of, membership_fee, membership_type_of_label, MembershipType, ANNUAL_MEMBERSHIP_FEE, APPLICATION_FEE};
use crate::receipt::{sponsor_purpose_label, sponsor_purpose_label_spec, subscription_label};
use crate::text::{
    chars_of, decimal, lemma_decimal_digits, lemma_split_concat, lemma_split_no_sep, lemma_split_nonempty, lemma_zero_padded,
    parse_u32, parse_u32_chars, split_chars, split_on, views, zero_padded, zero_padded_string,
};
use crate::validation::join;

verus! {

broadcast use vstd::string::group_string_axioms;

/// The counter at the end of a receipt number: its last `-`-separated part
/// read as a number, 0 when there is no number or it does not read.
pub open spec fn receipt_counter(last: Option<Seq<char>>) -> nat {
    match last {
        Some(s) => match parse_u32(split_on(s, '-').last()) {
            Some(n) => n as nat,
            None => 0,
        },
        None => 0,
    }
}

/// The receipt number after `last` (the year's highest so far, if any).
pub open spec fn next_receipt_number_spec(year: nat, last: Option<Seq<char>>) -> Seq<char> {
    receipt_number_prefix_spec("BSDS"@, year) + zero_padded(receipt_counter(last) + 1, 4)
}

fn counter_of(last: &str) -> (r: u32)
    ensures
        r == receipt_counter(Some(last@)),
{
    let parts = split_chars(&chars_of(last), '-');
    proof {
        lemma_split_nonempty(last@, '-');
    }
    let k = parts.len() - 1;
    assert(views(parts@)[k as int] == parts@[k as int]@);
    match parse_u32_chars(&parts[k]) {
        Some(n) => n,
        None => 0,
    }
}

/// The next receipt number of `year`, after `last`, the highest number of
/// that year so far.
pub fn next_receipt_number(year: u32, last: Option<&str>) -> (r: String)
    requires
        receipt_counter(match last { Some(s) => Some(s@), None => None }) < u32::MAX,
    ensures
        r@ == next_receipt_number_spec(year as nat, match last { Some(s) => Some(s@), None => None }),
{
    let counter: u32 = match last {
        Some(s) => counter_of(s),
        None => 0,
    };
    let mut r = receipt_number_prefix("BSDS", year);
    let n = zero_padded_string(counter as u64 + 1, 4);
    r.append(n.as_str());
    r
}

/// The next receipt number of `year` after `last`, or `None` when the
/// counter of `last` is already at its largest value.
pub fn checked_next_receipt_number(year: u32, last: Option<&str>) -> (r: Option<String>)
    ensures
        receipt_counter(match last { Some(s) => Some(s@), None => None }) < u32::MAX
            ==> (r matches Some(n) && n@ == next_receipt_number_spec(year as nat, match last { Some(s) => Some(s@), None => None })),
        receipt_counter(match last { Some(s) => Some(s@), None => None }) >= u32::MAX ==> r is None,
{
    let counter: u32 = match last {
        Some(s) => counter_of(s),
        None => 0,
    };
    if counter == u32::MAX {
        None
    } else {
        Some(next_receipt_number(year, last))
    }
}

/// Whether issuing a receipt for a transaction creates one: only for a
/// transaction that exists, is receipt-eligible and has no receipt yet;
/// otherwise issuing does nothing.
pub fn issues_new_receipt(transaction_found: bool, category: &str, tx_type: &str, has_receipt: bool) -> (b: bool)
    ensures
        b == (transaction_found && tx_type@ == "CASH_IN"@ && (category@ == "MEMBERSHIP"@ || category@ == "SPONSORSHIP"@)
            && !has_receipt),
{
    transaction_found && crate::receipt::is_receipt_eligible(category, tx_type) && !has_receipt
}

/// Numbering is consecutive: the number after `last` reads back as the
/// counter of `last` plus one.
pub proof fn lemma_receipt_numbers_consecutive(year: nat, last: Option<Seq<char>>)
    requires
        receipt_counter(last) < u32::MAX,
    ensures
        receipt_counter(Some(next_receipt_number_spec(year, last))) == receipt_counter(last) + 1,
{
    let c = receipt_counter(last) + 1;
    let z = zero_padded(c, 4);
    lemma_zero_padded(c, 4);
    lemma_decimal_digits(year);
    reveal_strlit("BSDS");
    let b = "BSDS"@ + seq!['-', 'R', 'E', 'C', '-'] + decimal(year);
    let n = next_receipt_number_spec(year, last);
    assert(n =~= b + seq!['-'] + z);
    lemma_split_concat(b, z, '-');
    lemma_split_no_sep(z, '-');
    lemma_split_nonempty(b, '-');
    assert(split_on(n, '-').last() == z);
}

// ---------------------------------------------------------------------------
// Receipt contents
// ---------------------------------------------------------------------------

/// One breakdown line: a label and an amount in whole rupees.
#[derive(Debug, Clone)]
pub struct ReceiptLine {
    pub label: String,
    pub amount: u64,
}

pub open spec fn line_views(v: Seq<ReceiptLine>) -> Seq<(Seq<char>, nat)> {
    v.map_values(|l: ReceiptLine| (l.label@, l.amount as nat))
}

/// The subscription a receipt names: the given type, annual when unknown.
pub open spec fn receipt_subscription(membership_type: Option<Seq<char>>) -> MembershipType {
    match membership_type {
        Some(t) => match membership_type_of_label(t) {
            Some(m) => m,
            None => MembershipType::Annual,
        },
        None => MembershipType::Annual,
    }
}

/// The lines of a membership receipt: application fee, annual fee and
/// subscription, each when included, at their fees.
pub open spec fn member_receipt_lines_spec(
    includes_application_fee: bool,
    includes_annual_fee: bool,
    includes_subscription: bool,
    membership_type: Option<Seq<char>>,
) -> Seq<(Seq<char>, nat)> {
    (if includes_application_fee { seq![("Application Fee"@, APPLICATION_FEE as nat)] } else { Seq::empty() })
        + (if includes_annual_fee { seq![("Annual Membership Fee"@, ANNUAL_MEMBERSHIP_FEE as nat)] } else { Seq::empty() })
        + (if includes_subscription {
            seq![(subscription_label(receipt_subscription(membership_type)), fee_of(receipt_subscription(membership_type)))]
        } else {
            Seq::empty()
        })
}

/// A membership receipt's purpose (the labels joined with `, `) and lines.
/// With no component, the purpose is `Membership` and the only line is the
/// whole amount (left to the caller, which holds it).
pub fn member_receipt_lines(
    includes_application_fee: bool,
    includes_annual_fee: bool,
    includes_subscription: bool,
    membership_type: Option<&str>,
) -> (r: (String, Vec<ReceiptLine>))
    ensures
        ({
            let lines = member_receipt_lines_spec(includes_application_fee, includes_annual_fee, includes_subscription,
                match membership_type { Some(t) => Some(t@), None => None });
            &&& line_views(r.1@) == lines
            &&& r.0@ == if lines.len() == 0 {
                "Membership"@
            } else {
                join(lines.map_values(|l: (Seq<char>, nat)| l.0), ", "@)
            }
        }),
{
    let ghost mt_view = match membership_type { Some(t) => Some(t@), None => None::<Seq<char>> };
    let ghost lines = member_receipt_lines_spec(includes_application_fee, includes_annual_fee, includes_subscription, mt_view);
    let mut items: Vec<ReceiptLine> = Vec::new();
    if includes_application_fee {
        items.push(ReceiptLine { label: "Application Fee".to_string(), amount: APPLICATION_FEE });
    }
    if includes_annual_fee {
        items.push(ReceiptLine { label: "Annual Membership Fee".to_string(), amount: ANNUAL_MEMBERSHIP_FEE });
    }
    if includes_subscription {
        let mt = match membership_type {
            Some(s) => match MembershipType::from_str_label(s) {
                Some(m) => m,
                None => MembershipType::Annual,
            },
            None => MembershipType::Annual,
        };
        items.push(ReceiptLine {
            label: crate::receipt::membership_type_label(mt).to_string(),
            amount: membership_fee(mt),
        });
    }
    assert(line_views(items@) =~= lines);
    if items.len() == 0 {
        return ("Membership".to_string(), items);
    }
    let ghost labels = lines.map_values(|l: (Seq<char>, nat)| l.0);
    let mut purpose = String::new();
    let mut i: usize = 0;
    while i < items.len()
        invariant
            line_views(items@) == lines,
            labels == lines.map_values(|l: (Seq<char>, nat)| l.0),
            0 <= i <= items@.len(),
            purpose@ == join(labels.subrange(0, i as int), ", "@),
        decreases items.len() - i,
    {
        let ghost pre = labels.subrange(0, i as int);
        let ghost next = labels.subrange(0, i + 1);
        assert(next.drop_last() =~= pre);
        assert(next.last() == items@[i as int].label@);
        if i > 0 {
            purpose.append(", ");
        } else {
            assert(next.len() == 1);
        }
        purpose.append(items[i].label.as_str());
        i = i + 1;
    }
    assert(labels.subrange(0, items@.len() as int) =~= labels);
    (purpose, items)
}

/// What a sponsor's receipt names.
#[derive(Debug, Clone)]
pub struct SponsorReceiptFields {
    /// The sponsor's name, else the sender's, else empty.
    pub sponsor_name: String,
    /// The purpose shown: its label, `Sponsorship` when there is none.
    pub purpose: String,
    /// The purpose label stored, when there is one.
    pub sponsor_purpose: Option<String>,
}

/// The fields of a sponsor's receipt.
pub fn sponsor_receipt_fields(sponsor_name: Option<String>, sender_name: Option<String>, sponsor_purpose: Option<&str>)
    -> (r: SponsorReceiptFields)
    ensures
        ({
            let label = sponsor_purpose_label_spec(Some(match sponsor_purpose { Some(p) => p@, None => Seq::<char>::empty() }));
            &&& r.sponsor_name@ == match sponsor_name {
                Some(n) => n@,
                None => match sender_name { Some(s) => s@, None => Seq::<char>::empty() },
            }
            &&& r.purpose@ == if label.len() == 0 { "Sponsorship"@ } else { label }
            &&& match r.sponsor_purpose {
                Some(p) => label.len() > 0 && p@ == label,
                None => label.len() == 0,
            }
        }),
{
    let name = match sponsor_name {
        Some(n) => n,
        None => match sender_name {
            Some(s) => s,
            None => String::new(),
        },
    };
    let raw: &str = match sponsor_purpose {
        Some(p) => p,
        None => {
            proof { reveal_strlit(""); }
            ""
        },
    };
    let label = sponsor_purpose_label(Some(raw));
    if label.unicode_len() == 0 {
        SponsorReceiptFields { sponsor_name: name, purpose: "Sponsorship".to_string(), sponsor_purpose: None }
    } else {
        SponsorReceiptFields { sponsor_name: name, purpose: label.to_string(), sponsor_purpose: Some(label.to_string()) }
    }
}

} // verus!
