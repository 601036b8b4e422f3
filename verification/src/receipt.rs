//! Receipt labels, eligibility, membership breakdowns and amounts in words.

use vstd::prelude::*;
use crate::membership_rules::{fee_of, membership_fee, MembershipType, ANNUAL_MEMBERSHIP_FEE, APPLICATION_FEE};
use crate::text::{is_white, lead_white, push_char, str_eq, trail_white};
use crate::validation::join;
use crate::text::string_views;

verus! {

broadcast use vstd::string::group_string_axioms;

pub const CLUB_NAME: &'static str = "Deshapriya Park Sarbojanin Durgotsav";
pub const CLUB_ADDRESS: &'static str = "Deshapriya Park, Bhawanipur, Kolkata - 700 026, West Bengal";
pub const CLUB_PHONE: &'static str = "+91 98300 XXXXX";

// ---------------------------------------------------------------------------
// Labels
// ---------------------------------------------------------------------------

pub open spec fn payment_mode_label_spec(mode: Seq<char>) -> Seq<char> {
    if mode == "UPI"@ { "UPI"@ }
    else if mode == "BANK_TRANSFER"@ { "Bank Transfer"@ }
    else if mode == "CASH"@ { "Cash"@ }
    else { mode }
}

/// Human-readable payment mode; unknown modes are shown as they are.
pub fn payment_mode_label(mode: &str) -> (r: &str)
    ensures
        r@ == payment_mode_label_spec(mode@),
{
    if str_eq(mode, "UPI") { "UPI" }
    else if str_eq(mode, "BANK_TRANSFER") { "Bank Transfer" }
    else if str_eq(mode, "CASH") { "Cash" }
    else { mode }
}

pub open spec fn category_label_spec(category: Seq<char>) -> Seq<char> {
    if category == "MEMBERSHIP"@ { "Membership"@ }
    else if category == "SPONSORSHIP"@ { "Sponsorship"@ }
    else if category == "EXPENSE"@ { "Expense"@ }
    else if category == "OTHER"@ { "Other"@ }
    else { category }
}

/// Human-readable category; unknown categories are shown as they are.
pub fn category_label(category: &str) -> (r: &str)
    ensures
        r@ == category_label_spec(category@),
{
    if str_eq(category, "MEMBERSHIP") { "Membership" }
    else if str_eq(category, "SPONSORSHIP") { "Sponsorship" }
    else if str_eq(category, "EXPENSE") { "Expense" }
    else if str_eq(category, "OTHER") { "Other" }
    else { category }
}

pub open spec fn subscription_label(t: MembershipType) -> Seq<char> {
    match t {
        MembershipType::Monthly => "Monthly Subscription"@,
        MembershipType::HalfYearly => "Half-yearly Subscription"@,
        MembershipType::Annual => "Annual Subscription"@,
    }
}

/// Human-readable membership type.
pub fn membership_type_label(membership_type: MembershipType) -> (r: &'static str)
    ensures
        r@ == subscription_label(membership_type),
{
    match membership_type {
        MembershipType::Monthly => "Monthly Subscription",
        MembershipType::HalfYearly => "Half-yearly Subscription",
        MembershipType::Annual => "Annual Subscription",
    }
}

pub open spec fn sponsor_purpose_label_spec(purpose: Option<Seq<char>>) -> Seq<char> {
    match purpose {
        None => Seq::<char>::empty(),
        Some(p) => if p.len() == 0 { Seq::<char>::empty() }
            else if p == "TITLE_SPONSOR"@ { "Title Sponsor"@ }
            else if p == "GOLD_SPONSOR"@ { "Gold Sponsor"@ }
            else if p == "SILVER_SPONSOR"@ { "Silver Sponsor"@ }
            else if p == "FOOD_PARTNER"@ { "Food Partner"@ }
            else if p == "MEDIA_PARTNER"@ { "Media Partner"@ }
            else if p == "STALL_VENDOR"@ { "Stall Vendor"@ }
            else if p == "MARKETING_PARTNER"@ { "Marketing Partner"@ }
            else { p },
    }
}

/// Human-readable sponsor purpose; unknown purposes are shown as they are.
pub fn sponsor_purpose_label(purpose: Option<&str>) -> (r: &str)
    ensures
        r@ == sponsor_purpose_label_spec(match purpose { Some(p) => Some(p@), None => None }),
{
    match purpose {
        None => {
            proof { reveal_strlit(""); }
            ""
        },
        Some(p) => {
            if p.is_empty() {
                proof { reveal_strlit(""); }
                ""
            } else if str_eq(p, "TITLE_SPONSOR") { "Title Sponsor" }
            else if str_eq(p, "GOLD_SPONSOR") { "Gold Sponsor" }
            else if str_eq(p, "SILVER_SPONSOR") { "Silver Sponsor" }
            else if str_eq(p, "FOOD_PARTNER") { "Food Partner" }
            else if str_eq(p, "MEDIA_PARTNER") { "Media Partner" }
            else if str_eq(p, "STALL_VENDOR") { "Stall Vendor" }
            else if str_eq(p, "MARKETING_PARTNER") { "Marketing Partner" }
            else { p }
        },
    }
}

/// Whether a transaction gets a receipt: money in, for membership or sponsorship.
pub fn is_receipt_eligible(category: &str, tx_type: &str) -> (b: bool)
    ensures
        b == (tx_type@ == "CASH_IN"@ && (category@ == "MEMBERSHIP"@ || category@ == "SPONSORSHIP"@)),
{
    str_eq(tx_type, "CASH_IN") && (str_eq(category, "MEMBERSHIP") || str_eq(category, "SPONSORSHIP"))
}

// ---------------------------------------------------------------------------
// Membership breakdown
// ---------------------------------------------------------------------------

/// The membership components a payment covers.
#[derive(Debug, Clone, Copy, Default)]
pub struct MembershipDetails {
    pub membership_type: Option<MembershipType>,
    pub is_application_fee: bool,
    pub includes_subscription: bool,
    pub includes_annual_fee: bool,
    pub includes_application_fee: bool,
}

/// One line of a receipt breakdown; amounts are in paise.
#[derive(Debug, Clone)]
pub struct BreakdownItem {
    pub label: String,
    pub amount_paise: u64,
}

pub open spec fn item_view(i: BreakdownItem) -> (Seq<char>, nat) {
    (i.label@, i.amount_paise as nat)
}

pub open spec fn items_view(v: Seq<BreakdownItem>) -> Seq<(Seq<char>, nat)> {
    v.map_values(|i: BreakdownItem| item_view(i))
}

/// The breakdown lines of a membership payment with known components:
/// annual fee, subscription, application fee, in that order.
pub open spec fn component_lines(d: MembershipDetails) -> Seq<(Seq<char>, nat)> {
    let a = if d.includes_annual_fee {
        seq![("Annual Membership Fee"@, ANNUAL_MEMBERSHIP_FEE as nat * 100)]
    } else {
        Seq::<(Seq<char>, nat)>::empty()
    };
    let b = match d.membership_type {
        Some(t) => if d.includes_subscription { a.push((subscription_label(t), fee_of(t) * 100)) } else { a },
        None => a,
    };
    if d.is_application_fee || d.includes_application_fee {
        b.push(("Application Fee"@, APPLICATION_FEE as nat * 100))
    } else {
        b
    }
}

/// The purpose and breakdown of a membership receipt. `None` for other
/// categories; a single `Membership` line with the whole amount when no
/// component is known.
pub open spec fn membership_summary_spec(category: Seq<char>, amount_paise: nat, details: Option<MembershipDetails>)
    -> Option<(Seq<char>, Seq<(Seq<char>, nat)>)>
{
    if category != "MEMBERSHIP"@ {
        None
    } else {
        let lines = match details {
            Some(d) => component_lines(d),
            None => Seq::<(Seq<char>, nat)>::empty(),
        };
        if lines.len() > 0 {
            Some((join(lines.map_values(|l: (Seq<char>, nat)| l.0), ", "@), lines))
        } else {
            Some(("Membership"@, seq![("Membership"@, amount_paise)]))
        }
    }
}

fn push_line(items: &mut Vec<BreakdownItem>, labels: &mut Vec<String>, label: &str, amount_paise: u64)
    ensures
        items_view(final(items)@) == items_view(old(items)@).push((label@, amount_paise as nat)),
        string_views(final(labels)@) == string_views(old(labels)@).push(label@),
{
    items.push(BreakdownItem { label: label.to_string(), amount_paise });
    labels.push(label.to_string());
    assert(items_view(items@) =~= items_view(old(items)@).push((label@, amount_paise as nat)));
    assert(string_views(labels@) =~= string_views(old(labels)@).push(label@));
}

fn join_strings(v: &Vec<String>, sep: &str) -> (r: String)
    ensures
        r@ == join(string_views(v@), sep@),
{
    let mut r = String::new();
    let mut i: usize = 0;
    while i < v.len()
        invariant
            0 <= i <= v@.len(),
            r@ == join(string_views(v@.subrange(0, i as int)), sep@),
        decreases v.len() - i,
    {
        let ghost pre = string_views(v@.subrange(0, i as int));
        let ghost next = string_views(v@.subrange(0, i + 1));
        assert(next.drop_last() =~= pre);
        if i > 0 {
            r.append(sep);
        } else {
            assert(next.len() == 1);
        }
        r.append(v[i].as_str());
        i = i + 1;
    }
    assert(v@.subrange(0, v@.len() as int) == v@);
    r
}

/// The purpose text and breakdown of a membership receipt.
pub fn build_membership_summary(category: &str, amount_paise: u64, details: Option<&MembershipDetails>)
    -> (r: Option<(String, Vec<BreakdownItem>)>)
    ensures
        match (r, membership_summary_spec(category@, amount_paise as nat, match details { Some(d) => Some(*d), None => None })) {
            (Some((p, items)), Some((sp, slines))) => p@ == sp && items_view(items@) == slines,
            (None, None) => true,
            _ => false,
        },
{
    if !str_eq(category, "MEMBERSHIP") {
        return None;
    }
    let mut items: Vec<BreakdownItem> = Vec::new();
    let mut labels: Vec<String> = Vec::new();
    assert(items_view(items@) =~= Seq::<(Seq<char>, nat)>::empty());
    assert(string_views(labels@) =~= Seq::<Seq<char>>::empty());
    if let Some(d) = details {
        if d.includes_annual_fee {
            push_line(&mut items, &mut labels, "Annual Membership Fee", ANNUAL_MEMBERSHIP_FEE * 100);
        }
        if d.includes_subscription {
            if let Some(mt) = d.membership_type {
                let fee = membership_fee(mt);
                push_line(&mut items, &mut labels, membership_type_label(mt), fee * 100);
            }
        }
        if d.is_application_fee || d.includes_application_fee {
            push_line(&mut items, &mut labels, "Application Fee", APPLICATION_FEE * 100);
        }
        assert(items_view(items@) =~= component_lines(*d));
    }
    let ghost lines = match details {
        Some(d) => component_lines(*d),
        None => Seq::<(Seq<char>, nat)>::empty(),
    };
    assert(items_view(items@) == lines);
    assert(string_views(labels@) =~= lines.map_values(|l: (Seq<char>, nat)| l.0));
    if items.len() > 0 {
        let purpose = join_strings(&labels, ", ");
        return Some((purpose, items));
    }
    let mut fallback: Vec<BreakdownItem> = Vec::new();
    fallback.push(BreakdownItem { label: "Membership".to_string(), amount_paise });
    assert(items_view(fallback@) =~= seq![("Membership"@, amount_paise as nat)]);
    Some(("Membership".to_string(), fallback))
}

/// The sum of the amounts of some breakdown lines.
pub open spec fn lines_total(lines: Seq<(Seq<char>, nat)>) -> nat
    decreases lines.len(),
{
    if lines.len() == 0 { 0 } else { lines_total(lines.drop_last()) + lines.last().1 }
}

/// What the flagged components of a membership payment cost, in paise: the
/// annual fee, the subscription of the given type, and the application fee
/// when either application flag is set.
pub open spec fn flagged_fees(d: MembershipDetails) -> nat {
    (if d.includes_annual_fee { ANNUAL_MEMBERSHIP_FEE as nat * 100 } else { 0 })
        + (match d.membership_type {
            Some(t) => if d.includes_subscription { fee_of(t) * 100 } else { 0 },
            None => 0,
        })
        + (if d.is_application_fee || d.includes_application_fee { APPLICATION_FEE as nat * 100 } else { 0 })
}

/// A membership receipt's breakdown covers every flagged component: it has
/// an application fee line exactly when either application flag is set,
/// and its lines add up to what the flagged components cost; with nothing
/// flagged it is one `Membership` line of the whole amount.
pub proof fn lemma_breakdown_covers_components(amount_paise: nat, d: MembershipDetails)
    ensures
        match membership_summary_spec("MEMBERSHIP"@, amount_paise, Some(d)) {
            Some((_, lines)) => {
                &&& lines.contains(("Application Fee"@, APPLICATION_FEE as nat * 100))
                    <==> (d.is_application_fee || d.includes_application_fee)
                &&& flagged_fees(d) > 0 ==> lines_total(lines) == flagged_fees(d)
                &&& flagged_fees(d) == 0 ==> lines == seq![("Membership"@, amount_paise)]
            },
            None => false,
        },
{
    reveal_strlit("Application Fee");
    reveal_strlit("Annual Membership Fee");
    reveal_strlit("Monthly Subscription");
    reveal_strlit("Half-yearly Subscription");
    reveal_strlit("Annual Subscription");
    reveal_strlit("Membership");
    let app = ("Application Fee"@, APPLICATION_FEE as nat * 100);
    let a = if d.includes_annual_fee {
        seq![("Annual Membership Fee"@, ANNUAL_MEMBERSHIP_FEE as nat * 100)]
    } else {
        Seq::<(Seq<char>, nat)>::empty()
    };
    let b = match d.membership_type {
        Some(t) => if d.includes_subscription { a.push((subscription_label(t), fee_of(t) * 100)) } else { a },
        None => a,
    };
    assert("Annual Membership Fee"@[1] != "Application Fee"@[1]);
    assert(forall|t: MembershipType| #[trigger] subscription_label(t) != "Application Fee"@) by {
        assert("Monthly Subscription"@[0] != "Application Fee"@[0]);
        assert("Half-yearly Subscription"@[0] != "Application Fee"@[0]);
        assert("Annual Subscription"@[1] != "Application Fee"@[1]);
    }
    assert(!b.contains(app)) by {
        if b.contains(app) {
            let k = choose|k: int| 0 <= k < b.len() && b[k] == app;
            if d.includes_annual_fee && k == 0 {
            } else {
                assert(b[k].0 == subscription_label(d.membership_type->0));
            }
        }
    }
    assert(lines_total(Seq::<(Seq<char>, nat)>::empty()) == 0);
    assert(lines_total(a) == (if d.includes_annual_fee { ANNUAL_MEMBERSHIP_FEE as nat * 100 } else { 0 })) by {
        if d.includes_annual_fee {
            assert(a.drop_last() =~= Seq::<(Seq<char>, nat)>::empty());
        }
    }
    let sub_fee: nat = match d.membership_type {
        Some(t) => if d.includes_subscription { fee_of(t) * 100 } else { 0 },
        None => 0,
    };
    match d.membership_type {
        Some(t) => if d.includes_subscription {
            assert(b.drop_last() == a);
            assert(b.last() == (subscription_label(t), fee_of(t) * 100));
        },
        None => {},
    }
    assert(lines_total(b) == lines_total(a) + sub_fee);
    assert(b.len() == 0 <==> lines_total(b) == 0);
    let lines = component_lines(d);
    if d.is_application_fee || d.includes_application_fee {
        assert(lines == b.push(app));
        assert(lines.drop_last() == b);
        assert(lines[lines.len() - 1] == app);
        assert(lines.contains(app));
        assert(lines_total(lines) == flagged_fees(d));
        assert(lines.len() > 0);
    } else {
        assert(lines == b);
        assert(lines_total(lines) == flagged_fees(d));
        if flagged_fees(d) == 0 {
            assert(lines.len() == 0);
        }
    }
}

// ---------------------------------------------------------------------------
// Amount in words (Indian English, up to crores)
// ---------------------------------------------------------------------------

pub open spec fn ones_word(n: nat) -> Seq<char> {
    if n == 0 { Seq::<char>::empty() }
    else if n == 1 { "One"@ } else if n == 2 { "Two"@ } else if n == 3 { "Three"@ }
    else if n == 4 { "Four"@ } else if n == 5 { "Five"@ } else if n == 6 { "Six"@ }
    else if n == 7 { "Seven"@ } else if n == 8 { "Eight"@ } else if n == 9 { "Nine"@ }
    else if n == 10 { "Ten"@ } else if n == 11 { "Eleven"@ } else if n == 12 { "Twelve"@ }
    else if n == 13 { "Thirteen"@ } else if n == 14 { "Fourteen"@ } else if n == 15 { "Fifteen"@ }
    else if n == 16 { "Sixteen"@ } else if n == 17 { "Seventeen"@ } else if n == 18 { "Eighteen"@ }
    else { "Nineteen"@ }
}

pub open spec fn tens_word(n: nat) -> Seq<char> {
    if n == 2 { "Twenty"@ } else if n == 3 { "Thirty"@ } else if n == 4 { "Forty"@ }
    else if n == 5 { "Fifty"@ } else if n == 6 { "Sixty"@ } else if n == 7 { "Seventy"@ }
    else if n == 8 { "Eighty"@ } else if n == 9 { "Ninety"@ } else { Seq::<char>::empty() }
}

/// Words for `n` below 2000 (`Hundred`, with `and` before a remainder).
pub open spec fn three_digit_words_spec(n: nat) -> Seq<char>
    decreases n,
{
    if n == 0 {
        Seq::<char>::empty()
    } else if n < 20 {
        ones_word(n)
    } else if n < 100 {
        if n % 10 != 0 {
            tens_word(n / 10) + seq![' '] + ones_word(n % 10)
        } else {
            tens_word(n / 10)
        }
    } else {
        let head = ones_word(n / 100) + " Hundred"@;
        if n % 100 != 0 {
            head + " and "@ + three_digit_words_spec(n % 100)
        } else {
            head
        }
    }
}

fn ones(n: u64) -> (r: &'static str)
    requires
        n < 20,
    ensures
        r@ == ones_word(n as nat),
{
    if n == 0 { proof { reveal_strlit(""); } "" }
    else if n == 1 { "One" } else if n == 2 { "Two" } else if n == 3 { "Three" }
    else if n == 4 { "Four" } else if n == 5 { "Five" } else if n == 6 { "Six" }
    else if n == 7 { "Seven" } else if n == 8 { "Eight" } else if n == 9 { "Nine" }
    else if n == 10 { "Ten" } else if n == 11 { "Eleven" } else if n == 12 { "Twelve" }
    else if n == 13 { "Thirteen" } else if n == 14 { "Fourteen" } else if n == 15 { "Fifteen" }
    else if n == 16 { "Sixteen" } else if n == 17 { "Seventeen" } else if n == 18 { "Eighteen" }
    else { "Nineteen" }
}

fn tens(n: u64) -> (r: &'static str)
    requires
        2 <= n < 10,
    ensures
        r@ == tens_word(n as nat),
{
    if n == 2 { "Twenty" } else if n == 3 { "Thirty" } else if n == 4 { "Forty" }
    else if n == 5 { "Fifty" } else if n == 6 { "Sixty" } else if n == 7 { "Seventy" }
    else if n == 8 { "Eighty" } else { "Ninety" }
}

/// Words for a number below 2000.
pub fn three_digit_words(n: u64) -> (r: String)
    requires
        n < 2000,
    ensures
        r@ == three_digit_words_spec(n as nat),
    decreases n,
{
    if n == 0 {
        return String::new();
    }
    if n < 20 {
        return ones(n).to_string();
    }
    if n < 100 {
        let mut r = tens(n / 10).to_string();
        if n % 10 != 0 {
            push_char(&mut r, ' ');
            r.append(ones(n % 10));
        }
        return r;
    }
    let mut r = ones(n / 100).to_string();
    r.append(" Hundred");
    if n % 100 != 0 {
        r.append(" and ");
        let rest = three_digit_words(n % 100);
        r.append(rest.as_str());
    }
    r
}

/// The words before trimming: each non-zero group with its scale word and a
/// trailing space.
pub open spec fn rupee_groups(rupees: nat) -> Seq<char> {
    let crore = rupees / 10_000_000;
    let lakh = (rupees % 10_000_000) / 100_000;
    let thousand = (rupees % 100_000) / 1_000;
    let rem = rupees % 1_000;
    (if crore > 0 { three_digit_words_spec(crore) + " Crore "@ } else { Seq::<char>::empty() })
        + (if lakh > 0 { three_digit_words_spec(lakh) + " Lakh "@ } else { Seq::<char>::empty() })
        + (if thousand > 0 { three_digit_words_spec(thousand) + " Thousand "@ } else { Seq::<char>::empty() })
        + (if rem > 0 { three_digit_words_spec(rem) + seq![' '] } else { Seq::<char>::empty() })
}

/// An amount of rupees and paise in Indian English words, as a receipt
/// shows it: `1500` rupees is `One Thousand Five Hundred Rupees Only`.
pub open spec fn amount_words_spec(rupees: nat, paise: nat) -> Seq<char> {
    let r = if rupees > 0 {
        crate::text::trimmed_end(rupee_groups(rupees)) + " Rupees"@
    } else {
        Seq::<char>::empty()
    };
    let p = if paise > 0 { r + " and "@ + three_digit_words_spec(paise) + " Paise"@ } else { r };
    crate::text::trimmed(p) + " Only"@
}

/// A word starts with a capital letter and ends with a small one.
pub open spec fn word_shaped(w: Seq<char>) -> bool {
    w.len() > 0 && 'A' <= w[0] <= 'Z' && 'a' <= w.last() <= 'z'
}

proof fn lemma_ones_shape(n: nat)
    requires
        n >= 1,
    ensures
        word_shaped(ones_word(n)),
{
    reveal_strlit("One");
    reveal_strlit("Two");
    reveal_strlit("Three");
    reveal_strlit("Four");
    reveal_strlit("Five");
    reveal_strlit("Six");
    reveal_strlit("Seven");
    reveal_strlit("Eight");
    reveal_strlit("Nine");
    reveal_strlit("Ten");
    reveal_strlit("Eleven");
    reveal_strlit("Twelve");
    reveal_strlit("Thirteen");
    reveal_strlit("Fourteen");
    reveal_strlit("Fifteen");
    reveal_strlit("Sixteen");
    reveal_strlit("Seventeen");
    reveal_strlit("Eighteen");
    reveal_strlit("Nineteen");
}

proof fn lemma_tens_shape(n: nat)
    requires
        2 <= n <= 9,
    ensures
        word_shaped(tens_word(n)),
{
    reveal_strlit("Twenty");
    reveal_strlit("Thirty");
    reveal_strlit("Forty");
    reveal_strlit("Fifty");
    reveal_strlit("Sixty");
    reveal_strlit("Seventy");
    reveal_strlit("Eighty");
    reveal_strlit("Ninety");
}

/// The words of a non-zero number start with a capital and end with a small
/// letter.
proof fn lemma_words_shape(n: nat)
    requires
        n >= 1,
    ensures
        word_shaped(three_digit_words_spec(n)),
    decreases n,
{
    let w = three_digit_words_spec(n);
    if n < 20 {
        lemma_ones_shape(n);
    } else if n < 100 {
        lemma_tens_shape(n / 10);
        if n % 10 != 0 {
            lemma_ones_shape(n % 10);
            let t = tens_word(n / 10);
            let o = ones_word(n % 10);
            assert(w == t + seq![' '] + o);
            assert(w[0] == t[0]);
            assert(w.last() == o.last());
        }
    } else {
        reveal_strlit(" Hundred");
        reveal_strlit(" and ");
        lemma_ones_shape(n / 100);
        let o = ones_word(n / 100);
        let head = o + " Hundred"@;
        assert(head[0] == o[0]);
        if n % 100 != 0 {
            lemma_words_shape(n % 100);
            let rest = three_digit_words_spec(n % 100);
            assert(w == head + " and "@ + rest);
            assert(w[0] == head[0]);
            assert(w.last() == rest.last());
        } else {
            assert(w == head);
            assert(w.last() == 'd');
        }
    }
}

/// A units digit is named: the words of a number whose last two digits are
/// at least 20 and whose units digit is not zero are the words of the number
/// without its units, a space, and the word for the units digit.
pub proof fn lemma_units_are_named(n: nat)
    requires
        n % 100 >= 20,
        n % 10 != 0,
    ensures
        three_digit_words_spec(n) == three_digit_words_spec((n - n % 10) as nat) + seq![' '] + ones_word(n % 10),
{
    let u = n % 10;
    let m = (n - u) as nat;
    assert(m % 10 == 0);
    assert(m % 100 == n % 100 - u);
    assert(m / 100 == n / 100);
    if n < 100 {
        assert(m / 10 == n / 10);
    } else {
        reveal_strlit(" and ");
        let r = n % 100;
        let rm = m % 100;
        assert(rm / 10 == r / 10);
        assert(three_digit_words_spec(r) == tens_word(r / 10) + seq![' '] + ones_word(u));
        assert(three_digit_words_spec(rm) == tens_word(rm / 10));
    }
}

proof fn lemma_trim_end_space(s: Seq<char>)
    requires
        s.len() > 0,
        !is_white(s.last()),
    ensures
        crate::text::trimmed_end(s + seq![' ']) == s,
{
    let t = s + seq![' '];
    assert(t.drop_last() =~= s);
    assert(is_white(t.last()));
    assert(trail_white(s) == 0);
    assert(trail_white(t) == 1);
    assert(t.subrange(0, t.len() - 1) =~= s);
}

proof fn lemma_trim_kept(s: Seq<char>)
    requires
        s.len() > 0,
        !is_white(s[0]),
        !is_white(s.last()),
    ensures
        crate::text::trimmed(s) == s,
{
    assert(lead_white(s) == 0);
    assert(s.subrange(0, s.len() as int) =~= s);
    assert(trail_white(s) == 0);
}

/// The crore, lakh and thousand groups of an amount of rupees in words,
/// each followed by its scale word and a space.
pub open spec fn rupee_scales(rupees: nat) -> Seq<char> {
    let crore = rupees / 10_000_000;
    let lakh = (rupees % 10_000_000) / 100_000;
    let thousand = (rupees % 100_000) / 1_000;
    (if crore > 0 { three_digit_words_spec(crore) + " Crore "@ } else { Seq::<char>::empty() })
        + (if lakh > 0 { three_digit_words_spec(lakh) + " Lakh "@ } else { Seq::<char>::empty() })
        + (if thousand > 0 { three_digit_words_spec(thousand) + " Thousand "@ } else { Seq::<char>::empty() })
}

/// Taking the units off an amount leaves its crore, lakh and thousand
/// groups as they are.
proof fn lemma_units_off_arith(rupees: int, u: int)
    requires
        rupees >= 0,
        0 < u <= rupees % 1000,
    ensures
        (rupees - u) % 1000 == rupees % 1000 - u,
        (rupees - u) / 10_000_000 == rupees / 10_000_000,
        ((rupees - u) % 10_000_000) / 100_000 == (rupees % 10_000_000) / 100_000,
        ((rupees - u) % 100_000) / 1_000 == (rupees % 100_000) / 1_000,
{
    let q = rupees / 1000;
    let m = rupees % 1000;
    assert(rupees == 1000 * q + m);
    let r2 = rupees - u;
    assert(r2 == 1000 * q + (m - u));
    assert(r2 / 1000 == q && r2 % 1000 == m - u) by {
        vstd::arithmetic::div_mod::lemma_fundamental_div_mod_converse(r2, 1000, q, m - u);
    }
    // Both amounts share their thousands, so every larger group matches.
    assert(rupees / 10_000_000 == q / 10_000) by {
        vstd::arithmetic::div_mod::lemma_div_denominator(rupees, 1000, 10_000);
    }
    assert(r2 / 10_000_000 == q / 10_000) by {
        vstd::arithmetic::div_mod::lemma_div_denominator(r2, 1000, 10_000);
    }
    assert(rupees % 10_000_000 == 1000 * (q % 10_000) + m) by {
        vstd::arithmetic::div_mod::lemma_breakdown(rupees, 1000, 10_000);
    }
    assert(r2 % 10_000_000 == 1000 * (q % 10_000) + (m - u)) by {
        vstd::arithmetic::div_mod::lemma_breakdown(r2, 1000, 10_000);
    }
    assert(rupees % 100_000 == 1000 * (q % 100) + m) by {
        vstd::arithmetic::div_mod::lemma_breakdown(rupees, 1000, 100);
    }
    assert(r2 % 100_000 == 1000 * (q % 100) + (m - u)) by {
        vstd::arithmetic::div_mod::lemma_breakdown(r2, 1000, 100);
    }
    let a = q % 10_000;
    assert((1000 * a + m) / 100_000 == (1000 * a + (m - u)) / 100_000) by {
        vstd::arithmetic::div_mod::lemma_fundamental_div_mod(a, 100);
        let c = a / 100;
        let d = a % 100;
        assert(1000 * a + m == 100_000 * c + (1000 * d + m));
        assert(1000 * a + (m - u) == 100_000 * c + (1000 * d + (m - u)));
        vstd::arithmetic::div_mod::lemma_fundamental_div_mod_converse(1000 * a + m, 100_000, c, 1000 * d + m);
        vstd::arithmetic::div_mod::lemma_fundamental_div_mod_converse(1000 * a + (m - u), 100_000, c, 1000 * d + (m - u));
    }
    let b = q % 100;
    assert((1000 * b + m) / 1000 == b && (1000 * b + (m - u)) / 1000 == b) by {
        vstd::arithmetic::div_mod::lemma_fundamental_div_mod_converse(1000 * b + m, 1000, b, m);
        vstd::arithmetic::div_mod::lemma_fundamental_div_mod_converse(1000 * b + (m - u), 1000, b, m - u);
    }
}

/// Taking the units off an amount leaves its crore, lakh and thousand
/// groups as they are.
proof fn lemma_units_off_scales(rupees: nat)
    requires
        rupees % 100 >= 20,
        rupees % 10 != 0,
    ensures
        rupee_scales((rupees - rupees % 10) as nat) == rupee_scales(rupees),
        ((rupees - rupees % 10) as nat) % 1000 == rupees % 1000 - rupees % 10,
{
    let u = rupees % 10;
    assert(rupees % 1000 >= rupees % 100) by {
        vstd::arithmetic::div_mod::lemma_mod_mod(rupees as int, 100, 10);
    }
    lemma_units_off_arith(rupees as int, u as int);
}

proof fn lemma_groups_split(rupees: nat)
    requires
        rupees % 1000 > 0,
    ensures
        rupee_groups(rupees) == rupee_scales(rupees) + three_digit_words_spec(rupees % 1000) + seq![' '],
{
}

/// Scale words followed by a word start with a capital letter.
proof fn lemma_scales_start(rupees: nat, w: Seq<char>)
    requires
        word_shaped(w),
    ensures
        'A' <= (rupee_scales(rupees) + w)[0] <= 'Z',
{
    let crore = rupees / 10_000_000;
    let lakh = (rupees % 10_000_000) / 100_000;
    let thousand = (rupees % 100_000) / 1_000;
    let g = rupee_scales(rupees);
    if crore > 0 {
        lemma_words_shape(crore);
        assert((g + w)[0] == three_digit_words_spec(crore)[0]);
    } else if lakh > 0 {
        lemma_words_shape(lakh);
        assert((g + w)[0] == three_digit_words_spec(lakh)[0]);
    } else if thousand > 0 {
        lemma_words_shape(thousand);
        assert((g + w)[0] == three_digit_words_spec(thousand)[0]);
    } else {
        assert(g =~= Seq::<char>::empty());
        assert((g + w)[0] == w[0]);
    }
}

/// The words of an amount of rupees whose last three digits are not all zero:
/// the scale words and the words of those digits, then ` Rupees Only`.
proof fn lemma_amount_words_shape(rupees: nat)
    requires
        rupees % 1000 > 0,
    ensures
        amount_words_spec(rupees, 0) == rupee_scales(rupees) + three_digit_words_spec(rupees % 1000) + " Rupees Only"@,
{
    reveal_strlit(" Rupees");
    reveal_strlit(" Only");
    reveal_strlit(" Rupees Only");
    let w = three_digit_words_spec(rupees % 1000);
    let g = rupee_scales(rupees);
    lemma_words_shape(rupees % 1000);
    lemma_groups_split(rupees);
    let t = g + w;
    assert(t.last() == w.last());
    lemma_trim_end_space(t);
    assert(g + w + seq![' '] =~= t + seq![' ']);
    let p = t + " Rupees"@;
    lemma_scales_start(rupees, w);
    assert(p[0] == t[0]);
    assert(p.last() == 's');
    lemma_trim_kept(p);
    assert(" Rupees"@ + " Only"@ =~= " Rupees Only"@);
    assert(amount_words_spec(rupees, 0) =~= t + " Rupees Only"@);
}

/// An amount's words name its units digit: the words of an amount of
/// rupees whose last two digits are at least 20 and whose units digit is not
/// zero read as the words of the amount without its units, with the word for
/// the units digit before ` Rupees Only`.
pub proof fn lemma_amount_units_named(rupees: nat)
    requires
        rupees % 100 >= 20,
        rupees % 10 != 0,
    ensures
        exists|words: Seq<char>|
            amount_words_spec((rupees - rupees % 10) as nat, 0) == words + " Rupees Only"@
            && #[trigger] amount_words_spec(rupees, 0) == words + seq![' '] + ones_word(rupees % 10) + " Rupees Only"@,
{
    let u = rupees % 10;
    let r2 = (rupees - u) as nat;
    let m = rupees % 1000;
    lemma_units_off_scales(rupees);
    assert(m % 100 == rupees % 100 && m % 10 == u);
    lemma_units_are_named(m);
    lemma_amount_words_shape(rupees);
    lemma_amount_words_shape(r2);
    let g = rupee_scales(rupees);
    let w2 = three_digit_words_spec(r2 % 1000);
    assert(three_digit_words_spec(m) == w2 + seq![' '] + ones_word(u));
    let words = g + w2;
    assert(amount_words_spec(rupees, 0) =~= words + seq![' '] + ones_word(u) + " Rupees Only"@);
}

/// The words of an amount given as whole rupees and paise.
pub fn amount_to_words(rupees: u64, paise: u64) -> (r: String)
    requires
        rupees / 10_000_000 < 2000,
        paise < 2000,
    ensures
        r@ == amount_words_spec(rupees as nat, paise as nat),
{
    let mut result = String::new();
    if rupees > 0 {
        let crore = rupees / 10_000_000;
        let lakh = (rupees % 10_000_000) / 100_000;
        let thousand = (rupees % 100_000) / 1_000;
        let remainder = rupees % 1_000;
        if crore > 0 {
            let w = three_digit_words(crore);
            result.append(w.as_str());
            result.append(" Crore ");
        }
        if lakh > 0 {
            let w = three_digit_words(lakh);
            result.append(w.as_str());
            result.append(" Lakh ");
        }
        if thousand > 0 {
            let w = three_digit_words(thousand);
            result.append(w.as_str());
            result.append(" Thousand ");
        }
        if remainder > 0 {
            let w = three_digit_words(remainder);
            result.append(w.as_str());
            push_char(&mut result, ' ');
        }
        assert(result@ =~= rupee_groups(rupees as nat));
        let t = crate::text::trim_end_string(&result);
        result = t;
        result.append(" Rupees");
    }
    if paise > 0 {
        result.append(" and ");
        let w = three_digit_words(paise);
        result.append(w.as_str());
        result.append(" Paise");
    }
    let mut out = crate::text::trim_string(&result);
    out.append(" Only");
    out
}

} // verus!
