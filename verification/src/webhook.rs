//! Decisions on Razorpay payment webhooks: which payments are sponsor
//! payments, what a captured payment records, and how the payment's notes
//! are read.

use vstd::prelude::*;
use crate::keyed::{distinct_keys, lemma_lookup_index, lemma_lookup_push, lemma_lookup_update, lookup};
use crate::text::{chars_of, opt_view, push_char, str_eq, string_from_chars};

verus! {

broadcast use vstd::string::group_string_axioms;

// ---------------------------------------------------------------------------
// Payment notes
// ---------------------------------------------------------------------------

/// The key/value notes Razorpay echoes back with a payment.
#[derive(Debug)]
pub struct PaymentNotes {
    entries: Vec<(String, String)>,
}

pub open spec fn note_views(v: Seq<(String, String)>) -> Seq<(Seq<char>, Seq<char>)> {
    v.map_values(|e: (String, String)| (e.0@, e.1@))
}

impl PaymentNotes {
    /// The stored pairs.
    pub closed spec fn pairs(&self) -> Seq<(Seq<char>, Seq<char>)> {
        note_views(self.entries@)
    }

    /// Each key is stored once.
    #[verifier::type_invariant]
    spec fn keys_distinct(self) -> bool {
        distinct_keys(note_views(self.entries@))
    }

    /// The value of note `key`, if present.
    pub open spec fn note(&self, key: Seq<char>) -> Option<Seq<char>> {
        lookup(self.pairs(), key)
    }

    /// No notes.
    pub fn new() -> (r: PaymentNotes)
        ensures
            forall|k: Seq<char>| r.note(k) is None,
    {
        let v: Vec<(String, String)> = Vec::new();
        assert(note_views(v@) =~= Seq::<(Seq<char>, Seq<char>)>::empty());
        PaymentNotes { entries: v }
    }

    /// Sets note `key` to `value`, replacing any earlier value; the other
    /// notes are unchanged.
    pub fn insert(&mut self, key: String, value: String)
        ensures
            final(self).note(key@) == Some(value@),
            forall|k: Seq<char>| k != key@ ==> final(self).note(k) == old(self).note(k),
    {
        proof {
            use_type_invariant(&*self);
        }
        let ghost before = self.pairs();
        let mut es: Vec<(String, String)> = Vec::new();
        proof {
            assert(note_views(es@) =~= Seq::<(Seq<char>, Seq<char>)>::empty());
        }
        std::mem::swap(&mut es, &mut self.entries);
        assert(note_views(es@) == before);
        let mut i: usize = 0;
        while i < es.len()
            invariant
                note_views(es@) == before,
                old(self).pairs() == before,
                distinct_keys(before),
                0 <= i <= es@.len(),
                forall|j: int| 0 <= j < i ==> before[j].0 != key@,
            decreases es.len() - i,
        {
            assert(before[i as int] == (es@[i as int].0@, es@[i as int].1@));
            if str_eq(es[i].0.as_str(), key.as_str()) {
                let k = es[i].0.clone();
                es.set(i, (k, value));
                proof {
                    assert(note_views(es@) =~= before.update(i as int, (key@, value@)));
                    assert forall|k2: Seq<char>| k2 != key@ implies lookup(note_views(es@), k2) == lookup(before, k2) by {
                        lemma_lookup_update(before, i as int, key@, value@, k2);
                    }
                    lemma_lookup_update(before, i as int, key@, value@, key@);
                }
                self.entries = es;
                return;
            }
            i = i + 1;
        }
        proof {
            lemma_lookup_index(before, key@);
        }
        let ghost kv = key@;
        let ghost vv = value@;
        es.push((key, value));
        proof {
            assert(note_views(es@) =~= before.push((kv, vv)));
            assert forall|k2: Seq<char>| k2 != kv implies lookup(note_views(es@), k2) == lookup(before, k2) by {
                lemma_lookup_push(before, kv, vv, k2);
            }
            lemma_lookup_push(before, kv, vv, kv);
        }
        self.entries = es;
    }

    /// The value of note `key`, if present.
    pub fn get(&self, key: &str) -> (r: Option<String>)
        ensures
            match (r, self.note(key@)) {
                (Some(a), Some(b)) => a@ == b,
                (None, None) => true,
                _ => false,
            },
    {
        let mut n: usize = self.entries.len();
        assert(self.pairs().subrange(0, n as int) =~= self.pairs());
        while n > 0
            invariant
                n <= self.entries@.len(),
                lookup(self.pairs(), key@) == lookup(self.pairs().subrange(0, n as int), key@),
            decreases n,
        {
            let ghost p = self.pairs().subrange(0, n as int);
            assert(p.last() == (self.entries@[n - 1].0@, self.entries@[n - 1].1@));
            assert(p.drop_last() =~= self.pairs().subrange(0, n - 1));
            if str_eq(self.entries[n - 1].0.as_str(), key) {
                return Some(self.entries[n - 1].1.clone());
            }
            n = n - 1;
        }
        None
    }

    /// The stored notes, each key once.
    pub fn entries(&self) -> (r: Vec<(String, String)>)
        ensures
            note_views(r@) == self.pairs(),
    {
        let mut r: Vec<(String, String)> = Vec::new();
        let mut i: usize = 0;
        while i < self.entries.len()
            invariant
                0 <= i <= self.entries@.len(),
                note_views(r@) == note_views(self.entries@.subrange(0, i as int)),
            decreases self.entries.len() - i,
        {
            let k = self.entries[i].0.clone();
            let v = self.entries[i].1.clone();
            assert(k@ == self.entries@[i as int].0@);
            assert(v@ == self.entries@[i as int].1@);
            let ghost before = r@;
            r.push((k, v));
            assert(r@ == before.push((k, v)));
            assert(note_views(self.entries@.subrange(0, i + 1)) =~= note_views(self.entries@.subrange(0, i as int)).push((k@, v@)));
            assert(note_views(r@) =~= note_views(before).push((k@, v@)));
            i = i + 1;
        }
        assert(self.entries@.subrange(0, self.entries@.len() as int) =~= self.entries@);
        r
    }

    /// Whether note `key` is present.
    pub fn contains_key(&self, key: &str) -> (b: bool)
        ensures
            b == (self.note(key@) is Some),
    {
        self.get(key).is_some()
    }
}

// ---------------------------------------------------------------------------
// Sponsor payments
// ---------------------------------------------------------------------------

/// The sponsor purposes a payment may carry.
pub const VALID_SPONSOR_PURPOSES: [&'static str; 7] = [
    "TITLE_SPONSOR",
    "GOLD_SPONSOR",
    "SILVER_SPONSOR",
    "FOOD_PARTNER",
    "MEDIA_PARTNER",
    "STALL_VENDOR",
    "MARKETING_PARTNER",
];

pub open spec fn valid_sponsor_purpose(value: Seq<char>) -> bool {
    ||| value == "TITLE_SPONSOR"@
    ||| value == "GOLD_SPONSOR"@
    ||| value == "SILVER_SPONSOR"@
    ||| value == "FOOD_PARTNER"@
    ||| value == "MEDIA_PARTNER"@
    ||| value == "STALL_VENDOR"@
    ||| value == "MARKETING_PARTNER"@
}

/// The sponsor purposes a payment may carry are exactly those listed in
/// `VALID_SPONSOR_PURPOSES`.
pub proof fn lemma_valid_purposes_are_listed(p: Seq<char>)
    ensures
        valid_sponsor_purpose(p) <==> exists|i: int| 0 <= i < 7 && #[trigger] VALID_SPONSOR_PURPOSES@[i]@ == p,
{
    let l = VALID_SPONSOR_PURPOSES@;
    assert(l[0]@ == "TITLE_SPONSOR"@);
    assert(l[1]@ == "GOLD_SPONSOR"@);
    assert(l[2]@ == "SILVER_SPONSOR"@);
    assert(l[3]@ == "FOOD_PARTNER"@);
    assert(l[4]@ == "MEDIA_PARTNER"@);
    assert(l[5]@ == "STALL_VENDOR"@);
    assert(l[6]@ == "MARKETING_PARTNER"@);
}

/// A sponsor purpose is valid exactly when it has a name of its own for
/// people (an unknown purpose is shown as it is), and exactly when it is one
/// of the purposes a transaction may record other than `OTHER`.
pub proof fn lemma_valid_purposes_are_named(p: Seq<char>)
    ensures
        valid_sponsor_purpose(p) <==> crate::sponsor_service::purpose_label_spec(p) != p,
        valid_sponsor_purpose(p) <==> p != "OTHER"@
            && exists|i: int| 0 <= i < 8 && #[trigger] crate::validation::SPONSOR_PURPOSES@[i]@ == p,
{
    reveal_strlit("TITLE_SPONSOR");
    reveal_strlit("GOLD_SPONSOR");
    reveal_strlit("SILVER_SPONSOR");
    reveal_strlit("FOOD_PARTNER");
    reveal_strlit("MEDIA_PARTNER");
    reveal_strlit("STALL_VENDOR");
    reveal_strlit("MARKETING_PARTNER");
    reveal_strlit("Title Sponsor");
    reveal_strlit("Gold Sponsor");
    reveal_strlit("Silver Sponsor");
    reveal_strlit("Food Partner");
    reveal_strlit("Media Partner");
    reveal_strlit("Stall Vendor");
    reveal_strlit("Marketing Partner");
    reveal_strlit("OTHER");
    assert("TITLE_SPONSOR"@[1] != "Title Sponsor"@[1]);
    assert("GOLD_SPONSOR"@[1] != "Gold Sponsor"@[1]);
    assert("SILVER_SPONSOR"@[1] != "Silver Sponsor"@[1]);
    assert("FOOD_PARTNER"@[1] != "Food Partner"@[1]);
    assert("MEDIA_PARTNER"@[1] != "Media Partner"@[1]);
    assert("STALL_VENDOR"@[1] != "Stall Vendor"@[1]);
    assert("MARKETING_PARTNER"@[1] != "Marketing Partner"@[1]);
    let l = crate::validation::SPONSOR_PURPOSES@;
    assert(l[0]@ == "TITLE_SPONSOR"@);
    assert(l[1]@ == "GOLD_SPONSOR"@);
    assert(l[2]@ == "SILVER_SPONSOR"@);
    assert(l[3]@ == "FOOD_PARTNER"@);
    assert(l[4]@ == "MEDIA_PARTNER"@);
    assert(l[5]@ == "STALL_VENDOR"@);
    assert(l[6]@ == "MARKETING_PARTNER"@);
    assert(l[7]@ == "OTHER"@);
    if exists|i: int| 0 <= i < 8 && #[trigger] l[i]@ == p {
        let i = choose|i: int| 0 <= i < 8 && #[trigger] l[i]@ == p;
        if i == 0 {} else if i == 1 {} else if i == 2 {} else if i == 3 {} else if i == 4 {}
        else if i == 5 {} else if i == 6 {} else {}
    }
    if valid_sponsor_purpose(p) {
        assert(p.len() != "OTHER"@.len());
        if p == "TITLE_SPONSOR"@ { assert(l[0]@ == p); }
        else if p == "GOLD_SPONSOR"@ { assert(l[1]@ == p); }
        else if p == "SILVER_SPONSOR"@ { assert(l[2]@ == p); }
        else if p == "FOOD_PARTNER"@ { assert(l[3]@ == p); }
        else if p == "MEDIA_PARTNER"@ { assert(l[4]@ == p); }
        else if p == "STALL_VENDOR"@ { assert(l[5]@ == p); }
        else { assert(l[6]@ == p); }
    }
}

impl Clone for PaymentNotes {
    /// A copy with the same notes.
    fn clone(&self) -> (r: Self)
        ensures
            r.pairs() == self.pairs(),
    {
        proof {
            use_type_invariant(self);
        }
        let mut es: Vec<(String, String)> = Vec::new();
        let mut i: usize = 0;
        while i < self.entries.len()
            invariant
                0 <= i <= self.entries@.len(),
                note_views(es@) == note_views(self.entries@).subrange(0, i as int),
            decreases self.entries.len() - i,
        {
            let k = self.entries[i].0.clone();
            let v = self.entries[i].1.clone();
            let ghost before = es@;
            es.push((k, v));
            proof {
                assert(es@ == before.push((k, v)));
                assert(note_views(self.entries@)[i as int] == (self.entries@[i as int].0@, self.entries@[i as int].1@));
                assert(note_views(es@) =~= note_views(before).push((k@, v@)));
                assert(note_views(es@) =~= note_views(self.entries@).subrange(0, i + 1));
            }
            i = i + 1;
        }
        assert(note_views(self.entries@).subrange(0, self.entries@.len() as int) =~= note_views(self.entries@));
        PaymentNotes { entries: es }
    }
}

/// Whether `value` is one of the sponsor purposes.
pub fn is_valid_sponsor_purpose(value: &str) -> (b: bool)
    ensures
        b == valid_sponsor_purpose(value@),
{
    str_eq(value, "TITLE_SPONSOR") || str_eq(value, "GOLD_SPONSOR") || str_eq(value, "SILVER_SPONSOR")
        || str_eq(value, "FOOD_PARTNER") || str_eq(value, "MEDIA_PARTNER")
        || str_eq(value, "STALL_VENDOR") || str_eq(value, "MARKETING_PARTNER")
}

/// The payment mode recorded for a Razorpay payment method on a sponsor
/// payment: net banking is a bank transfer, everything else counts as UPI.
pub open spec fn sponsor_payment_mode(method: Seq<char>) -> Seq<char> {
    if method == "netbanking"@ { "BANK_TRANSFER"@ } else { "UPI"@ }
}

pub fn to_payment_mode(method: &str) -> (r: &'static str)
    ensures
        r@ == sponsor_payment_mode(method@),
{
    if str_eq(method, "netbanking") {
        "BANK_TRANSFER"
    } else {
        "UPI"
    }
}

/// Whether the notes mark a sponsor payment: they carry a valid
/// `sponsorPurpose`.
pub open spec fn sponsor_payment_spec(notes: PaymentNotes) -> bool {
    notes.note("sponsorPurpose"@) matches Some(p) && valid_sponsor_purpose(p)
}

pub fn is_sponsor_payment(notes: &PaymentNotes) -> (b: bool)
    ensures
        b == sponsor_payment_spec(*notes),
{
    match notes.get("sponsorPurpose") {
        Some(p) => is_valid_sponsor_purpose(p.as_str()),
        None => false,
    }
}

/// `s` with every `_` turned into a space.
pub open spec fn underscores_to_spaces(s: Seq<char>) -> Seq<char> {
    s.map_values(|c: char| if c == '_' { ' ' } else { c })
}

pub fn replace_underscores(s: &str) -> (r: String)
    ensures
        r@ == underscores_to_spaces(s@),
{
    let v = chars_of(s);
    let mut r = String::new();
    let mut i: usize = 0;
    while i < v.len()
        invariant
            v@ == s@,
            0 <= i <= v@.len(),
            r@ == underscores_to_spaces(v@.subrange(0, i as int)),
        decreases v.len() - i,
    {
        let c = v[i];
        push_char(&mut r, if c == '_' { ' ' } else { c });
        assert(underscores_to_spaces(v@.subrange(0, i + 1)) =~= underscores_to_spaces(v@.subrange(0, i as int)).push(if c == '_' { ' ' } else { c }));
        i = i + 1;
    }
    assert(v@.subrange(0, v@.len() as int) =~= v@);
    r
}

/// The part of a Razorpay payment event that a sponsor payment records.
#[derive(Debug, Clone)]
pub struct RazorpayPaymentPayload {
    pub razorpay_payment_id: String,
    pub razorpay_order_id: Option<String>,
    /// Amount in paise.
    pub amount_paise: u64,
    /// Payment method: `upi`, `netbanking`, `wallet`, ...
    pub method: String,
    pub upi_vpa: Option<String>,
    pub bank_name: Option<String>,
    pub sender_bank_account: Option<String>,
    pub contact: Option<String>,
    pub email: Option<String>,
    pub notes: PaymentNotes,
}

/// What handling a sponsor payment came to.
#[derive(Debug, Clone)]
pub struct SponsorWebhookResult {
    pub success: bool,
    pub transaction_id: Option<String>,
    pub receipt_number: Option<String>,
    pub error: Option<String>,
    /// The payment had been recorded before.
    pub already_processed: bool,
}

/// The transaction a sponsor payment records.
#[derive(Debug, Clone)]
pub struct SponsorPaymentRecord {
    /// Always `CASH_IN`.
    pub transaction_type: &'static str,
    /// Always `SPONSORSHIP`.
    pub category: &'static str,
    /// The payment's amount, in paise.
    pub amount_paise: u64,
    /// Always `APPROVED`: a captured payment needs no approval.
    pub approval_status: &'static str,
    /// Always `RAZORPAY_WEBHOOK`.
    pub approval_source: &'static str,
    pub sponsor_id: Option<String>,
    pub sponsor_purpose: String,
    /// `Sponsor payment via Razorpay — ` and the purpose in words.
    pub purpose: String,
    pub payment_mode: &'static str,
    pub sender_name: Option<String>,
    pub sender_upi_id: Option<String>,
    pub sender_bank_account: Option<String>,
    pub sender_bank_name: Option<String>,
    pub contact: Option<String>,
}

/// The sender's name: note `sponsorName`, else note `name`.
pub open spec fn sponsor_sender_spec(notes: PaymentNotes) -> Option<Seq<char>> {
    match notes.note("sponsorName"@) {
        Some(n) => Some(n),
        None => notes.note("name"@),
    }
}

/// The message of a sponsor payment whose purpose is missing or invalid.
pub open spec fn invalid_purpose_message(purpose: Option<Seq<char>>) -> Seq<char> {
    "Invalid or missing sponsorPurpose in webhook notes: "@ + match purpose {
        Some(p) => p,
        None => "(none)"@,
    }
}

/// The transaction a captured sponsor payment with purpose `p` records.
pub open spec fn sponsor_record_spec(payload: RazorpayPaymentPayload, p: Seq<char>, rec: SponsorPaymentRecord) -> bool {
    &&& rec.transaction_type@ == "CASH_IN"@
    &&& rec.category@ == "SPONSORSHIP"@
    &&& rec.amount_paise == payload.amount_paise
    &&& rec.approval_status@ == "APPROVED"@
    &&& rec.approval_source@ == "RAZORPAY_WEBHOOK"@
    &&& rec.sponsor_purpose@ == p
    &&& rec.purpose@ == "Sponsor payment via Razorpay — "@ + underscores_to_spaces(p)
    &&& rec.payment_mode@ == sponsor_payment_mode(payload.method@)
    &&& opt_view(rec.sponsor_id) == payload.notes.note("sponsorId"@)
    &&& opt_view(rec.sender_name) == sponsor_sender_spec(payload.notes)
    &&& rec.sender_upi_id == (if rec.payment_mode@ == "UPI"@ { payload.upi_vpa } else { None })
    &&& rec.sender_bank_account == (if rec.payment_mode@ == "BANK_TRANSFER"@ { payload.sender_bank_account } else { None })
    &&& rec.sender_bank_name == (if rec.payment_mode@ == "BANK_TRANSFER"@ { payload.bank_name } else { None })
    &&& rec.contact == payload.contact
}

/// The failed result for a payment whose sponsor purpose note is `purpose`
/// (missing or invalid).
pub open spec fn invalid_purpose_result(res: SponsorWebhookResult, purpose: Option<Seq<char>>) -> bool {
    &&& !res.success && !res.already_processed
    &&& res.transaction_id is None && res.receipt_number is None
    &&& res.error matches Some(e) && e@ == invalid_purpose_message(purpose)
}

/// What a captured sponsor payment records, or the failed result when its
/// notes carry no valid sponsor purpose.
pub fn plan_sponsor_payment(payload: &RazorpayPaymentPayload) -> (r: Result<SponsorPaymentRecord, SponsorWebhookResult>)
    ensures
        match payload.notes.note("sponsorPurpose"@) {
            Some(p) if valid_sponsor_purpose(p) => r matches Ok(rec) && sponsor_record_spec(*payload, p, rec),
            other => r matches Err(res) && invalid_purpose_result(res, other),
        },
{
    let sponsor_purpose = payload.notes.get("sponsorPurpose");
    let purpose = match sponsor_purpose {
        Some(p) => {
            if is_valid_sponsor_purpose(p.as_str()) {
                p
            } else {
                let mut msg = "Invalid or missing sponsorPurpose in webhook notes: ".to_string();
                msg.append(p.as_str());
                return Err(SponsorWebhookResult {
                    success: false,
                    transaction_id: None,
                    receipt_number: None,
                    error: Some(msg),
                    already_processed: false,
                });
            }
        },
        None => {
            let mut msg = "Invalid or missing sponsorPurpose in webhook notes: ".to_string();
            msg.append("(none)");
            return Err(SponsorWebhookResult {
                success: false,
                transaction_id: None,
                receipt_number: None,
                error: Some(msg),
                already_processed: false,
            });
        },
    };
    let sponsor_id = payload.notes.get("sponsorId");
    let sender_name = match payload.notes.get("sponsorName") {
        Some(n) => Some(n),
        None => payload.notes.get("name"),
    };
    let payment_mode = to_payment_mode(payload.method.as_str());
    let is_upi = str_eq(payment_mode, "UPI");
    let is_bank = str_eq(payment_mode, "BANK_TRANSFER");
    let mut text = "Sponsor payment via Razorpay — ".to_string();
    let words = replace_underscores(purpose.as_str());
    text.append(words.as_str());
    Ok(SponsorPaymentRecord {
        transaction_type: "CASH_IN",
        category: "SPONSORSHIP",
        amount_paise: payload.amount_paise,
        approval_status: "APPROVED",
        approval_source: "RAZORPAY_WEBHOOK",
        sponsor_id,
        sponsor_purpose: purpose,
        purpose: text,
        payment_mode,
        sender_name,
        sender_upi_id: if is_upi { payload.upi_vpa.clone() } else { None },
        sender_bank_account: if is_bank { payload.sender_bank_account.clone() } else { None },
        sender_bank_name: if is_bank { payload.bank_name.clone() } else { None },
        contact: payload.contact.clone(),
    })
}

/// The result for a payment recorded before as transaction `transaction_id`
/// with receipt `receipt_number`: a success that records nothing new.
pub fn already_processed_result(transaction_id: String, receipt_number: Option<String>) -> (r: SponsorWebhookResult)
    ensures
        r.success,
        r.already_processed,
        r.transaction_id == Some(transaction_id),
        r.receipt_number == receipt_number,
        r.error is None,
{
    SponsorWebhookResult {
        success: true,
        transaction_id: Some(transaction_id),
        receipt_number,
        error: None,
        already_processed: true,
    }
}

/// Handles a captured sponsor payment given the transaction already
/// recorded for its payment id, if any (`existing`: its id and receipt
/// number). A payment without a valid sponsor purpose fails; one recorded
/// before answers that, recording nothing; otherwise its transaction is
/// recorded.
pub fn sponsor_payment_step(payload: &RazorpayPaymentPayload, existing: Option<(String, Option<String>)>)
    -> (r: Result<SponsorPaymentRecord, SponsorWebhookResult>)
    ensures
        match payload.notes.note("sponsorPurpose"@) {
            Some(p) if valid_sponsor_purpose(p) => match existing {
                Some((id, rn)) => r matches Err(res) && res.success && res.already_processed
                    && res.transaction_id == Some(id) && res.receipt_number == rn && res.error is None,
                None => r matches Ok(rec) && sponsor_record_spec(*payload, p, rec),
            },
            other => r matches Err(res) && invalid_purpose_result(res, other),
        },
{
    let record = plan_sponsor_payment(payload)?;
    match existing {
        Some((id, rn)) => Err(already_processed_result(id, rn)),
        None => Ok(record),
    }
}

} // verus!
