//! Sponsor decisions: purpose labels, which sponsor changes are allowed, and
//! when a sponsor payment link has expired.

use vstd::prelude::*;
use crate::text::{chars_of, str_eq};

verus! {

broadcast use vstd::string::group_string_axioms;

/// Why a sponsor operation is refused.
#[derive(Debug, Clone, Copy, PartialEq, Eq, Structural)]
pub enum SponsorServiceError {
    SponsorNotFound,
    LinkNotFound,
    LinkAlreadyInactive,
    HasTransactions,
    NoFieldsProvided,
}

impl SponsorServiceError {
    /// The error's message.
    pub fn message(&self) -> (r: &'static str)
        ensures
            r@ == match self {
                SponsorServiceError::SponsorNotFound => "Sponsor not found"@,
                SponsorServiceError::LinkNotFound => "Sponsor link not found"@,
                SponsorServiceError::LinkAlreadyInactive => "Sponsor link is already inactive"@,
                SponsorServiceError::HasTransactions => "Cannot delete sponsor with existing transactions. Deactivate sponsor links instead."@,
                SponsorServiceError::NoFieldsProvided => "No fields provided for update"@,
            },
    {
        match self {
            SponsorServiceError::SponsorNotFound => "Sponsor not found",
            SponsorServiceError::LinkNotFound => "Sponsor link not found",
            SponsorServiceError::LinkAlreadyInactive => "Sponsor link is already inactive",
            SponsorServiceError::HasTransactions => "Cannot delete sponsor with existing transactions. Deactivate sponsor links instead.",
            SponsorServiceError::NoFieldsProvided => "No fields provided for update",
        }
    }
}

/// Caller identity for logging.
#[derive(Debug, Clone)]
pub struct ActorInfo {
    pub id: String,
    pub name: String,
}

/// A sponsor to create.
#[derive(Debug, Clone)]
pub struct CreateSponsorInput {
    pub name: String,
    pub phone: String,
    pub email: String,
    pub company: Option<String>,
}

/// Sponsor fields to change; `company: Some(None)` clears the company.
#[derive(Debug, Clone, Default)]
pub struct UpdateSponsorInput {
    pub name: Option<String>,
    pub phone: Option<String>,
    pub email: Option<String>,
    pub company: Option<Option<String>>,
}

/// The name of a sponsor purpose, for people.
pub open spec fn purpose_label_spec(purpose: Seq<char>) -> Seq<char> {
    if purpose == "TITLE_SPONSOR"@ {
        "Title Sponsor"@
    } else if purpose == "GOLD_SPONSOR"@ {
        "Gold Sponsor"@
    } else if purpose == "SILVER_SPONSOR"@ {
        "Silver Sponsor"@
    } else if purpose == "FOOD_PARTNER"@ {
        "Food Partner"@
    } else if purpose == "MEDIA_PARTNER"@ {
        "Media Partner"@
    } else if purpose == "STALL_VENDOR"@ {
        "Stall Vendor"@
    } else if purpose == "MARKETING_PARTNER"@ {
        "Marketing Partner"@
    } else {
        purpose
    }
}

/// The label of a sponsor purpose; an unknown purpose is shown as it is.
pub fn sponsor_purpose_label(purpose: &str) -> (r: &str)
    ensures
        r@ == purpose_label_spec(purpose@),
{
    if str_eq(purpose, "TITLE_SPONSOR") {
        "Title Sponsor"
    } else if str_eq(purpose, "GOLD_SPONSOR") {
        "Gold Sponsor"
    } else if str_eq(purpose, "SILVER_SPONSOR") {
        "Silver Sponsor"
    } else if str_eq(purpose, "FOOD_PARTNER") {
        "Food Partner"
    } else if str_eq(purpose, "MEDIA_PARTNER") {
        "Media Partner"
    } else if str_eq(purpose, "STALL_VENDOR") {
        "Stall Vendor"
    } else if str_eq(purpose, "MARKETING_PARTNER") {
        "Marketing Partner"
    } else {
        purpose
    }
}

/// An update must change something.
pub fn check_update_fields(data: &UpdateSponsorInput) -> (r: Result<(), SponsorServiceError>)
    ensures
        r == if data.name is Some || data.phone is Some || data.email is Some || data.company is Some {
            Ok::<(), SponsorServiceError>(())
        } else {
            Err::<(), SponsorServiceError>(SponsorServiceError::NoFieldsProvided)
        },
{
    if data.name.is_some() || data.phone.is_some() || data.email.is_some() || data.company.is_some() {
        Ok(())
    } else {
        Err(SponsorServiceError::NoFieldsProvided)
    }
}

/// A sponsor with transactions cannot be deleted.
pub fn check_deletable(transaction_count: i64) -> (r: Result<(), SponsorServiceError>)
    ensures
        r == if transaction_count > 0 {
            Err::<(), SponsorServiceError>(SponsorServiceError::HasTransactions)
        } else {
            Ok::<(), SponsorServiceError>(())
        },
{
    if transaction_count > 0 { Err(SponsorServiceError::HasTransactions) } else { Ok(()) }
}

/// Only an active link can be deactivated.
pub fn check_link_active(is_active: bool) -> (r: Result<(), SponsorServiceError>)
    ensures
        r == if is_active {
            Ok::<(), SponsorServiceError>(())
        } else {
            Err::<(), SponsorServiceError>(SponsorServiceError::LinkAlreadyInactive)
        },
{
    if is_active { Ok(()) } else { Err(SponsorServiceError::LinkAlreadyInactive) }
}

/// `a < b` on text: the first differing character decides, and a proper
/// prefix comes first (the order of `str`, which is that of the code points).
pub open spec fn text_less(a: Seq<char>, b: Seq<char>) -> bool
    decreases a.len(),
{
    if a.len() == 0 {
        b.len() > 0
    } else if b.len() == 0 {
        false
    } else if a[0] != b[0] {
        (a[0] as u32) < (b[0] as u32)
    } else {
        text_less(a.drop_first(), b.drop_first())
    }
}

proof fn lemma_text_less_from(a: Seq<char>, b: Seq<char>, i: int)
    requires
        0 <= i <= a.len(),
        i <= b.len(),
        forall|j: int| 0 <= j < i ==> a[j] == b[j],
    ensures
        text_less(a, b) == text_less(a.subrange(i, a.len() as int), b.subrange(i, b.len() as int)),
    decreases i,
{
    if i > 0 {
        let a1 = a.drop_first();
        let b1 = b.drop_first();
        assert forall|j: int| 0 <= j < i - 1 implies a1[j] == b1[j] by {
            assert(a[j + 1] == b[j + 1]);
        }
        lemma_text_less_from(a1, b1, i - 1);
        assert(a1.subrange(i - 1, a1.len() as int) =~= a.subrange(i, a.len() as int));
        assert(b1.subrange(i - 1, b1.len() as int) =~= b.subrange(i, b.len() as int));
    } else {
        assert(a.subrange(0, a.len() as int) =~= a);
        assert(b.subrange(0, b.len() as int) =~= b);
    }
}

/// Whether `a < b` as text.
pub fn text_lt(a: &str, b: &str) -> (r: bool)
    ensures
        r == text_less(a@, b@),
{
    let av = chars_of(a);
    let bv = chars_of(b);
    let mut i: usize = 0;
    while i < av.len() && i < bv.len() && av[i] == bv[i]
        invariant
            av@ == a@,
            bv@ == b@,
            i <= av@.len(),
            i <= bv@.len(),
            forall|j: int| 0 <= j < i ==> av@[j] == bv@[j],
        decreases av.len() - i,
    {
        i = i + 1;
    }
    proof {
        lemma_text_less_from(av@, bv@, i as int);
        let ra = av@.subrange(i as int, av@.len() as int);
        let rb = bv@.subrange(i as int, bv@.len() as int);
        if i < av@.len() && i < bv@.len() {
            assert(ra[0] == av@[i as int]);
            assert(rb[0] == bv@[i as int]);
        }
    }
    if i == av.len() {
        i < bv.len()
    } else if i == bv.len() {
        false
    } else {
        (av[i] as u32) < (bv[i] as u32)
    }
}

/// A link has expired when its expiry timestamp comes before `now` (both
/// `YYYY-MM-DDTHH:MM:SSZ`); a link without expiry never does.
pub fn link_expired(expires_at: Option<&str>, now: &str) -> (r: bool)
    ensures
        r == match expires_at {
            Some(e) => text_less(e@, now@),
            None => false,
        },
{
    match expires_at {
        Some(e) => text_lt(e, now),
        None => false,
    }
}

/// The purpose stored with a link, `OTHER` when there is none.
pub fn link_purpose(stored: Option<String>) -> (r: String)
    ensures
        r@ == match stored {
            Some(p) => p@,
            None => "OTHER"@,
        },
{
    match stored {
        Some(p) => p,
        None => "OTHER".to_string(),
    }
}

/// The public address of a sponsor link.
pub fn sponsor_link_url(app_url: &str, token: &str) -> (r: String)
    ensures
        r@ == app_url@ + "/sponsor/"@ + token@,
{
    let mut r = app_url.to_string();
    r.append("/sponsor/");
    r.append(token);
    r
}

/// The activity description of a new sponsor.
pub fn sponsor_created_description(actor_name: &str, sponsor_name: &str, company: Option<&str>) -> (r: String)
    ensures
        r@ == actor_name@ + " created sponsor: "@ + sponsor_name@ + match company {
            Some(c) => " ("@ + c@ + ")"@,
            None => Seq::<char>::empty(),
        },
{
    let mut r = actor_name.to_string();
    r.append(" created sponsor: ");
    r.append(sponsor_name);
    match company {
        Some(c) => {
            r.append(" (");
            r.append(c);
            r.append(")");
        },
        None => {},
    }
    r
}

} // verus!
