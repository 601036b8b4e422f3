//! Roles (ADMIN > OPERATOR > ORGANISER > MEMBER) and route permissions.

use vstd::prelude::*;
use crate::text::{ascii_upper_char, chars_of, str_eq, to_upper, unicode_upper};
use vstd::utf8::is_ascii_chars;

verus! {

broadcast use vstd::string::group_string_axioms;

#[derive(Debug, Clone, Copy, PartialEq, Eq, Hash, Structural)]
pub enum Role {
    Admin,
    Operator,
    Organiser,
    Member,
}

/// The canonical label of a role.
pub open spec fn role_label(r: Role) -> Seq<char> {
    match r {
        Role::Admin => "ADMIN"@,
        Role::Operator => "OPERATOR"@,
        Role::Organiser => "ORGANISER"@,
        Role::Member => "MEMBER"@,
    }
}

/// The role whose canonical label is exactly `l`.
pub open spec fn role_of_label(l: Seq<char>) -> Option<Role> {
    if l == "ADMIN"@ {
        Some(Role::Admin)
    } else if l == "OPERATOR"@ {
        Some(Role::Operator)
    } else if l == "ORGANISER"@ {
        Some(Role::Organiser)
    } else if l == "MEMBER"@ {
        Some(Role::Member)
    } else {
        None
    }
}

/// Privilege level: higher values have more privileges.
pub open spec fn role_level(r: Role) -> nat {
    match r {
        Role::Admin => 4,
        Role::Operator => 3,
        Role::Organiser => 2,
        Role::Member => 1,
    }
}

impl Role {
    /// Parses a role label, ignoring case.
    pub fn from_str(s: &str) -> (r: Option<Role>)
        ensures
            r == role_of_label(unicode_upper(s@)),
            is_ascii_chars(s@) ==> r == role_of_label(s@.map_values(|c: char| ascii_upper_char(c))),
    {
        let u = to_upper(s);
        let u = u.as_str();
        if str_eq(u, "ADMIN") {
            Some(Role::Admin)
        } else if str_eq(u, "OPERATOR") {
            Some(Role::Operator)
        } else if str_eq(u, "ORGANISER") {
            Some(Role::Organiser)
        } else if str_eq(u, "MEMBER") {
            Some(Role::Member)
        } else {
            None
        }
    }

    /// The canonical upper-case label.
    pub fn as_str(self) -> (s: &'static str)
        ensures
            s@ == role_label(self),
    {
        match self {
            Role::Admin => "ADMIN",
            Role::Operator => "OPERATOR",
            Role::Organiser => "ORGANISER",
            Role::Member => "MEMBER",
        }
    }

    /// Hierarchy level.
    pub fn level(self) -> (l: u8)
        ensures
            l as nat == role_level(self),
    {
        match self {
            Role::Admin => 4,
            Role::Operator => 3,
            Role::Organiser => 2,
            Role::Member => 1,
        }
    }

    /// Whether `self` has at least the privileges of `other`.
    pub fn has_at_least(self, other: Role) -> (b: bool)
        ensures
            b == (role_level(self) >= role_level(other)),
    {
        self.level() >= other.level()
    }
}

/// Parsing the canonical label of a role gives the role back.
pub proof fn lemma_role_label_round_trip(r: Role)
    ensures
        role_of_label(role_label(r)) == Some(r),
{
    reveal_strlit("ADMIN");
    reveal_strlit("OPERATOR");
    reveal_strlit("ORGANISER");
    reveal_strlit("MEMBER");
    assert("ADMIN"@.len() == 5);
    assert("OPERATOR"@.len() == 8);
    assert("ORGANISER"@.len() == 9);
    assert("MEMBER"@.len() == 6);
}

/// Reading the canonical label of a role back (upper-casing it first, as
/// `Role::from_str` does for ASCII text) gives the role.
pub proof fn lemma_role_from_str_round_trip(r: Role)
    ensures
        is_ascii_chars(role_label(r)),
        role_of_label(role_label(r).map_values(|c: char| ascii_upper_char(c))) == Some(r),
{
    lemma_role_label_round_trip(r);
    let l = role_label(r);
    reveal_strlit("ADMIN");
    reveal_strlit("OPERATOR");
    reveal_strlit("ORGANISER");
    reveal_strlit("MEMBER");
    assert(l.map_values(|c: char| ascii_upper_char(c)) =~= l);
}

/// The privilege order is total and transitive.
pub proof fn lemma_has_at_least_order(a: Role, b: Role, c: Role)
    ensures
        role_level(a) >= role_level(a),
        role_level(a) >= role_level(b) || role_level(b) >= role_level(a),
        role_level(a) >= role_level(b) && role_level(b) >= role_level(c) ==> role_level(a) >= role_level(c),
        role_level(a) >= role_level(b) && role_level(b) >= role_level(a) ==> a == b,
{
}

// ---------------------------------------------------------------------------
// Route permissions
// ---------------------------------------------------------------------------

pub open spec fn admin_only() -> Seq<Role> {
    seq![Role::Admin]
}

pub open spec fn admin_operator() -> Seq<Role> {
    seq![Role::Admin, Role::Operator]
}

pub open spec fn staff() -> Seq<Role> {
    seq![Role::Admin, Role::Operator, Role::Organiser]
}

pub open spec fn everyone() -> Seq<Role> {
    seq![Role::Admin, Role::Operator, Role::Organiser, Role::Member]
}

/// Path prefixes and the roles allowed under each.
pub open spec fn route_table() -> Seq<(Seq<char>, Seq<Role>)> {
    seq![
        ("/dashboard/approvals"@, admin_only()),
        ("/api/approvals"@, admin_only()),
        ("/api/cron"@, admin_only()),
        ("/api/notifications"@, admin_only()),
        ("/dashboard/sponsorship"@, admin_operator()),
        ("/api/sponsors"@, admin_operator()),
        ("/api/sponsor-links"@, admin_operator()),
        ("/api/receipts"@, admin_operator()),
        ("/dashboard/members"@, staff()),
        ("/dashboard/cash"@, staff()),
        ("/dashboard/audit-log"@, staff()),
        ("/dashboard/activity-log"@, staff()),
        ("/api/members"@, staff()),
        ("/api/transactions"@, staff()),
        ("/api/audit-log"@, staff()),
        ("/api/activity-log"@, staff()),
        ("/dashboard/my-membership"@, everyone()),
        ("/dashboard"@, everyone()),
        ("/api/my-membership"@, everyone()),
        ("/api/memberships"@, everyone()),
        ("/api/payments/create-order"@, everyone()),
        ("/api/payments/verify"@, everyone()),
        ("/api/dashboard/stats"@, everyone()),
        ("/api/auth/change-password"@, everyone()),
    ]
}

/// The view of a table entry.
pub open spec fn entry_view(e: (&'static str, Vec<Role>)) -> (Seq<char>, Seq<Role>) {
    (e.0@, e.1@)
}

fn push_entry(
    t: &mut Vec<(&'static str, Vec<Role>)>,
    prefix: &'static str,
    roles: Vec<Role>,
)
    ensures
        final(t)@ == old(t)@.push((prefix, roles)),
{
    t.push((prefix, roles));
}

fn roles_admin_only() -> (v: Vec<Role>)
    ensures
        v@ == admin_only(),
{
    vec![Role::Admin]
}

fn roles_admin_operator() -> (v: Vec<Role>)
    ensures
        v@ == admin_operator(),
{
    vec![Role::Admin, Role::Operator]
}

fn roles_staff() -> (v: Vec<Role>)
    ensures
        v@ == staff(),
{
    vec![Role::Admin, Role::Operator, Role::Organiser]
}

fn roles_everyone() -> (v: Vec<Role>)
    ensures
        v@ == everyone(),
{
    vec![Role::Admin, Role::Operator, Role::Organiser, Role::Member]
}

/// The route-to-roles table. Keys are path prefixes; the longest matching
/// prefix decides (see `can_access_route`).
pub fn route_permissions() -> (t: Vec<(&'static str, Vec<Role>)>)
    ensures
        t@.map_values(|e: (&'static str, Vec<Role>)| entry_view(e)) == route_table(),
{
    let mut t: Vec<(&'static str, Vec<Role>)> = Vec::new();
    push_entry(&mut t, "/dashboard/approvals", roles_admin_only());
    push_entry(&mut t, "/api/approvals", roles_admin_only());
    push_entry(&mut t, "/api/cron", roles_admin_only());
    push_entry(&mut t, "/api/notifications", roles_admin_only());
    push_entry(&mut t, "/dashboard/sponsorship", roles_admin_operator());
    push_entry(&mut t, "/api/sponsors", roles_admin_operator());
    push_entry(&mut t, "/api/sponsor-links", roles_admin_operator());
    push_entry(&mut t, "/api/receipts", roles_admin_operator());
    push_entry(&mut t, "/dashboard/members", roles_staff());
    push_entry(&mut t, "/dashboard/cash", roles_staff());
    push_entry(&mut t, "/dashboard/audit-log", roles_staff());
    push_entry(&mut t, "/dashboard/activity-log", roles_staff());
    push_entry(&mut t, "/api/members", roles_staff());
    push_entry(&mut t, "/api/transactions", roles_staff());
    push_entry(&mut t, "/api/audit-log", roles_staff());
    push_entry(&mut t, "/api/activity-log", roles_staff());
    push_entry(&mut t, "/dashboard/my-membership", roles_everyone());
    push_entry(&mut t, "/dashboard", roles_everyone());
    push_entry(&mut t, "/api/my-membership", roles_everyone());
    push_entry(&mut t, "/api/memberships", roles_everyone());
    push_entry(&mut t, "/api/payments/create-order", roles_everyone());
    push_entry(&mut t, "/api/payments/verify", roles_everyone());
    push_entry(&mut t, "/api/dashboard/stats", roles_everyone());
    push_entry(&mut t, "/api/auth/change-password", roles_everyone());
    assert(t@.map_values(|e: (&'static str, Vec<Role>)| entry_view(e)) =~= route_table());
    t
}

/// Whether `p` is a prefix of `s`.
pub open spec fn is_prefix(p: Seq<char>, s: Seq<char>) -> bool {
    p.len() <= s.len() && s.subrange(0, p.len() as int) == p
}

/// Index of the longest key among the first `n` entries that is a prefix of
/// `route` (the earliest one on a tie), if any.
pub open spec fn best_match_upto(table: Seq<(Seq<char>, Seq<Role>)>, route: Seq<char>, n: int) -> Option<int>
    decreases n,
{
    if n <= 0 {
        None
    } else {
        let prev = best_match_upto(table, route, n - 1);
        let i = n - 1;
        if is_prefix(table[i].0, route) && (match prev {
            Some(j) => table[i].0.len() > table[j].0.len(),
            None => true,
        }) {
            Some(i)
        } else {
            prev
        }
    }
}

/// Index of the longest key of `table` that is a prefix of `route`, if any.
pub open spec fn best_match(table: Seq<(Seq<char>, Seq<Role>)>, route: Seq<char>) -> Option<int> {
    best_match_upto(table, route, table.len() as int)
}

/// Whether `role` may access `route` under `table`: the roles of the longest
/// matching prefix decide; a route that no prefix matches is open to every
/// authenticated user.
pub open spec fn can_access_spec(table: Seq<(Seq<char>, Seq<Role>)>, role: Role, route: Seq<char>) -> bool {
    match best_match(table, route) {
        Some(i) => table[i].1.contains(role),
        None => true,
    }
}

proof fn lemma_best_match_upto(table: Seq<(Seq<char>, Seq<Role>)>, route: Seq<char>, n: int)
    requires
        0 <= n <= table.len(),
    ensures
        match best_match_upto(table, route, n) {
            Some(i) => 0 <= i < n && is_prefix(table[i].0, route)
                && forall|j: int| 0 <= j < n && is_prefix(#[trigger] table[j].0, route)
                    ==> table[j].0.len() <= table[i].0.len(),
            None => forall|j: int| 0 <= j < n ==> !is_prefix(#[trigger] table[j].0, route),
        },
    decreases n,
{
    if n > 0 {
        lemma_best_match_upto(table, route, n - 1);
    }
}

/// The entry that decides a route is a matching prefix, and no matching
/// prefix is longer; when none decides, no key is a prefix of the route.
pub proof fn lemma_best_match_is_longest(table: Seq<(Seq<char>, Seq<Role>)>, route: Seq<char>)
    ensures
        match best_match(table, route) {
            Some(i) => 0 <= i < table.len() && is_prefix(table[i].0, route)
                && forall|j: int| 0 <= j < table.len() && is_prefix(#[trigger] table[j].0, route)
                    ==> table[j].0.len() <= table[i].0.len(),
            None => forall|j: int| 0 <= j < table.len() ==> !is_prefix(#[trigger] table[j].0, route),
        },
{
    lemma_best_match_upto(table, route, table.len() as int);
}

/// The roles listed for a prefix are those at or above some level.
pub open spec fn roles_from_level(roles: Seq<Role>, level: nat) -> bool {
    forall|r: Role| #[trigger] roles.contains(r) <==> role_level(r) >= level
}

proof fn lemma_role_lists()
    ensures
        roles_from_level(admin_only(), 4),
        roles_from_level(admin_operator(), 3),
        roles_from_level(staff(), 2),
        roles_from_level(everyone(), 1),
{
    assert forall|r: Role| #[trigger] admin_only().contains(r) <==> role_level(r) >= 4 by {
        if role_level(r) >= 4 { assert(admin_only()[0] == r); }
    }
    assert forall|r: Role| #[trigger] admin_operator().contains(r) <==> role_level(r) >= 3 by {
        match r {
            Role::Admin => assert(admin_operator()[0] == r),
            Role::Operator => assert(admin_operator()[1] == r),
            _ => {
                assert forall|i: int| 0 <= i < admin_operator().len() implies admin_operator()[i] != r by {
                    if i == 0 {} else {}
                }
            },
        }
    }
    assert forall|r: Role| #[trigger] staff().contains(r) <==> role_level(r) >= 2 by {
        match r {
            Role::Admin => assert(staff()[0] == r),
            Role::Operator => assert(staff()[1] == r),
            Role::Organiser => assert(staff()[2] == r),
            Role::Member => {
                assert forall|i: int| 0 <= i < staff().len() implies staff()[i] != r by {
                    if i == 0 {} else if i == 1 {} else {}
                }
            },
        }
    }
    assert forall|r: Role| #[trigger] everyone().contains(r) <==> role_level(r) >= 1 by {
        match r {
            Role::Admin => assert(everyone()[0] == r),
            Role::Operator => assert(everyone()[1] == r),
            Role::Organiser => assert(everyone()[2] == r),
            Role::Member => assert(everyone()[3] == r),
        }
    }
}

proof fn lemma_table_levels(i: int)
    requires
        0 <= i < route_table().len(),
    ensures
        exists|level: nat| 1 <= level <= 4 && roles_from_level(#[trigger] route_table()[i].1, level),
{
    lemma_role_lists();
    let t = route_table();
    if i < 4 {
        assert(t[i].1 == admin_only());
        assert(roles_from_level(t[i].1, 4));
    } else if i < 8 {
        assert(t[i].1 == admin_operator());
        assert(roles_from_level(t[i].1, 3));
    } else if i < 16 {
        assert(t[i].1 == staff());
        assert(roles_from_level(t[i].1, 2));
    } else {
        assert(t[i].1 == everyone());
        assert(roles_from_level(t[i].1, 1));
    }
}

/// An admin may access every route.
pub proof fn lemma_admin_reaches_every_route(route: Seq<char>)
    ensures
        can_access_spec(route_table(), Role::Admin, route),
{
    lemma_best_match_is_longest(route_table(), route);
    if let Some(i) = best_match(route_table(), route) {
        lemma_table_levels(i);
        let level = choose|level: nat| 1 <= level <= 4 && roles_from_level(#[trigger] route_table()[i].1, level);
        assert(route_table()[i].1.contains(Role::Admin));
    }
}

/// Access is upward-closed: a role that may access a route lets every role
/// with at least its privileges access it too.
pub proof fn lemma_access_upward_closed(route: Seq<char>, role: Role, higher: Role)
    requires
        can_access_spec(route_table(), role, route),
        role_level(higher) >= role_level(role),
    ensures
        can_access_spec(route_table(), higher, route),
{
    lemma_best_match_is_longest(route_table(), route);
    if let Some(i) = best_match(route_table(), route) {
        lemma_table_levels(i);
        let level = choose|level: nat| 1 <= level <= 4 && roles_from_level(#[trigger] route_table()[i].1, level);
        assert(route_table()[i].1.contains(role));
        assert(route_table()[i].1.contains(higher));
    }
}


// ---------------------------------------------------------------------------
// Which roles each listed prefix admits
// ---------------------------------------------------------------------------

/// `p` is a prefix of `s`, decided character by character.
spec fn prefix_by_chars(p: Seq<char>, s: Seq<char>) -> bool
    decreases p.len(),
{
    if p.len() == 0 {
        true
    } else {
        s.len() > 0 && p[0] == s[0] && prefix_by_chars(p.drop_first(), s.drop_first())
    }
}

proof fn lemma_prefix_by_chars(p: Seq<char>, s: Seq<char>)
    ensures
        prefix_by_chars(p, s) == is_prefix(p, s),
    decreases p.len(),
{
    if p.len() == 0 {
        assert(s.subrange(0, 0) =~= p);
    } else if s.len() == 0 {
    } else {
        let p1 = p.drop_first();
        let s1 = s.drop_first();
        lemma_prefix_by_chars(p1, s1);
        if is_prefix(p, s) {
            assert(s[0] == s.subrange(0, p.len() as int)[0]);
            assert(s1.subrange(0, p1.len() as int) =~= s.subrange(0, p.len() as int).drop_first());
        }
        if p[0] == s[0] && is_prefix(p1, s1) {
            assert forall|k: int| 0 <= k < p.len() implies #[trigger] s.subrange(0, p.len() as int)[k] == p[k] by {
                if k > 0 {
                    assert(s1.subrange(0, p1.len() as int)[k - 1] == p1[k - 1]);
                }
            }
            assert(s.subrange(0, p.len() as int) =~= p);
        }
    }
}

/// Two prefixes of one route: the shorter is a prefix of the longer.
proof fn lemma_prefixes_nest(a: Seq<char>, b: Seq<char>, route: Seq<char>)
    requires
        is_prefix(a, route),
        is_prefix(b, route),
        a.len() <= b.len(),
    ensures
        is_prefix(a, b),
{
    assert(b.subrange(0, a.len() as int) =~= route.subrange(0, a.len() as int));
    assert(route.subrange(0, a.len() as int) =~= route.subrange(0, b.len() as int).subrange(0, a.len() as int));
}

/// A route under a prefix that no other key of the table extends is decided
/// by that prefix's roles.
proof fn lemma_decided_by(route: Seq<char>, i: int)
    requires
        0 <= i < route_table().len(),
        is_prefix(route_table()[i].0, route),
        forall|j: int| 0 <= j < route_table().len() && j != i && is_prefix(route_table()[i].0, #[trigger] route_table()[j].0)
            ==> !is_prefix(route_table()[j].0, route),
    ensures
        forall|role: Role| #[trigger] can_access_spec(route_table(), role, route) == route_table()[i].1.contains(role),
{
    let t = route_table();
    lemma_best_match_is_longest(t, route);
    match best_match(t, route) {
        Some(b) => {
            assert(t[i].0.len() <= t[b].0.len());
            if b != i {
                lemma_prefixes_nest(t[i].0, t[b].0, route);
                assert(false);
            }
        },
        None => {
            assert(!is_prefix(t[i].0, route));
        },
    }
}


proof fn lemma_key_0_unextended()
    ensures
        forall|j: int| 0 <= j < route_table().len() && j != 0 ==> !is_prefix(route_table()[0].0, #[trigger] route_table()[j].0),
{
    reveal_strlit("/dashboard/approvals");
    reveal_strlit("/api/approvals");
    reveal_strlit("/api/cron");
    reveal_strlit("/api/notifications");
    reveal_strlit("/dashboard/sponsorship");
    reveal_strlit("/api/sponsors");
    reveal_strlit("/api/sponsor-links");
    reveal_strlit("/api/receipts");
    reveal_strlit("/dashboard/members");
    reveal_strlit("/dashboard/cash");
    reveal_strlit("/dashboard/audit-log");
    reveal_strlit("/dashboard/activity-log");
    reveal_strlit("/api/members");
    reveal_strlit("/api/transactions");
    reveal_strlit("/api/audit-log");
    reveal_strlit("/api/activity-log");
    reveal_strlit("/dashboard/my-membership");
    reveal_strlit("/dashboard");
    reveal_strlit("/api/my-membership");
    reveal_strlit("/api/memberships");
    reveal_strlit("/api/payments/create-order");
    reveal_strlit("/api/payments/verify");
    reveal_strlit("/api/dashboard/stats");
    reveal_strlit("/api/auth/change-password");
    reveal_with_fuel(prefix_by_chars, 27);
    let t = route_table();
    assert forall|j: int| 0 <= j < t.len() && j != 0 implies !prefix_by_chars(t[0].0, #[trigger] t[j].0) by {
        if j == 0 {} else if j == 1 {} else if j == 2 {} else if j == 3 {} else if j == 4 {} else if j == 5 {} else if j == 6 {} else if j == 7 {} else if j == 8 {} else if j == 9 {} else if j == 10 {} else if j == 11 {} else if j == 12 {} else if j == 13 {} else if j == 14 {} else if j == 15 {} else if j == 16 {} else if j == 17 {} else if j == 18 {} else if j == 19 {} else if j == 20 {} else if j == 21 {} else if j == 22 {} else {}
    }
    assert forall|j: int| 0 <= j < t.len() && j != 0 implies !is_prefix(t[0].0, #[trigger] t[j].0) by {
        lemma_prefix_by_chars(t[0].0, t[j].0);
    }
}


proof fn lemma_key_1_unextended()
    ensures
        forall|j: int| 0 <= j < route_table().len() && j != 1 ==> !is_prefix(route_table()[1].0, #[trigger] route_table()[j].0),
{
    reveal_strlit("/dashboard/approvals");
    reveal_strlit("/api/approvals");
    reveal_strlit("/api/cron");
    reveal_strlit("/api/notifications");
    reveal_strlit("/dashboard/sponsorship");
    reveal_strlit("/api/sponsors");
    reveal_strlit("/api/sponsor-links");
    reveal_strlit("/api/receipts");
    reveal_strlit("/dashboard/members");
    reveal_strlit("/dashboard/cash");
    reveal_strlit("/dashboard/audit-log");
    reveal_strlit("/dashboard/activity-log");
    reveal_strlit("/api/members");
    reveal_strlit("/api/transactions");
    reveal_strlit("/api/audit-log");
    reveal_strlit("/api/activity-log");
    reveal_strlit("/dashboard/my-membership");
    reveal_strlit("/dashboard");
    reveal_strlit("/api/my-membership");
    reveal_strlit("/api/memberships");
    reveal_strlit("/api/payments/create-order");
    reveal_strlit("/api/payments/verify");
    reveal_strlit("/api/dashboard/stats");
    reveal_strlit("/api/auth/change-password");
    reveal_with_fuel(prefix_by_chars, 27);
    let t = route_table();
    assert forall|j: int| 0 <= j < t.len() && j != 1 implies !prefix_by_chars(t[1].0, #[trigger] t[j].0) by {
        if j == 0 {} else if j == 1 {} else if j == 2 {} else if j == 3 {} else if j == 4 {} else if j == 5 {} else if j == 6 {} else if j == 7 {} else if j == 8 {} else if j == 9 {} else if j == 10 {} else if j == 11 {} else if j == 12 {} else if j == 13 {} else if j == 14 {} else if j == 15 {} else if j == 16 {} else if j == 17 {} else if j == 18 {} else if j == 19 {} else if j == 20 {} else if j == 21 {} else if j == 22 {} else {}
    }
    assert forall|j: int| 0 <= j < t.len() && j != 1 implies !is_prefix(t[1].0, #[trigger] t[j].0) by {
        lemma_prefix_by_chars(t[1].0, t[j].0);
    }
}


proof fn lemma_key_2_unextended()
    ensures
        forall|j: int| 0 <= j < route_table().len() && j != 2 ==> !is_prefix(route_table()[2].0, #[trigger] route_table()[j].0),
{
    reveal_strlit("/dashboard/approvals");
    reveal_strlit("/api/approvals");
    reveal_strlit("/api/cron");
    reveal_strlit("/api/notifications");
    reveal_strlit("/dashboard/sponsorship");
    reveal_strlit("/api/sponsors");
    reveal_strlit("/api/sponsor-links");
    reveal_strlit("/api/receipts");
    reveal_strlit("/dashboard/members");
    reveal_strlit("/dashboard/cash");
    reveal_strlit("/dashboard/audit-log");
    reveal_strlit("/dashboard/activity-log");
    reveal_strlit("/api/members");
    reveal_strlit("/api/transactions");
    reveal_strlit("/api/audit-log");
    reveal_strlit("/api/activity-log");
    reveal_strlit("/dashboard/my-membership");
    reveal_strlit("/dashboard");
    reveal_strlit("/api/my-membership");
    reveal_strlit("/api/memberships");
    reveal_strlit("/api/payments/create-order");
    reveal_strlit("/api/payments/verify");
    reveal_strlit("/api/dashboard/stats");
    reveal_strlit("/api/auth/change-password");
    reveal_with_fuel(prefix_by_chars, 27);
    let t = route_table();
    assert forall|j: int| 0 <= j < t.len() && j != 2 implies !prefix_by_chars(t[2].0, #[trigger] t[j].0) by {
        if j == 0 {} else if j == 1 {} else if j == 2 {} else if j == 3 {} else if j == 4 {} else if j == 5 {} else if j == 6 {} else if j == 7 {} else if j == 8 {} else if j == 9 {} else if j == 10 {} else if j == 11 {} else if j == 12 {} else if j == 13 {} else if j == 14 {} else if j == 15 {} else if j == 16 {} else if j == 17 {} else if j == 18 {} else if j == 19 {} else if j == 20 {} else if j == 21 {} else if j == 22 {} else {}
    }
    assert forall|j: int| 0 <= j < t.len() && j != 2 implies !is_prefix(t[2].0, #[trigger] t[j].0) by {
        lemma_prefix_by_chars(t[2].0, t[j].0);
    }
}


proof fn lemma_key_3_unextended()
    ensures
        forall|j: int| 0 <= j < route_table().len() && j != 3 ==> !is_prefix(route_table()[3].0, #[trigger] route_table()[j].0),
{
    reveal_strlit("/dashboard/approvals");
    reveal_strlit("/api/approvals");
    reveal_strlit("/api/cron");
    reveal_strlit("/api/notifications");
    reveal_strlit("/dashboard/sponsorship");
    reveal_strlit("/api/sponsors");
    reveal_strlit("/api/sponsor-links");
    reveal_strlit("/api/receipts");
    reveal_strlit("/dashboard/members");
    reveal_strlit("/dashboard/cash");
    reveal_strlit("/dashboard/audit-log");
    reveal_strlit("/dashboard/activity-log");
    reveal_strlit("/api/members");
    reveal_strlit("/api/transactions");
    reveal_strlit("/api/audit-log");
    reveal_strlit("/api/activity-log");
    reveal_strlit("/dashboard/my-membership");
    reveal_strlit("/dashboard");
    reveal_strlit("/api/my-membership");
    reveal_strlit("/api/memberships");
    reveal_strlit("/api/payments/create-order");
    reveal_strlit("/api/payments/verify");
    reveal_strlit("/api/dashboard/stats");
    reveal_strlit("/api/auth/change-password");
    reveal_with_fuel(prefix_by_chars, 27);
    let t = route_table();
    assert forall|j: int| 0 <= j < t.len() && j != 3 implies !prefix_by_chars(t[3].0, #[trigger] t[j].0) by {
        if j == 0 {} else if j == 1 {} else if j == 2 {} else if j == 3 {} else if j == 4 {} else if j == 5 {} else if j == 6 {} else if j == 7 {} else if j == 8 {} else if j == 9 {} else if j == 10 {} else if j == 11 {} else if j == 12 {} else if j == 13 {} else if j == 14 {} else if j == 15 {} else if j == 16 {} else if j == 17 {} else if j == 18 {} else if j == 19 {} else if j == 20 {} else if j == 21 {} else if j == 22 {} else {}
    }
    assert forall|j: int| 0 <= j < t.len() && j != 3 implies !is_prefix(t[3].0, #[trigger] t[j].0) by {
        lemma_prefix_by_chars(t[3].0, t[j].0);
    }
}


proof fn lemma_key_4_unextended()
    ensures
        forall|j: int| 0 <= j < route_table().len() && j != 4 ==> !is_prefix(route_table()[4].0, #[trigger] route_table()[j].0),
{
    reveal_strlit("/dashboard/approvals");
    reveal_strlit("/api/approvals");
    reveal_strlit("/api/cron");
    reveal_strlit("/api/notifications");
    reveal_strlit("/dashboard/sponsorship");
    reveal_strlit("/api/sponsors");
    reveal_strlit("/api/sponsor-links");
    reveal_strlit("/api/receipts");
    reveal_strlit("/dashboard/members");
    reveal_strlit("/dashboard/cash");
    reveal_strlit("/dashboard/audit-log");
    reveal_strlit("/dashboard/activity-log");
    reveal_strlit("/api/members");
    reveal_strlit("/api/transactions");
    reveal_strlit("/api/audit-log");
    reveal_strlit("/api/activity-log");
    reveal_strlit("/dashboard/my-membership");
    reveal_strlit("/dashboard");
    reveal_strlit("/api/my-membership");
    reveal_strlit("/api/memberships");
    reveal_strlit("/api/payments/create-order");
    reveal_strlit("/api/payments/verify");
    reveal_strlit("/api/dashboard/stats");
    reveal_strlit("/api/auth/change-password");
    reveal_with_fuel(prefix_by_chars, 27);
    let t = route_table();
    assert forall|j: int| 0 <= j < t.len() && j != 4 implies !prefix_by_chars(t[4].0, #[trigger] t[j].0) by {
        if j == 0 {} else if j == 1 {} else if j == 2 {} else if j == 3 {} else if j == 4 {} else if j == 5 {} else if j == 6 {} else if j == 7 {} else if j == 8 {} else if j == 9 {} else if j == 10 {} else if j == 11 {} else if j == 12 {} else if j == 13 {} else if j == 14 {} else if j == 15 {} else if j == 16 {} else if j == 17 {} else if j == 18 {} else if j == 19 {} else if j == 20 {} else if j == 21 {} else if j == 22 {} else {}
    }
    assert forall|j: int| 0 <= j < t.len() && j != 4 implies !is_prefix(t[4].0, #[trigger] t[j].0) by {
        lemma_prefix_by_chars(t[4].0, t[j].0);
    }
}


proof fn lemma_key_5_unextended()
    ensures
        forall|j: int| 0 <= j < route_table().len() && j != 5 ==> !is_prefix(route_table()[5].0, #[trigger] route_table()[j].0),
{
    reveal_strlit("/dashboard/approvals");
    reveal_strlit("/api/approvals");
    reveal_strlit("/api/cron");
    reveal_strlit("/api/notifications");
    reveal_strlit("/dashboard/sponsorship");
    reveal_strlit("/api/sponsors");
    reveal_strlit("/api/sponsor-links");
    reveal_strlit("/api/receipts");
    reveal_strlit("/dashboard/members");
    reveal_strlit("/dashboard/cash");
    reveal_strlit("/dashboard/audit-log");
    reveal_strlit("/dashboard/activity-log");
    reveal_strlit("/api/members");
    reveal_strlit("/api/transactions");
    reveal_strlit("/api/audit-log");
    reveal_strlit("/api/activity-log");
    reveal_strlit("/dashboard/my-membership");
    reveal_strlit("/dashboard");
    reveal_strlit("/api/my-membership");
    reveal_strlit("/api/memberships");
    reveal_strlit("/api/payments/create-order");
    reveal_strlit("/api/payments/verify");
    reveal_strlit("/api/dashboard/stats");
    reveal_strlit("/api/auth/change-password");
    reveal_with_fuel(prefix_by_chars, 27);
    let t = route_table();
    assert forall|j: int| 0 <= j < t.len() && j != 5 implies !prefix_by_chars(t[5].0, #[trigger] t[j].0) by {
        if j == 0 {} else if j == 1 {} else if j == 2 {} else if j == 3 {} else if j == 4 {} else if j == 5 {} else if j == 6 {} else if j == 7 {} else if j == 8 {} else if j == 9 {} else if j == 10 {} else if j == 11 {} else if j == 12 {} else if j == 13 {} else if j == 14 {} else if j == 15 {} else if j == 16 {} else if j == 17 {} else if j == 18 {} else if j == 19 {} else if j == 20 {} else if j == 21 {} else if j == 22 {} else {}
    }
    assert forall|j: int| 0 <= j < t.len() && j != 5 implies !is_prefix(t[5].0, #[trigger] t[j].0) by {
        lemma_prefix_by_chars(t[5].0, t[j].0);
    }
}


proof fn lemma_key_6_unextended()
    ensures
        forall|j: int| 0 <= j < route_table().len() && j != 6 ==> !is_prefix(route_table()[6].0, #[trigger] route_table()[j].0),
{
    reveal_strlit("/dashboard/approvals");
    reveal_strlit("/api/approvals");
    reveal_strlit("/api/cron");
    reveal_strlit("/api/notifications");
    reveal_strlit("/dashboard/sponsorship");
    reveal_strlit("/api/sponsors");
    reveal_strlit("/api/sponsor-links");
    reveal_strlit("/api/receipts");
    reveal_strlit("/dashboard/members");
    reveal_strlit("/dashboard/cash");
    reveal_strlit("/dashboard/audit-log");
    reveal_strlit("/dashboard/activity-log");
    reveal_strlit("/api/members");
    reveal_strlit("/api/transactions");
    reveal_strlit("/api/audit-log");
    reveal_strlit("/api/activity-log");
    reveal_strlit("/dashboard/my-membership");
    reveal_strlit("/dashboard");
    reveal_strlit("/api/my-membership");
    reveal_strlit("/api/memberships");
    reveal_strlit("/api/payments/create-order");
    reveal_strlit("/api/payments/verify");
    reveal_strlit("/api/dashboard/stats");
    reveal_strlit("/api/auth/change-password");
    reveal_with_fuel(prefix_by_chars, 27);
    let t = route_table();
    assert forall|j: int| 0 <= j < t.len() && j != 6 implies !prefix_by_chars(t[6].0, #[trigger] t[j].0) by {
        if j == 0 {} else if j == 1 {} else if j == 2 {} else if j == 3 {} else if j == 4 {} else if j == 5 {} else if j == 6 {} else if j == 7 {} else if j == 8 {} else if j == 9 {} else if j == 10 {} else if j == 11 {} else if j == 12 {} else if j == 13 {} else if j == 14 {} else if j == 15 {} else if j == 16 {} else if j == 17 {} else if j == 18 {} else if j == 19 {} else if j == 20 {} else if j == 21 {} else if j == 22 {} else {}
    }
    assert forall|j: int| 0 <= j < t.len() && j != 6 implies !is_prefix(t[6].0, #[trigger] t[j].0) by {
        lemma_prefix_by_chars(t[6].0, t[j].0);
    }
}


proof fn lemma_key_7_unextended()
    ensures
        forall|j: int| 0 <= j < route_table().len() && j != 7 ==> !is_prefix(route_table()[7].0, #[trigger] route_table()[j].0),
{
    reveal_strlit("/dashboard/approvals");
    reveal_strlit("/api/approvals");
    reveal_strlit("/api/cron");
    reveal_strlit("/api/notifications");
    reveal_strlit("/dashboard/sponsorship");
    reveal_strlit("/api/sponsors");
    reveal_strlit("/api/sponsor-links");
    reveal_strlit("/api/receipts");
    reveal_strlit("/dashboard/members");
    reveal_strlit("/dashboard/cash");
    reveal_strlit("/dashboard/audit-log");
    reveal_strlit("/dashboard/activity-log");
    reveal_strlit("/api/members");
    reveal_strlit("/api/transactions");
    reveal_strlit("/api/audit-log");
    reveal_strlit("/api/activity-log");
    reveal_strlit("/dashboard/my-membership");
    reveal_strlit("/dashboard");
    reveal_strlit("/api/my-membership");
    reveal_strlit("/api/memberships");
    reveal_strlit("/api/payments/create-order");
    reveal_strlit("/api/payments/verify");
    reveal_strlit("/api/dashboard/stats");
    reveal_strlit("/api/auth/change-password");
    reveal_with_fuel(prefix_by_chars, 27);
    let t = route_table();
    assert forall|j: int| 0 <= j < t.len() && j != 7 implies !prefix_by_chars(t[7].0, #[trigger] t[j].0) by {
        if j == 0 {} else if j == 1 {} else if j == 2 {} else if j == 3 {} else if j == 4 {} else if j == 5 {} else if j == 6 {} else if j == 7 {} else if j == 8 {} else if j == 9 {} else if j == 10 {} else if j == 11 {} else if j == 12 {} else if j == 13 {} else if j == 14 {} else if j == 15 {} else if j == 16 {} else if j == 17 {} else if j == 18 {} else if j == 19 {} else if j == 20 {} else if j == 21 {} else if j == 22 {} else {}
    }
    assert forall|j: int| 0 <= j < t.len() && j != 7 implies !is_prefix(t[7].0, #[trigger] t[j].0) by {
        lemma_prefix_by_chars(t[7].0, t[j].0);
    }
}


proof fn lemma_key_8_unextended()
    ensures
        forall|j: int| 0 <= j < route_table().len() && j != 8 ==> !is_prefix(route_table()[8].0, #[trigger] route_table()[j].0),
{
    reveal_strlit("/dashboard/approvals");
    reveal_strlit("/api/approvals");
    reveal_strlit("/api/cron");
    reveal_strlit("/api/notifications");
    reveal_strlit("/dashboard/sponsorship");
    reveal_strlit("/api/sponsors");
    reveal_strlit("/api/sponsor-links");
    reveal_strlit("/api/receipts");
    reveal_strlit("/dashboard/members");
    reveal_strlit("/dashboard/cash");
    reveal_strlit("/dashboard/audit-log");
    reveal_strlit("/dashboard/activity-log");
    reveal_strlit("/api/members");
    reveal_strlit("/api/transactions");
    reveal_strlit("/api/audit-log");
    reveal_strlit("/api/activity-log");
    reveal_strlit("/dashboard/my-membership");
    reveal_strlit("/dashboard");
    reveal_strlit("/api/my-membership");
    reveal_strlit("/api/memberships");
    reveal_strlit("/api/payments/create-order");
    reveal_strlit("/api/payments/verify");
    reveal_strlit("/api/dashboard/stats");
    reveal_strlit("/api/auth/change-password");
    reveal_with_fuel(prefix_by_chars, 27);
    let t = route_table();
    assert forall|j: int| 0 <= j < t.len() && j != 8 implies !prefix_by_chars(t[8].0, #[trigger] t[j].0) by {
        if j == 0 {} else if j == 1 {} else if j == 2 {} else if j == 3 {} else if j == 4 {} else if j == 5 {} else if j == 6 {} else if j == 7 {} else if j == 8 {} else if j == 9 {} else if j == 10 {} else if j == 11 {} else if j == 12 {} else if j == 13 {} else if j == 14 {} else if j == 15 {} else if j == 16 {} else if j == 17 {} else if j == 18 {} else if j == 19 {} else if j == 20 {} else if j == 21 {} else if j == 22 {} else {}
    }
    assert forall|j: int| 0 <= j < t.len() && j != 8 implies !is_prefix(t[8].0, #[trigger] t[j].0) by {
        lemma_prefix_by_chars(t[8].0, t[j].0);
    }
}


proof fn lemma_key_9_unextended()
    ensures
        forall|j: int| 0 <= j < route_table().len() && j != 9 ==> !is_prefix(route_table()[9].0, #[trigger] route_table()[j].0),
{
    reveal_strlit("/dashboard/approvals");
    reveal_strlit("/api/approvals");
    reveal_strlit("/api/cron");
    reveal_strlit("/api/notifications");
    reveal_strlit("/dashboard/sponsorship");
    reveal_strlit("/api/sponsors");
    reveal_strlit("/api/sponsor-links");
    reveal_strlit("/api/receipts");
    reveal_strlit("/dashboard/members");
    reveal_strlit("/dashboard/cash");
    reveal_strlit("/dashboard/audit-log");
    reveal_strlit("/dashboard/activity-log");
    reveal_strlit("/api/members");
    reveal_strlit("/api/transactions");
    reveal_strlit("/api/audit-log");
    reveal_strlit("/api/activity-log");
    reveal_strlit("/dashboard/my-membership");
    reveal_strlit("/dashboard");
    reveal_strlit("/api/my-membership");
    reveal_strlit("/api/memberships");
    reveal_strlit("/api/payments/create-order");
    reveal_strlit("/api/payments/verify");
    reveal_strlit("/api/dashboard/stats");
    reveal_strlit("/api/auth/change-password");
    reveal_with_fuel(prefix_by_chars, 27);
    let t = route_table();
    assert forall|j: int| 0 <= j < t.len() && j != 9 implies !prefix_by_chars(t[9].0, #[trigger] t[j].0) by {
        if j == 0 {} else if j == 1 {} else if j == 2 {} else if j == 3 {} else if j == 4 {} else if j == 5 {} else if j == 6 {} else if j == 7 {} else if j == 8 {} else if j == 9 {} else if j == 10 {} else if j == 11 {} else if j == 12 {} else if j == 13 {} else if j == 14 {} else if j == 15 {} else if j == 16 {} else if j == 17 {} else if j == 18 {} else if j == 19 {} else if j == 20 {} else if j == 21 {} else if j == 22 {} else {}
    }
    assert forall|j: int| 0 <= j < t.len() && j != 9 implies !is_prefix(t[9].0, #[trigger] t[j].0) by {
        lemma_prefix_by_chars(t[9].0, t[j].0);
    }
}


proof fn lemma_key_10_unextended()
    ensures
        forall|j: int| 0 <= j < route_table().len() && j != 10 ==> !is_prefix(route_table()[10].0, #[trigger] route_table()[j].0),
{
    reveal_strlit("/dashboard/approvals");
    reveal_strlit("/api/approvals");
    reveal_strlit("/api/cron");
    reveal_strlit("/api/notifications");
    reveal_strlit("/dashboard/sponsorship");
    reveal_strlit("/api/sponsors");
    reveal_strlit("/api/sponsor-links");
    reveal_strlit("/api/receipts");
    reveal_strlit("/dashboard/members");
    reveal_strlit("/dashboard/cash");
    reveal_strlit("/dashboard/audit-log");
    reveal_strlit("/dashboard/activity-log");
    reveal_strlit("/api/members");
    reveal_strlit("/api/transactions");
    reveal_strlit("/api/audit-log");
    reveal_strlit("/api/activity-log");
    reveal_strlit("/dashboard/my-membership");
    reveal_strlit("/dashboard");
    reveal_strlit("/api/my-membership");
    reveal_strlit("/api/memberships");
    reveal_strlit("/api/payments/create-order");
    reveal_strlit("/api/payments/verify");
    reveal_strlit("/api/dashboard/stats");
    reveal_strlit("/api/auth/change-password");
    reveal_with_fuel(prefix_by_chars, 27);
    let t = route_table();
    assert forall|j: int| 0 <= j < t.len() && j != 10 implies !prefix_by_chars(t[10].0, #[trigger] t[j].0) by {
        if j == 0 {} else if j == 1 {} else if j == 2 {} else if j == 3 {} else if j == 4 {} else if j == 5 {} else if j == 6 {} else if j == 7 {} else if j == 8 {} else if j == 9 {} else if j == 10 {} else if j == 11 {} else if j == 12 {} else if j == 13 {} else if j == 14 {} else if j == 15 {} else if j == 16 {} else if j == 17 {} else if j == 18 {} else if j == 19 {} else if j == 20 {} else if j == 21 {} else if j == 22 {} else {}
    }
    assert forall|j: int| 0 <= j < t.len() && j != 10 implies !is_prefix(t[10].0, #[trigger] t[j].0) by {
        lemma_prefix_by_chars(t[10].0, t[j].0);
    }
}


proof fn lemma_key_11_unextended()
    ensures
        forall|j: int| 0 <= j < route_table().len() && j != 11 ==> !is_prefix(route_table()[11].0, #[trigger] route_table()[j].0),
{
    reveal_strlit("/dashboard/approvals");
    reveal_strlit("/api/approvals");
    reveal_strlit("/api/cron");
    reveal_strlit("/api/notifications");
    reveal_strlit("/dashboard/sponsorship");
    reveal_strlit("/api/sponsors");
    reveal_strlit("/api/sponsor-links");
    reveal_strlit("/api/receipts");
    reveal_strlit("/dashboard/members");
    reveal_strlit("/dashboard/cash");
    reveal_strlit("/dashboard/audit-log");
    reveal_strlit("/dashboard/activity-log");
    reveal_strlit("/api/members");
    reveal_strlit("/api/transactions");
    reveal_strlit("/api/audit-log");
    reveal_strlit("/api/activity-log");
    reveal_strlit("/dashboard/my-membership");
    reveal_strlit("/dashboard");
    reveal_strlit("/api/my-membership");
    reveal_strlit("/api/memberships");
    reveal_strlit("/api/payments/create-order");
    reveal_strlit("/api/payments/verify");
    reveal_strlit("/api/dashboard/stats");
    reveal_strlit("/api/auth/change-password");
    reveal_with_fuel(prefix_by_chars, 27);
    let t = route_table();
    assert forall|j: int| 0 <= j < t.len() && j != 11 implies !prefix_by_chars(t[11].0, #[trigger] t[j].0) by {
        if j == 0 {} else if j == 1 {} else if j == 2 {} else if j == 3 {} else if j == 4 {} else if j == 5 {} else if j == 6 {} else if j == 7 {} else if j == 8 {} else if j == 9 {} else if j == 10 {} else if j == 11 {} else if j == 12 {} else if j == 13 {} else if j == 14 {} else if j == 15 {} else if j == 16 {} else if j == 17 {} else if j == 18 {} else if j == 19 {} else if j == 20 {} else if j == 21 {} else if j == 22 {} else {}
    }
    assert forall|j: int| 0 <= j < t.len() && j != 11 implies !is_prefix(t[11].0, #[trigger] t[j].0) by {
        lemma_prefix_by_chars(t[11].0, t[j].0);
    }
}


proof fn lemma_key_12_unextended()
    ensures
        forall|j: int| 0 <= j < route_table().len() && j != 12 && j != 19 ==> !is_prefix(route_table()[12].0, #[trigger] route_table()[j].0),
{
    reveal_strlit("/dashboard/approvals");
    reveal_strlit("/api/approvals");
    reveal_strlit("/api/cron");
    reveal_strlit("/api/notifications");
    reveal_strlit("/dashboard/sponsorship");
    reveal_strlit("/api/sponsors");
    reveal_strlit("/api/sponsor-links");
    reveal_strlit("/api/receipts");
    reveal_strlit("/dashboard/members");
    reveal_strlit("/dashboard/cash");
    reveal_strlit("/dashboard/audit-log");
    reveal_strlit("/dashboard/activity-log");
    reveal_strlit("/api/members");
    reveal_strlit("/api/transactions");
    reveal_strlit("/api/audit-log");
    reveal_strlit("/api/activity-log");
    reveal_strlit("/dashboard/my-membership");
    reveal_strlit("/dashboard");
    reveal_strlit("/api/my-membership");
    reveal_strlit("/api/memberships");
    reveal_strlit("/api/payments/create-order");
    reveal_strlit("/api/payments/verify");
    reveal_strlit("/api/dashboard/stats");
    reveal_strlit("/api/auth/change-password");
    reveal_with_fuel(prefix_by_chars, 27);
    let t = route_table();
    assert forall|j: int| 0 <= j < t.len() && j != 12 && j != 19 implies !prefix_by_chars(t[12].0, #[trigger] t[j].0) by {
        if j == 0 {} else if j == 1 {} else if j == 2 {} else if j == 3 {} else if j == 4 {} else if j == 5 {} else if j == 6 {} else if j == 7 {} else if j == 8 {} else if j == 9 {} else if j == 10 {} else if j == 11 {} else if j == 12 {} else if j == 13 {} else if j == 14 {} else if j == 15 {} else if j == 16 {} else if j == 17 {} else if j == 18 {} else if j == 19 {} else if j == 20 {} else if j == 21 {} else if j == 22 {} else {}
    }
    assert forall|j: int| 0 <= j < t.len() && j != 12 && j != 19 implies !is_prefix(t[12].0, #[trigger] t[j].0) by {
        lemma_prefix_by_chars(t[12].0, t[j].0);
    }
}


proof fn lemma_key_13_unextended()
    ensures
        forall|j: int| 0 <= j < route_table().len() && j != 13 ==> !is_prefix(route_table()[13].0, #[trigger] route_table()[j].0),
{
    reveal_strlit("/dashboard/approvals");
    reveal_strlit("/api/approvals");
    reveal_strlit("/api/cron");
    reveal_strlit("/api/notifications");
    reveal_strlit("/dashboard/sponsorship");
    reveal_strlit("/api/sponsors");
    reveal_strlit("/api/sponsor-links");
    reveal_strlit("/api/receipts");
    reveal_strlit("/dashboard/members");
    reveal_strlit("/dashboard/cash");
    reveal_strlit("/dashboard/audit-log");
    reveal_strlit("/dashboard/activity-log");
    reveal_strlit("/api/members");
    reveal_strlit("/api/transactions");
    reveal_strlit("/api/audit-log");
    reveal_strlit("/api/activity-log");
    reveal_strlit("/dashboard/my-membership");
    reveal_strlit("/dashboard");
    reveal_strlit("/api/my-membership");
    reveal_strlit("/api/memberships");
    reveal_strlit("/api/payments/create-order");
    reveal_strlit("/api/payments/verify");
    reveal_strlit("/api/dashboard/stats");
    reveal_strlit("/api/auth/change-password");
    reveal_with_fuel(prefix_by_chars, 27);
    let t = route_table();
    assert forall|j: int| 0 <= j < t.len() && j != 13 implies !prefix_by_chars(t[13].0, #[trigger] t[j].0) by {
        if j == 0 {} else if j == 1 {} else if j == 2 {} else if j == 3 {} else if j == 4 {} else if j == 5 {} else if j == 6 {} else if j == 7 {} else if j == 8 {} else if j == 9 {} else if j == 10 {} else if j == 11 {} else if j == 12 {} else if j == 13 {} else if j == 14 {} else if j == 15 {} else if j == 16 {} else if j == 17 {} else if j == 18 {} else if j == 19 {} else if j == 20 {} else if j == 21 {} else if j == 22 {} else {}
    }
    assert forall|j: int| 0 <= j < t.len() && j != 13 implies !is_prefix(t[13].0, #[trigger] t[j].0) by {
        lemma_prefix_by_chars(t[13].0, t[j].0);
    }
}


proof fn lemma_key_14_unextended()
    ensures
        forall|j: int| 0 <= j < route_table().len() && j != 14 ==> !is_prefix(route_table()[14].0, #[trigger] route_table()[j].0),
{
    reveal_strlit("/dashboard/approvals");
    reveal_strlit("/api/approvals");
    reveal_strlit("/api/cron");
    reveal_strlit("/api/notifications");
    reveal_strlit("/dashboard/sponsorship");
    reveal_strlit("/api/sponsors");
    reveal_strlit("/api/sponsor-links");
    reveal_strlit("/api/receipts");
    reveal_strlit("/dashboard/members");
    reveal_strlit("/dashboard/cash");
    reveal_strlit("/dashboard/audit-log");
    reveal_strlit("/dashboard/activity-log");
    reveal_strlit("/api/members");
    reveal_strlit("/api/transactions");
    reveal_strlit("/api/audit-log");
    reveal_strlit("/api/activity-log");
    reveal_strlit("/dashboard/my-membership");
    reveal_strlit("/dashboard");
    reveal_strlit("/api/my-membership");
    reveal_strlit("/api/memberships");
    reveal_strlit("/api/payments/create-order");
    reveal_strlit("/api/payments/verify");
    reveal_strlit("/api/dashboard/stats");
    reveal_strlit("/api/auth/change-password");
    reveal_with_fuel(prefix_by_chars, 27);
    let t = route_table();
    assert forall|j: int| 0 <= j < t.len() && j != 14 implies !prefix_by_chars(t[14].0, #[trigger] t[j].0) by {
        if j == 0 {} else if j == 1 {} else if j == 2 {} else if j == 3 {} else if j == 4 {} else if j == 5 {} else if j == 6 {} else if j == 7 {} else if j == 8 {} else if j == 9 {} else if j == 10 {} else if j == 11 {} else if j == 12 {} else if j == 13 {} else if j == 14 {} else if j == 15 {} else if j == 16 {} else if j == 17 {} else if j == 18 {} else if j == 19 {} else if j == 20 {} else if j == 21 {} else if j == 22 {} else {}
    }
    assert forall|j: int| 0 <= j < t.len() && j != 14 implies !is_prefix(t[14].0, #[trigger] t[j].0) by {
        lemma_prefix_by_chars(t[14].0, t[j].0);
    }
}


proof fn lemma_key_15_unextended()
    ensures
        forall|j: int| 0 <= j < route_table().len() && j != 15 ==> !is_prefix(route_table()[15].0, #[trigger] route_table()[j].0),
{
    reveal_strlit("/dashboard/approvals");
    reveal_strlit("/api/approvals");
    reveal_strlit("/api/cron");
    reveal_strlit("/api/notifications");
    reveal_strlit("/dashboard/sponsorship");
    reveal_strlit("/api/sponsors");
    reveal_strlit("/api/sponsor-links");
    reveal_strlit("/api/receipts");
    reveal_strlit("/dashboard/members");
    reveal_strlit("/dashboard/cash");
    reveal_strlit("/dashboard/audit-log");
    reveal_strlit("/dashboard/activity-log");
    reveal_strlit("/api/members");
    reveal_strlit("/api/transactions");
    reveal_strlit("/api/audit-log");
    reveal_strlit("/api/activity-log");
    reveal_strlit("/dashboard/my-membership");
    reveal_strlit("/dashboard");
    reveal_strlit("/api/my-membership");
    reveal_strlit("/api/memberships");
    reveal_strlit("/api/payments/create-order");
    reveal_strlit("/api/payments/verify");
    reveal_strlit("/api/dashboard/stats");
    reveal_strlit("/api/auth/change-password");
    reveal_with_fuel(prefix_by_chars, 27);
    let t = route_table();
    assert forall|j: int| 0 <= j < t.len() && j != 15 implies !prefix_by_chars(t[15].0, #[trigger] t[j].0) by {
        if j == 0 {} else if j == 1 {} else if j == 2 {} else if j == 3 {} else if j == 4 {} else if j == 5 {} else if j == 6 {} else if j == 7 {} else if j == 8 {} else if j == 9 {} else if j == 10 {} else if j == 11 {} else if j == 12 {} else if j == 13 {} else if j == 14 {} else if j == 15 {} else if j == 16 {} else if j == 17 {} else if j == 18 {} else if j == 19 {} else if j == 20 {} else if j == 21 {} else if j == 22 {} else {}
    }
    assert forall|j: int| 0 <= j < t.len() && j != 15 implies !is_prefix(t[15].0, #[trigger] t[j].0) by {
        lemma_prefix_by_chars(t[15].0, t[j].0);
    }
}


/// Approvals, cron jobs and notifications (`/dashboard/approvals`,
/// `/api/approvals`, `/api/cron`, `/api/notifications`) are for admins only.
pub proof fn lemma_admin_only_routes(route: Seq<char>, role: Role)
    requires
        (is_prefix("/dashboard/approvals"@, route)) ||
            (is_prefix("/api/approvals"@, route)) ||
            (is_prefix("/api/cron"@, route)) ||
            (is_prefix("/api/notifications"@, route)),
    ensures
        can_access_spec(route_table(), role, route) <==> role == Role::Admin,
{
    reveal_strlit("/dashboard/approvals");
    reveal_strlit("/api/approvals");
    reveal_strlit("/api/cron");
    reveal_strlit("/api/notifications");
    reveal_strlit("/api/memberships");
    lemma_role_lists();
    let t = route_table();
    if is_prefix("/dashboard/approvals"@, route) {
        lemma_key_0_unextended();
        lemma_decided_by(route, 0);
    } else if is_prefix("/api/approvals"@, route) {
        lemma_key_1_unextended();
        lemma_decided_by(route, 1);
    } else if is_prefix("/api/cron"@, route) {
        lemma_key_2_unextended();
        lemma_decided_by(route, 2);
    } else if is_prefix("/api/notifications"@, route) {
        lemma_key_3_unextended();
        lemma_decided_by(route, 3);
    }
}

/// Sponsorship, sponsor links and receipts (`/dashboard/sponsorship`,
/// `/api/sponsors`, `/api/sponsor-links`, `/api/receipts`) are for admins and
/// operators.
pub proof fn lemma_sponsorship_routes(route: Seq<char>, role: Role)
    requires
        (is_prefix("/dashboard/sponsorship"@, route)) ||
            (is_prefix("/api/sponsors"@, route)) ||
            (is_prefix("/api/sponsor-links"@, route)) ||
            (is_prefix("/api/receipts"@, route)),
    ensures
        can_access_spec(route_table(), role, route) <==> (role == Role::Admin || role == Role::Operator),
{
    reveal_strlit("/dashboard/sponsorship");
    reveal_strlit("/api/sponsors");
    reveal_strlit("/api/sponsor-links");
    reveal_strlit("/api/receipts");
    reveal_strlit("/api/memberships");
    lemma_role_lists();
    let t = route_table();
    if is_prefix("/dashboard/sponsorship"@, route) {
        lemma_key_4_unextended();
        lemma_decided_by(route, 4);
    } else if is_prefix("/api/sponsors"@, route) {
        lemma_key_5_unextended();
        lemma_decided_by(route, 5);
    } else if is_prefix("/api/sponsor-links"@, route) {
        lemma_key_6_unextended();
        lemma_decided_by(route, 6);
    } else if is_prefix("/api/receipts"@, route) {
        lemma_key_7_unextended();
        lemma_decided_by(route, 7);
    }
}

/// Members, cash and the logs (`/dashboard/members`, `/dashboard/cash`,
/// `/dashboard/audit-log`, `/dashboard/activity-log`, `/api/members` other
/// than `/api/memberships`, `/api/transactions`, `/api/audit-log`,
/// `/api/activity-log`) are for every role but plain members.
pub proof fn lemma_staff_routes(route: Seq<char>, role: Role)
    requires
        (is_prefix("/dashboard/members"@, route)) ||
            (is_prefix("/dashboard/cash"@, route)) ||
            (is_prefix("/dashboard/audit-log"@, route)) ||
            (is_prefix("/dashboard/activity-log"@, route)) ||
            (is_prefix("/api/members"@, route) && !is_prefix("/api/memberships"@, route)) ||
            (is_prefix("/api/transactions"@, route)) ||
            (is_prefix("/api/audit-log"@, route)) ||
            (is_prefix("/api/activity-log"@, route)),
    ensures
        can_access_spec(route_table(), role, route) <==> role != Role::Member,
{
    reveal_strlit("/dashboard/members");
    reveal_strlit("/dashboard/cash");
    reveal_strlit("/dashboard/audit-log");
    reveal_strlit("/dashboard/activity-log");
    reveal_strlit("/api/members");
    reveal_strlit("/api/transactions");
    reveal_strlit("/api/audit-log");
    reveal_strlit("/api/activity-log");
    reveal_strlit("/api/memberships");
    lemma_role_lists();
    let t = route_table();
    if is_prefix("/dashboard/members"@, route) {
        lemma_key_8_unextended();
        lemma_decided_by(route, 8);
    } else if is_prefix("/dashboard/cash"@, route) {
        lemma_key_9_unextended();
        lemma_decided_by(route, 9);
    } else if is_prefix("/dashboard/audit-log"@, route) {
        lemma_key_10_unextended();
        lemma_decided_by(route, 10);
    } else if is_prefix("/dashboard/activity-log"@, route) {
        lemma_key_11_unextended();
        lemma_decided_by(route, 11);
    } else if is_prefix("/api/members"@, route) && !is_prefix("/api/memberships"@, route) {
        lemma_key_12_unextended();
        lemma_decided_by(route, 12);
    } else if is_prefix("/api/transactions"@, route) {
        lemma_key_13_unextended();
        lemma_decided_by(route, 13);
    } else if is_prefix("/api/audit-log"@, route) {
        lemma_key_14_unextended();
        lemma_decided_by(route, 14);
    } else if is_prefix("/api/activity-log"@, route) {
        lemma_key_15_unextended();
        lemma_decided_by(route, 15);
    }
}

fn chars_prefix(p: &Vec<char>, s: &Vec<char>) -> (b: bool)
    ensures
        b == is_prefix(p@, s@),
{
    if p.len() > s.len() {
        return false;
    }
    let mut i: usize = 0;
    while i < p.len()
        invariant
            p@.len() <= s@.len(),
            0 <= i <= p@.len(),
            forall|j: int| 0 <= j < i ==> s@[j] == p@[j],
        decreases p.len() - i,
    {
        if p[i] != s[i] {
            assert(s@.subrange(0, p@.len() as int)[i as int] != p@[i as int]);
            return false;
        }
        i = i + 1;
    }
    assert(s@.subrange(0, p@.len() as int) =~= p@);
    true
}

fn role_in(roles: &Vec<Role>, role: Role) -> (b: bool)
    ensures
        b == roles@.contains(role),
{
    let mut i: usize = 0;
    while i < roles.len()
        invariant
            0 <= i <= roles@.len(),
            forall|j: int| 0 <= j < i ==> roles@[j] != role,
        decreases roles.len() - i,
    {
        if roles[i] == role {
            assert(roles@[i as int] == role);
            return true;
        }
        i = i + 1;
    }
    false
}

/// Whether `role` may access `route`: the roles of the longest matching
/// prefix of the permission table decide; unlisted routes are open to every
/// authenticated user.
pub fn can_access_route(role: Role, route: &str) -> (b: bool)
    ensures
        b == can_access_spec(route_table(), role, route@),
{
    let perms = route_permissions();
    let ghost table = perms@.map_values(|e: (&'static str, Vec<Role>)| entry_view(e));
    let r = chars_of(route);
    let mut best: Option<usize> = None;
    let mut best_len: usize = 0;
    let mut i: usize = 0;
    while i < perms.len()
        invariant
            table == perms@.map_values(|e: (&'static str, Vec<Role>)| entry_view(e)),
            r@ == route@,
            0 <= i <= perms@.len(),
            best_match_upto(table, route@, i as int) == match best {
                Some(k) => Some(k as int),
                None => None::<int>,
            },
            match best {
                Some(k) => k < i && best_len == table[k as int].0.len(),
                None => true,
            },
        decreases perms.len() - i,
    {
        let key = chars_of(perms[i].0);
        assert(table[i as int].0 == key@);
        if chars_prefix(&key, &r) && (best.is_none() || key.len() > best_len) {
            best = Some(i);
            best_len = key.len();
        }
        i = i + 1;
    }
    match best {
        Some(k) => {
            assert(table[k as int].1 == perms@[k as int].1@);
            role_in(&perms[k].1, role)
        },
        None => true,
    }
}

/// Whether `role` is one of `allowed`.
pub fn has_role(role: Role, allowed: &[Role]) -> (b: bool)
    ensures
        b == allowed@.contains(role),
{
    let mut i: usize = 0;
    while i < allowed.len()
        invariant
            0 <= i <= allowed@.len(),
            forall|j: int| 0 <= j < i ==> allowed@[j] != role,
        decreases allowed.len() - i,
    {
        if allowed[i] == role {
            assert(allowed@[i as int] == role);
            return true;
        }
        i = i + 1;
    }
    false
}

pub fn is_admin(role: Role) -> (b: bool)
    ensures
        b == (role == Role::Admin),
{
    role == Role::Admin
}

pub fn is_operator(role: Role) -> (b: bool)
    ensures
        b == (role == Role::Operator),
{
    role == Role::Operator
}

pub fn is_member(role: Role) -> (b: bool)
    ensures
        b == (role == Role::Member),
{
    role == Role::Member
}

} // verus!
