//! Certifications: which ones a member may take, what a trainee lacks,
//! the first-kit decisions after a passed trial, and the texts shown.
use vstd::prelude::*;

use crate::text::push_lit;

use crate::select::{kept, select};
use crate::text::{decimal, int_text, join_spec, join_strings, push_int, u64_text, views};

verus! {

/// A certification as the bot shows and checks it. Role ids are kept as
/// the decimal texts the database stores.
pub struct Certification {
    pub id: String,
    pub name: String,
    pub link: String,
    pub roles_required: Vec<String>,
    pub roles_granted: Vec<String>,
    pub valid_for: Option<i32>,
    pub instructors: Option<Vec<String>>,
}

/// Some role of `roles` is written as `r`.
pub open spec fn holds_role_text(roles: Seq<u64>, r: Seq<char>) -> bool {
    exists|i: int| 0 <= i < roles.len() && decimal(roles[i] as nat) == r
}

/// The roles that count for a member: holding the member role also counts
/// as holding the junior role.
pub open spec fn effective_roles(roles: Seq<u64>, member_role: u64, junior_role: u64) -> Seq<u64> {
    if roles.contains(member_role) {
        roles.push(junior_role)
    } else {
        roles
    }
}

/// A certification is open to a member who holds every role it requires
/// and still lacks some role it grants.
pub open spec fn is_available_spec(
    required: Seq<Seq<char>>,
    granted: Seq<Seq<char>>,
    roles: Seq<u64>,
) -> bool {
    &&& forall|i: int| 0 <= i < required.len() ==> holds_role_text(roles, #[trigger] required[i])
    &&& exists|i: int| 0 <= i < granted.len() && !holds_role_text(roles, #[trigger] granted[i])
}

/// The required roles a trainee does not hold, in order.
pub open spec fn missing_spec(required: Seq<Seq<char>>, roles: Seq<u64>) -> Seq<Seq<char>>
    decreases required.len(),
{
    if required.len() == 0 {
        Seq::empty()
    } else {
        let prev = missing_spec(required.drop_last(), roles);
        if holds_role_text(roles, required.last()) {
            prev
        } else {
            prev.push(required.last())
        }
    }
}

/// The decimal texts of a list of role ids.
fn role_texts(roles: &Vec<u64>) -> (r: Vec<String>)
    ensures
        r.len() == roles.len(),
        forall|i: int| 0 <= i < r.len() ==> #[trigger] r@[i]@ == decimal(roles@[i] as nat),
{
    let mut r: Vec<String> = Vec::new();
    let mut i: usize = 0;
    while i < roles.len()
        invariant
            i <= roles.len(),
            r.len() == i,
            forall|k: int| 0 <= k < i ==> #[trigger] r@[k]@ == decimal(roles@[k] as nat),
        decreases roles.len() - i,
    {
        r.push(u64_text(roles[i]));
        i += 1;
    }
    r
}

/// Whether one of `texts` equals `r`.
fn any_equal(texts: &Vec<String>, r: &String) -> (b: bool)
    ensures
        b == exists|i: int| 0 <= i < texts.len() && texts@[i]@ == r@,
{
    let mut i: usize = 0;
    while i < texts.len()
        invariant
            i <= texts.len(),
            forall|k: int| 0 <= k < i ==> texts@[k]@ != r@,
        decreases texts.len() - i,
    {
        if texts[i] == *r {
            return true;
        }
        i += 1;
    }
    false
}

/// Whether some role of `roles` is written as `r`.
pub fn holds_role(roles: &Vec<u64>, r: &String) -> (b: bool)
    ensures
        b == holds_role_text(roles@, r@),
{
    let texts = role_texts(roles);
    let b = any_equal(&texts, r);
    proof {
        if b {
            let i = choose|i: int| 0 <= i < texts.len() && texts@[i]@ == r@;
            assert(decimal(roles@[i] as nat) == r@);
        }
        if holds_role_text(roles@, r@) {
            let i = choose|i: int| 0 <= i < roles.len() && decimal(roles@[i] as nat) == r@;
            assert(texts@[i]@ == r@);
        }
    }
    b
}

/// The roles required by a certification that the trainee does not hold.
pub fn missing_roles(required: &Vec<String>, trainee_roles: &Vec<u64>) -> (r: Vec<String>)
    ensures
        views(r@) == missing_spec(views(required@), trainee_roles@),
{
    let ghost req = views(required@);
    let mut r: Vec<String> = Vec::new();
    let mut i: usize = 0;
    while i < required.len()
        invariant
            i <= required.len(),
            req == views(required@),
            views(r@) == missing_spec(req.take(i as int), trainee_roles@),
        decreases required.len() - i,
    {
        proof {
            assert(req.take(i + 1).drop_last() == req.take(i as int));
            assert(req.take(i + 1).last() == required@[i as int]@);
        }
        if !holds_role(trainee_roles, &required[i]) {
            let ghost before = r@;
            r.push(required[i].clone());
            assert(views(r@) == views(before).push(required@[i as int]@));
        }
        i += 1;
    }
    assert(req.take(required.len() as int) == req);
    r
}

/// Whether `x` is one of `v`.
pub fn contains_u64(v: &Vec<u64>, x: u64) -> (b: bool)
    ensures
        b == v@.contains(x),
{
    let mut i: usize = 0;
    while i < v.len()
        invariant
            i <= v.len(),
            forall|k: int| 0 <= k < i ==> v@[k] != x,
        decreases v.len() - i,
    {
        if v[i] == x {
            assert(v@[i as int] == x);
            return true;
        }
        i += 1;
    }
    false
}

/// The roles that count for a member (see `effective_roles`).
pub fn member_roles_with_junior(roles: &Vec<u64>, member_role: u64, junior_role: u64) -> (r: Vec<u64>)
    ensures
        r@ == effective_roles(roles@, member_role, junior_role),
{
    let mut r: Vec<u64> = Vec::new();
    let mut i: usize = 0;
    while i < roles.len()
        invariant
            i <= roles.len(),
            r@ == roles@.take(i as int),
        decreases roles.len() - i,
    {
        r.push(roles[i]);
        assert(roles@.take(i + 1) == roles@.take(i as int).push(roles@[i as int]));
        i += 1;
    }
    assert(roles@.take(roles.len() as int) == roles@);
    if contains_u64(roles, member_role) {
        r.push(junior_role);
    }
    r
}

/// Whether a member holding `roles` (already counting the junior role)
/// may take a certification.
pub fn is_available(cert: &Certification, roles: &Vec<u64>) -> (b: bool)
    ensures
        b == is_available_spec(views(cert.roles_required@), views(cert.roles_granted@), roles@),
{
    let ghost req = views(cert.roles_required@);
    let ghost gr = views(cert.roles_granted@);
    let mut i: usize = 0;
    while i < cert.roles_required.len()
        invariant
            i <= cert.roles_required.len(),
            req == views(cert.roles_required@),
            forall|k: int| 0 <= k < i ==> holds_role_text(roles@, #[trigger] req[k]),
        decreases cert.roles_required.len() - i,
    {
        if !holds_role(roles, &cert.roles_required[i]) {
            assert(!holds_role_text(roles@, req[i as int]));
            return false;
        }
        i += 1;
    }
    let mut j: usize = 0;
    while j < cert.roles_granted.len()
        invariant
            j <= cert.roles_granted.len(),
            gr == views(cert.roles_granted@),
            req == views(cert.roles_required@),
            forall|k: int| 0 <= k < req.len() ==> holds_role_text(roles@, #[trigger] req[k]),
            forall|k: int| 0 <= k < j ==> holds_role_text(roles@, #[trigger] gr[k]),
        decreases cert.roles_granted.len() - j,
    {
        if !holds_role(roles, &cert.roles_granted[j]) {
            assert(!holds_role_text(roles@, gr[j as int]));
            return true;
        }
        j += 1;
    }
    false
}

/// The certifications a member may take, in the order listed.
pub fn available_certifications(certs: Vec<Certification>, roles: &Vec<u64>) -> (r: Vec<
    Certification,
>)
    ensures
        r@ == kept(
            certs@,
            certs@.map_values(
                |c: Certification|
                    is_available_spec(views(c.roles_required@), views(c.roles_granted@), roles@),
            ),
        ),
{
    let ghost flags = certs@.map_values(
        |c: Certification| is_available_spec(views(c.roles_required@), views(c.roles_granted@), roles@),
    );
    let mut keep: Vec<bool> = Vec::new();
    let mut i: usize = 0;
    while i < certs.len()
        invariant
            i <= certs.len(),
            keep@ == flags.take(i as int),
            flags == certs@.map_values(
                |c: Certification|
                    is_available_spec(views(c.roles_required@), views(c.roles_granted@), roles@),
            ),
        decreases certs.len() - i,
    {
        keep.push(is_available(&certs[i], roles));
        assert(flags.take(i + 1) == flags.take(i as int).push(flags[i as int]));
        i += 1;
    }
    assert(flags.take(certs.len() as int) == flags);
    select(certs, &keep)
}

/// Whether the trial's passed count calls for checking first kits: a failed
/// check stops, a count other than one stops, no count goes on.
pub fn should_check_first_kits(check_failed: bool, passed_count: Option<i64>) -> (b: bool)
    ensures
        b == (!check_failed && match passed_count {
            Some(c) => c == 1,
            None => true,
        }),
{
    if check_failed {
        return false;
    }
    match passed_count {
        Some(c) => c == 1,
        None => true,
    }
}

/// What to do with the first kits of a certification after a first pass.
#[derive(Clone, Copy, Debug, PartialEq, Eq, Structural)]
pub enum FirstKitPlan {
    /// There is no first kit to give.
    Nothing,
    /// Give the only first kit.
    GiveOnly,
    /// Ask the trainee which first kit to receive.
    AskTrainee,
}

/// The plan for a certification with `kits` first kits.
pub fn first_kit_plan(kits: usize) -> (p: FirstKitPlan)
    ensures
        p == (if kits == 0 {
            FirstKitPlan::Nothing
        } else if kits == 1 {
            FirstKitPlan::GiveOnly
        } else {
            FirstKitPlan::AskTrainee
        }),
{
    if kits == 0 {
        FirstKitPlan::Nothing
    } else if kits == 1 {
        FirstKitPlan::GiveOnly
    } else {
        FirstKitPlan::AskTrainee
    }
}

/// `<@&role>` for each role, joined by `, `.
pub open spec fn role_mentions(roles: Seq<Seq<char>>) -> Seq<char> {
    join_spec(roles.map_values(|r: Seq<char>| "<@&"@ + r + ">"@), ", "@)
}

/// `<@user>` for each user, joined by `, `.
pub open spec fn user_mentions(users: Seq<Seq<char>>) -> Seq<char> {
    join_spec(users.map_values(|u: Seq<char>| "<@"@ + u + ">"@), ", "@)
}

fn wrap_all(items: &Vec<String>, before: &str, after: &str) -> (r: Vec<String>)
    ensures
        views(r@) == views(items@).map_values(|x: Seq<char>| before@ + x + after@),
{
    let mut r: Vec<String> = Vec::new();
    let mut i: usize = 0;
    while i < items.len()
        invariant
            i <= items.len(),
            views(r@) == views(items@).take(i as int).map_values(|x: Seq<char>| before@ + x + after@),
        decreases items.len() - i,
    {
        let mut s = String::from_str(before);
        s.append(items[i].as_str());
        s.append(after);
        let ghost prev = r@;
        r.push(s);
        assert(views(items@).take(i + 1) == views(items@).take(i as int).push(items@[i as int]@));
        assert(views(r@) == views(prev).push(s@));
        i += 1;
    }
    assert(views(items@).take(items.len() as int) == views(items@));
    r
}

/// The line asking whether to submit a trial for a trainee who lacks roles.
pub fn missing_roles_prompt(missing: &Vec<String>) -> (r: String)
    ensures
        r@ == "The trainee is missing the following roles: "@ + role_mentions(views(missing@))
            + "\nDo you want to submit the trial anyway?"@,
{
    let wrapped = wrap_all(missing, "<@&", ">");
    let mut s = String::from_str("The trainee is missing the following roles: ");
    let joined = join_strings(&wrapped, ", ");
    s.append(joined.as_str());
    s.append("\nDo you want to submit the trial anyway?");
    s
}

/// The requirements line of a certification.
pub open spec fn requires_line(required: Seq<Seq<char>>) -> Seq<char> {
    if required.len() == 0 {
        "No requirements"@
    } else {
        "Requires: "@ + role_mentions(required)
    }
}

/// The validity line of a certification.
pub open spec fn validity_line(valid_for: Option<i32>) -> Seq<char> {
    match valid_for {
        Some(v) => "Valid for "@ + int_text(v as int) + " days"@,
        None => "No expiration"@,
    }
}

/// The instructors line of a certification in the list of those available.
pub open spec fn instructors_line(instructors: Option<Seq<Seq<char>>>) -> Seq<char> {
    match instructors {
        Some(ins) => if ins.len() == 0 {
            "No instructors"@
        } else {
            "Instructor(s): "@ + user_mentions(ins)
        },
        None => "No instructors"@,
    }
}

/// The block listing one certification: name, link, the instructors line
/// (only when listing what is available, else empty), requirements and
/// validity.
pub open spec fn cert_block_spec(c: Certification, available: bool) -> Seq<char> {
    "**"@ + c.name@ + "**\n<"@ + c.link@ + ">\n"@ + (if available {
        instructors_line(
            match c.instructors {
                Some(v) => Some(views(v@)),
                None => None,
            },
        )
    } else {
        Seq::empty()
    }) + "\n"@ + requires_line(views(c.roles_required@)) + "\n"@ + validity_line(c.valid_for)
        + "\n\n"@
}

/// The block listing one certification (see `cert_block_spec`).
pub fn cert_block(c: &Certification, available: bool) -> (r: String)
    ensures
        r@ == cert_block_spec(*c, available),
{
    let mut s = String::from_str("**");
    s.append(c.name.as_str());
    s.append("**\n<");
    s.append(c.link.as_str());
    s.append(">\n");
    if available {
        match &c.instructors {
            Some(ins) => {
                if ins.len() == 0 {
                    s.append("No instructors");
                } else {
                    let wrapped = wrap_all(ins, "<@", ">");
                    let joined = join_strings(&wrapped, ", ");
                    s.append("Instructor(s): ");
                    s.append(joined.as_str());
                }
            },
            None => s.append("No instructors"),
        }
    }
    s.append("\n");
    if c.roles_required.len() == 0 {
        s.append("No requirements");
    } else {
        let wrapped = wrap_all(&c.roles_required, "<@&", ">");
        let joined = join_strings(&wrapped, ", ");
        s.append("Requires: ");
        s.append(joined.as_str());
    }
    s.append("\n");
    match c.valid_for {
        Some(v) => {
            s.append("Valid for ");
            push_int(&mut s, v as i64);
            s.append(" days");
        },
        None => s.append("No expiration"),
    }
    s.append("\n\n");
    s
}

/// The message sent to a trainee whose certification expires in `days`
/// days (zero: has expired).
pub open spec fn expiry_message_spec(name: Seq<char>, days: i64) -> Seq<char> {
    if days == 0 {
        "Your cert for "@ + name
            + " has expired. Please contact an instructor to schedule a re-certification."@
    } else {
        "Your cert for "@ + name + " expires in "@ + int_text(days as int)
            + " days. Please contact an instructor to schedule a re-certification."@
    }
}

/// The message sent to a trainee about an expiring certification; the
/// granted roles are taken away exactly when `days` is zero.
pub fn expiry_message(name: &str, days: i64) -> (r: (String, bool))
    ensures
        r.0@ == expiry_message_spec(name@, days),
        r.1 == (days == 0),
{
    let mut s = String::from_str("Your cert for ");
    s.append(name);
    if days == 0 {
        s.append(" has expired. Please contact an instructor to schedule a re-certification.");
        (s, true)
    } else {
        s.append(" expires in ");
        push_int(&mut s, days);
        s.append(" days. Please contact an instructor to schedule a re-certification.");
        (s, false)
    }
}

/// The announcement of a passed trial.
pub fn certified_message(instructor: &str, trainee: &str, name: &str) -> (r: String)
    ensures
        r@ == "<@"@ + instructor@ + "> has certified <@"@ + trainee@ + "> in "@ + name@,
{
    let mut s = String::from_str("<@");
    s.append(instructor);
    s.append("> has certified <@");
    s.append(trainee);
    s.append("> in ");
    s.append(name);
    s
}

/// A certification a member holds: its name where it could be looked up,
/// when it was granted, and for how many days it is valid and until when.
pub struct HeldCertification {
    pub name: Option<String>,
    pub created: i64,
    pub valid_for: Option<i32>,
    pub valid_until: Option<i64>,
}

/// The entry of a held certification in a member's list; nothing when its
/// name could not be looked up.
pub open spec fn held_entry(c: HeldCertification) -> Seq<char> {
    match c.name {
        None => Seq::empty(),
        Some(n) => "**"@ + n@ + "**\nSince: <t:"@ + crate::text::int_text(c.created as int)
            + ":D>\n"@ + match c.valid_for {
            Some(v) => "Until: <t:"@ + crate::text::int_text(c.valid_until->0 as int) + ":D> ("@
                + crate::text::int_text(v as int) + " days)"@,
            None => "No expiration"@,
        } + "\n\n"@,
    }
}

/// A member's list of certifications.
pub open spec fn held_report_spec(member: u64, certs: Seq<HeldCertification>) -> Seq<char>
    decreases certs.len(),
{
    if certs.len() == 0 {
        "**<@"@ + crate::text::decimal(member as nat) + "> Certifications**\n\n"@
    } else {
        held_report_spec(member, certs.drop_last()) + held_entry(certs.last())
    }
}

/// Every named certification with an expiry knows until when it is valid.
pub open spec fn expiries_known(certs: Seq<HeldCertification>) -> bool {
    forall|i: int|
        0 <= i < certs.len() ==> ((#[trigger] certs[i]).name is Some && certs[i].valid_for is Some
            ==> certs[i].valid_until is Some)
}


fn held_entry_exec(c: &HeldCertification) -> (r: String)
    requires
        c.name is Some && c.valid_for is Some ==> c.valid_until is Some,
    ensures
        r@ == held_entry(*c),
{
    let mut r = String::new();
    match &c.name {
        None => {},
        Some(n) => {
            push_lit(&mut r, "**");
            push_lit(&mut r, n.as_str());
            push_lit(&mut r, "**\nSince: <t:");
            crate::text::push_int(&mut r, c.created);
            push_lit(&mut r, ":D>\n");
            match c.valid_for {
                Some(v) => {
                    let until = match c.valid_until {
                        Some(u) => u,
                        None => 0,
                    };
                    push_lit(&mut r, "Until: <t:");
                    crate::text::push_int(&mut r, until);
                    push_lit(&mut r, ":D> (");
                    crate::text::push_int(&mut r, v as i64);
                    push_lit(&mut r, " days)");
                },
                None => push_lit(&mut r, "No expiration"),
            }
            push_lit(&mut r, "\n\n");
        },
    }
    r
}

/// A member's list of certifications (see `held_report_spec`), or the note
/// that they hold none.
pub fn held_report(member: u64, certs: &Vec<HeldCertification>) -> (r: String)
    requires
        expiries_known(certs@),
    ensures
        certs@.len() == 0 ==> r@ == "<@"@ + crate::text::decimal(member as nat) + "> has no certifications"@,
        certs@.len() > 0 ==> r@ == held_report_spec(member, certs@),
{
    let mut r = String::new();
    if certs.len() == 0 {
        push_lit(&mut r, "<@");
        crate::text::push_decimal(&mut r, member);
        push_lit(&mut r, "> has no certifications");
        return r;
    }
    push_lit(&mut r, "**<@");
    crate::text::push_decimal(&mut r, member);
    push_lit(&mut r, "> Certifications**\n\n");
    let mut i: usize = 0;
    while i < certs.len()
        invariant
            i <= certs.len(),
            expiries_known(certs@),
            r@ == held_report_spec(member, certs@.take(i as int)),
        decreases certs.len() - i,
    {
        proof {
            assert(certs@.take(i + 1).drop_last() == certs@.take(i as int));
            assert(certs@.take(i + 1).last() == certs@[i as int]);
        }
        assert(certs@[i as int].name is Some && certs@[i as int].valid_for is Some
            ==> certs@[i as int].valid_until is Some);
        let e = held_entry_exec(&certs[i]);
        push_lit(&mut r, e.as_str());
        i += 1;
    }
    assert(certs@.take(certs.len() as int) == certs@);
    r
}

/// The reply once a trial was submitted, or why it failed.
pub fn trial_reply(error: Option<&str>) -> (r: String)
    ensures
        error is None ==> r@ == "Submitted trial"@,
        error matches Some(e) ==> r@ == "Failed to submit trial: "@ + e@,
{
    let mut r = String::new();
    match error {
        None => push_lit(&mut r, "Submitted trial"),
        Some(e) => {
            push_lit(&mut r, "Failed to submit trial: ");
            push_lit(&mut r, e);
        },
    }
    r
}

/// The certification a trial is for: the first of the instructor's whose
/// id is the one chosen.
pub fn certification_by_id(certs: &Vec<Certification>, id: &str) -> (r: Option<usize>)
    ensures
        r matches Some(i) ==> i < certs@.len() && certs@[i as int].id@ == id@ && forall|k: int|
            0 <= k < i ==> (#[trigger] certs@[k]).id@ != id@,
        r is None ==> forall|k: int| 0 <= k < certs@.len() ==> (#[trigger] certs@[k]).id@ != id@,
{
    let mut i: usize = 0;
    while i < certs.len()
        invariant
            i <= certs.len(),
            forall|k: int| 0 <= k < i ==> (#[trigger] certs@[k]).id@ != id@,
        decreases certs.len() - i,
    {
        if crate::handler::same_text(certs[i].id.as_str(), id) {
            return Some(i);
        }
        i += 1;
    }
    None
}

/// The line logged when the passed count of a trainee could not be checked.
pub fn passed_count_failed_log(trainee: u64, name: &str, error: &str) -> (r: String)
    ensures
        r@ == "When submitting a trial for <@"@ + decimal(trainee as nat) + "> in "@ + name@
            + ", the passed count could not be checked: "@ + error@,
{
    let mut r = String::new();
    push_lit(&mut r, "When submitting a trial for <@");
    crate::text::push_decimal(&mut r, trainee);
    push_lit(&mut r, "> in ");
    push_lit(&mut r, name);
    push_lit(&mut r, ", the passed count could not be checked: ");
    push_lit(&mut r, error);
    r
}

/// The message that asks a trainee which first kit to receive.
pub fn first_kit_question(name: &str) -> (r: String)
    ensures
        r@ == "You've passed your first trial for "@ + name@ + "! Please select a first kit to receive."@,
{
    let mut r = String::new();
    push_lit(&mut r, "You've passed your first trial for ");
    push_lit(&mut r, name);
    push_lit(&mut r, "! Please select a first kit to receive.");
    r
}

/// The line logged when a chosen first kit could not be given.
pub fn first_kit_failed_log(trainee: u64, name: &str, error: &str) -> (r: String)
    ensures
        r@ == "When <@"@ + decimal(trainee as nat) + "> selected a first kit for "@ + name@
            + ", the first kit could not be given: "@ + error@,
{
    let mut r = String::new();
    push_lit(&mut r, "When <@");
    crate::text::push_decimal(&mut r, trainee);
    push_lit(&mut r, "> selected a first kit for ");
    push_lit(&mut r, name);
    push_lit(&mut r, ", the first kit could not be given: ");
    push_lit(&mut r, error);
    r
}

/// Whether a trial is submitted: at once when the trainee holds every
/// required role, else only when the instructor answered Yes to the
/// question about the missing roles.
pub fn trial_goes_ahead(missing: usize, answer: Option<crate::interaction::Confirmation>) -> (r: bool)
    ensures
        r == (missing == 0 || answer == Some(crate::interaction::Confirmation::Yes)),
{
    if missing == 0 {
        return true;
    }
    match answer {
        Some(crate::interaction::Confirmation::Yes) => true,
        _ => false,
    }
}

/// Where handing out a first kit after a passed trial stands.
#[derive(Clone, Copy, Debug, PartialEq, Eq, Structural)]
pub enum FirstKitStage {
    /// How often the trainee passed is being checked.
    Counting,
    /// The certification's first kits are being listed.
    Listing,
    /// The only first kit is being given.
    GivingOnly,
    /// The trainee was sent the kits to choose from.
    Selecting,
    /// The kit the trainee chose is being given.
    GivingChosen,
    /// Nothing more to do.
    Done,
}

/// What happened at the current stage of handing out a first kit.
#[derive(Clone, Copy, Debug, PartialEq, Eq, Structural)]
pub enum FirstKitEvent {
    /// The passed count: whether the check failed, and the count if known.
    Counted(bool, Option<i64>),
    /// How many first kits the certification has, `None` when they could
    /// not be listed.
    Listed(Option<usize>),
    /// Giving the kit succeeded or failed.
    Given(bool),
    /// The trainee could not be sent the choice.
    AskFailed,
    /// The trainee chose a kit, or let the week pass.
    Chose(bool),
}

/// What the bot does next while handing out a first kit.
#[derive(Clone, Copy, Debug, PartialEq, Eq, Structural)]
pub enum FirstKitAction {
    /// Log that the passed count could not be checked, and stop.
    LogCountFailed,
    /// List the certification's first kits.
    ListKits,
    /// Give the only first kit.
    GiveOnly,
    /// Tell the instructor the first kit was given.
    ReplyGiven,
    /// Tell the instructor the first kit could not be given.
    ReplyGiveFailed,
    /// Send the trainee the kits to choose from, and wait a week.
    AskTrainee,
    /// Give the kit the trainee chose.
    GiveChosen,
    /// Tell the trainee the week ran out.
    TellTimedOut,
    /// Tell the trainee the kit waits in their locker.
    ConfirmChosen,
    /// Tell the trainee and log that the chosen kit could not be given.
    ReportChosenFailed,
    /// Stop without a word.
    Stop,
}

/// One step of handing out a first kit: kits are only looked at on the
/// trainee's first pass (see `should_check_first_kits`), the only kit is
/// given at once, and with several the trainee chooses.
pub open spec fn first_kit_step_spec(stage: FirstKitStage, event: FirstKitEvent) -> (
    FirstKitStage,
    FirstKitAction,
) {
    match (stage, event) {
        (FirstKitStage::Counting, FirstKitEvent::Counted(failed, count)) => if failed {
            (FirstKitStage::Done, FirstKitAction::LogCountFailed)
        } else if (match count {
            Some(c) => c == 1,
            None => true,
        }) {
            (FirstKitStage::Listing, FirstKitAction::ListKits)
        } else {
            (FirstKitStage::Done, FirstKitAction::Stop)
        },
        (FirstKitStage::Listing, FirstKitEvent::Listed(kits)) => match kits {
            None => (FirstKitStage::Done, FirstKitAction::Stop),
            Some(n) => if n == 0 {
                (FirstKitStage::Done, FirstKitAction::Stop)
            } else if n == 1 {
                (FirstKitStage::GivingOnly, FirstKitAction::GiveOnly)
            } else {
                (FirstKitStage::Selecting, FirstKitAction::AskTrainee)
            },
        },
        (FirstKitStage::GivingOnly, FirstKitEvent::Given(ok)) => if ok {
            (FirstKitStage::Done, FirstKitAction::ReplyGiven)
        } else {
            (FirstKitStage::Done, FirstKitAction::ReplyGiveFailed)
        },
        (FirstKitStage::Selecting, FirstKitEvent::Chose(picked)) => if picked {
            (FirstKitStage::GivingChosen, FirstKitAction::GiveChosen)
        } else {
            (FirstKitStage::Done, FirstKitAction::TellTimedOut)
        },
        (FirstKitStage::GivingChosen, FirstKitEvent::Given(ok)) => if ok {
            (FirstKitStage::Done, FirstKitAction::ConfirmChosen)
        } else {
            (FirstKitStage::Done, FirstKitAction::ReportChosenFailed)
        },
        _ => (FirstKitStage::Done, FirstKitAction::Stop),
    }
}

/// One step of handing out a first kit (see `first_kit_step_spec`).
pub fn first_kit_step(stage: FirstKitStage, event: FirstKitEvent) -> (r: (FirstKitStage, FirstKitAction))
    ensures
        r == first_kit_step_spec(stage, event),
{
    match (stage, event) {
        (FirstKitStage::Counting, FirstKitEvent::Counted(failed, count)) => if failed {
            (FirstKitStage::Done, FirstKitAction::LogCountFailed)
        } else if should_check_first_kits(failed, count) {
            (FirstKitStage::Listing, FirstKitAction::ListKits)
        } else {
            (FirstKitStage::Done, FirstKitAction::Stop)
        },
        (FirstKitStage::Listing, FirstKitEvent::Listed(kits)) => match kits {
            None => (FirstKitStage::Done, FirstKitAction::Stop),
            Some(n) => match first_kit_plan(n) {
                FirstKitPlan::Nothing => (FirstKitStage::Done, FirstKitAction::Stop),
                FirstKitPlan::GiveOnly => (FirstKitStage::GivingOnly, FirstKitAction::GiveOnly),
                FirstKitPlan::AskTrainee => (FirstKitStage::Selecting, FirstKitAction::AskTrainee),
            },
        },
        (FirstKitStage::GivingOnly, FirstKitEvent::Given(ok)) => if ok {
            (FirstKitStage::Done, FirstKitAction::ReplyGiven)
        } else {
            (FirstKitStage::Done, FirstKitAction::ReplyGiveFailed)
        },
        (FirstKitStage::Selecting, FirstKitEvent::Chose(picked)) => if picked {
            (FirstKitStage::GivingChosen, FirstKitAction::GiveChosen)
        } else {
            (FirstKitStage::Done, FirstKitAction::TellTimedOut)
        },
        (FirstKitStage::GivingChosen, FirstKitEvent::Given(ok)) => if ok {
            (FirstKitStage::Done, FirstKitAction::ConfirmChosen)
        } else {
            (FirstKitStage::Done, FirstKitAction::ReportChosenFailed)
        },
        _ => (FirstKitStage::Done, FirstKitAction::Stop),
    }
}

/// First kits are only listed after a check that found no other pass; the
/// only kit is given just when there is exactly one; a chosen kit is given
/// just after the trainee chose it.
pub proof fn law_first_kit_only_on_first_pass(stage: FirstKitStage, event: FirstKitEvent)
    ensures
        ({
            let (next, action) = first_kit_step_spec(stage, event);
            &&& action == FirstKitAction::ListKits <==> (stage == FirstKitStage::Counting && (event
                matches FirstKitEvent::Counted(failed, count) && !failed && (count is None || count
                == Some(1i64))))
            &&& action == FirstKitAction::GiveOnly <==> (stage == FirstKitStage::Listing && event
                == FirstKitEvent::Listed(Some(1usize)))
            &&& action == FirstKitAction::GiveChosen <==> (stage == FirstKitStage::Selecting && event
                == FirstKitEvent::Chose(true))
        }),
{
}

/// A certification is open exactly to a member who holds every role it
/// requires and still lacks at least one role it grants: holding some of
/// the granted roles does not hide it, holding all of them does, and so
/// does lacking a required role.
pub proof fn law_availability(required: Seq<Seq<char>>, granted: Seq<Seq<char>>, roles: Seq<u64>, k: int)
    ensures
        (forall|i: int| 0 <= i < required.len() ==> holds_role_text(roles, #[trigger] required[i]))
            && 0 <= k < granted.len() && !holds_role_text(roles, granted[k]) ==> is_available_spec(
            required,
            granted,
            roles,
        ),
        (forall|i: int| 0 <= i < granted.len() ==> holds_role_text(roles, #[trigger] granted[i]))
            ==> !is_available_spec(required, granted, roles),
        0 <= k < required.len() && !holds_role_text(roles, required[k]) ==> !is_available_spec(
            required,
            granted,
            roles,
        ),
{
}

/// Handing out first kits where everything succeeds: on a first pass of a
/// certification with one kit, that kit is given and the instructor told;
/// with several the trainee is asked, and the chosen kit given and
/// confirmed. A later pass, or a failed count check, gives nothing.
pub proof fn law_first_kit_flow(kits: usize, count: i64)
    requires
        kits >= 2,
        count != 1,
    ensures
        ({
            let (s1, a1) = first_kit_step_spec(FirstKitStage::Counting, FirstKitEvent::Counted(false, Some(1)));
            let (s2, a2) = first_kit_step_spec(s1, FirstKitEvent::Listed(Some(1)));
            let (s3, a3) = first_kit_step_spec(s2, FirstKitEvent::Given(true));
            &&& a1 == FirstKitAction::ListKits
            &&& a2 == FirstKitAction::GiveOnly
            &&& a3 == FirstKitAction::ReplyGiven
        }),
        ({
            let (s2, a2) = first_kit_step_spec(FirstKitStage::Listing, FirstKitEvent::Listed(Some(kits)));
            let (s3, a3) = first_kit_step_spec(s2, FirstKitEvent::Chose(true));
            let (s4, a4) = first_kit_step_spec(s3, FirstKitEvent::Given(true));
            &&& a2 == FirstKitAction::AskTrainee
            &&& a3 == FirstKitAction::GiveChosen
            &&& a4 == FirstKitAction::ConfirmChosen
        }),
        first_kit_step_spec(FirstKitStage::Counting, FirstKitEvent::Counted(false, Some(count))).1
            == FirstKitAction::Stop,
        first_kit_step_spec(FirstKitStage::Counting, FirstKitEvent::Counted(true, None)).1
            == FirstKitAction::LogCountFailed,
        first_kit_step_spec(FirstKitStage::Counting, FirstKitEvent::Counted(false, None)).1
            == FirstKitAction::ListKits,
        first_kit_step_spec(FirstKitStage::Listing, FirstKitEvent::Listed(Some(0))).1
            == FirstKitAction::Stop,
{
}

/// The roles a trainee is told they lack are exactly the required roles
/// they do not hold: every one listed is required and not held, and every
/// required role not held is listed.
pub proof fn law_missing_roles(required: Seq<Seq<char>>, roles: Seq<u64>)
    ensures
        forall|i: int| 0 <= i < missing_spec(required, roles).len() ==> required.contains(
            #[trigger] missing_spec(required, roles)[i],
        ) && !holds_role_text(roles, missing_spec(required, roles)[i]),
        forall|i: int| 0 <= i < required.len() && !holds_role_text(roles, #[trigger] required[i])
            ==> missing_spec(required, roles).contains(required[i]),
        missing_spec(required, roles).len() <= required.len(),
    decreases required.len(),
{
    if required.len() > 0 {
        let p = required.drop_last();
        law_missing_roles(p, roles);
        let m = missing_spec(required, roles);
        let mp = missing_spec(p, roles);
        assert forall|i: int| 0 <= i < m.len() implies required.contains(#[trigger] m[i]) && !holds_role_text(
            roles,
            m[i],
        ) by {
            if i < mp.len() {
                assert(m[i] == mp[i]);
                let j = choose|j: int| 0 <= j < p.len() && p[j] == mp[i];
                assert(required[j] == p[j]);
            } else {
                assert(m[i] == required.last());
                assert(required[required.len() - 1] == required.last());
            }
        }
        assert forall|i: int| 0 <= i < required.len() && !holds_role_text(roles, #[trigger] required[i])
            implies m.contains(required[i]) by {
            if i < p.len() {
                assert(p[i] == required[i]);
                let k = choose|k: int| 0 <= k < mp.len() && mp[k] == p[i];
                assert(m[k] == mp[k]);
            } else {
                assert(required[i] == required.last());
                assert(m[m.len() - 1] == required.last());
            }
        }
    }
}

} // verus!
