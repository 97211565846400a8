//! Replying to a Discord interaction: whether the reply is private, when the
//! response is deferred, when a followup is created or edited, how a yes/no
//! prompt is answered, command options, and the permission check of commands.
use vstd::prelude::*;

use crate::text::push_lit;

use crate::text::{decimal, int_text, join_spec, push_chars, chars_of, string_of, views};

verus! {

/// The answer to a yes/no prompt.
#[derive(Clone, Copy, Debug, PartialEq, Eq, Structural)]
pub enum Confirmation {
    Yes,
    No,
    Timeout,
}

/// The answer a prompt gets from the id of the button that was pressed, or
/// `Timeout` when none was pressed in time: only the `yes` button confirms.
pub fn confirmation_of(button: Option<&str>) -> (r: Confirmation)
    ensures
        button is None ==> r == Confirmation::Timeout,
        button matches Some(id) ==> (r == Confirmation::Yes <==> id@ == "yes"@),
        button matches Some(id) ==> (r == Confirmation::No <==> id@ != "yes"@),
{
    match button {
        None => Confirmation::Timeout,
        Some(id) => {
            let c = chars_of(id);
            let yes = chars_of("yes");
            if crate::text::starts_with_chars(&c, &yes) && c.len() == yes.len() {
                proof {
                    assert(c@ == yes@.subrange(0, yes@.len() as int));
                    assert(yes@.subrange(0, yes@.len() as int) == yes@);
                }
                Confirmation::Yes
            } else {
                proof {
                    if id@ == "yes"@ {
                        assert(yes@.is_prefix_of(c@));
                    }
                }
                Confirmation::No
            }
        },
    }
}

/// The kind of a Discord interaction.
#[derive(Clone, Copy, Debug, PartialEq, Eq, Structural)]
pub enum InteractionKind {
    Ping,
    Command,
    Component,
    Autocomplete,
    Modal,
}

/// Whether the bot answers an interaction of this kind through a reply:
/// commands, components and modals.
pub open spec fn answers_kind(kind: InteractionKind) -> bool {
    kind == InteractionKind::Command || kind == InteractionKind::Component || kind
        == InteractionKind::Modal
}

/// Where a reply to an interaction stands: whether the response has been
/// deferred, which followup message was created (its id), and whether the
/// replies are shown to the caller alone.
#[derive(Clone, Copy, Debug, PartialEq, Eq, Structural)]
pub struct ReplyState {
    pub initial_response: bool,
    pub message: Option<u64>,
    pub ephemeral: bool,
}

/// A new reply to an interaction of `kind` (a command, component or modal:
/// no other kind is answered through a reply), private unless the `public`
/// option was set to true.
pub fn reply_state(kind: InteractionKind, public: Option<bool>) -> (r: ReplyState)
    requires
        answers_kind(kind),
    ensures
        r == (ReplyState { initial_response: false, message: None, ephemeral: !(public == Some(true)) }),
{
    let public = match public {
        Some(p) => p,
        None => false,
    };
    ReplyState { initial_response: false, message: None, ephemeral: !public }
}

/// Whether an interaction of `kind` is answered through a reply: commands,
/// components and modals (see `answers_kind`).
pub fn answers(kind: InteractionKind) -> (r: bool)
    ensures
        r == answers_kind(kind),
{
    match kind {
        InteractionKind::Command | InteractionKind::Component | InteractionKind::Modal => true,
        _ => false,
    }
}

/// What sending a reply does first.
#[derive(Clone, Copy, Debug, PartialEq, Eq, Structural)]
pub enum FollowupAction {
    /// Create the followup message.
    Create,
    /// Edit the followup message with this id.
    Edit(u64),
}

/// Whether a deferral is still owed before the next followup, and how private it is.
pub open spec fn defer_spec(s: ReplyState) -> Option<bool> {
    if s.initial_response {
        None
    } else {
        Some(s.ephemeral)
    }
}

/// The state after the response was deferred.
pub open spec fn deferred_spec(s: ReplyState) -> ReplyState {
    ReplyState { initial_response: true, ..s }
}

/// How the next followup is sent.
pub open spec fn followup_spec(s: ReplyState) -> FollowupAction {
    match s.message {
        None => FollowupAction::Create,
        Some(id) => FollowupAction::Edit(id),
    }
}

/// The state after the followup message `id` was created.
pub open spec fn created_spec(s: ReplyState, id: u64) -> ReplyState {
    ReplyState { message: Some(id), ..s }
}

impl ReplyState {
    /// The response must be deferred (once) before a followup is sent;
    /// `Some` with the privacy of the deferral when that is still owed.
    pub fn defer(&self) -> (r: Option<bool>)
        ensures
            r == defer_spec(*self),
    {
        if self.initial_response {
            None
        } else {
            Some(self.ephemeral)
        }
    }

    /// Records that the response was deferred.
    pub fn deferred(&mut self)
        ensures
            *final(self) == deferred_spec(*old(self)),
    {
        self.initial_response = true;
    }

    /// How a followup is sent: the first creates the message, every later
    /// one edits it.
    pub fn followup(&self) -> (r: FollowupAction)
        ensures
            r == followup_spec(*self),
    {
        match self.message {
            None => FollowupAction::Create,
            Some(id) => FollowupAction::Edit(id),
        }
    }

    /// Records the followup message that was created.
    pub fn created(&mut self, id: u64)
        ensures
            *final(self) == created_spec(*old(self), id),
    {
        self.message = Some(id);
    }
}

/// A response is deferred at most once: once it was deferred, no further
/// deferral is asked for, whatever followups come after.
pub proof fn law_defer_once(s: ReplyState, id: u64)
    ensures
        defer_spec(deferred_spec(s)) is None,
        defer_spec(created_spec(deferred_spec(s), id)) is None,
        defer_spec(s) matches Some(e) ==> e == s.ephemeral,
{
}

/// The first followup creates the message; once it exists, every later
/// reply edits that same message, and deferring does not change that.
pub proof fn law_followups_edit(s: ReplyState, id: u64)
    ensures
        s.message is None ==> followup_spec(s) == FollowupAction::Create,
        followup_spec(created_spec(s, id)) == FollowupAction::Edit(id),
        followup_spec(deferred_spec(created_spec(s, id))) == FollowupAction::Edit(id),
{
}

/// What one reply sends: the deferral still owed (with its privacy), then
/// how the followup goes out.
pub open spec fn reply_effect(s: ReplyState) -> (Option<bool>, FollowupAction) {
    (defer_spec(s), followup_spec(s))
}

/// The state after one reply, `id` being the message its followup created
/// if it created one.
pub open spec fn after_reply(s: ReplyState, id: u64) -> ReplyState {
    match followup_spec(s) {
        FollowupAction::Create => created_spec(deferred_spec(s), id),
        FollowupAction::Edit(_) => deferred_spec(s),
    }
}

/// What each reply of a run sends, `ids[k]` being the message the `k`-th
/// reply's followup would create.
pub open spec fn run_effects(s: ReplyState, ids: Seq<u64>) -> Seq<(Option<bool>, FollowupAction)>
    decreases ids.len(),
{
    if ids.len() == 0 {
        Seq::empty()
    } else {
        seq![reply_effect(s)] + run_effects(after_reply(s, ids[0]), ids.drop_first())
    }
}

proof fn lemma_run_after_first(s: ReplyState, ids: Seq<u64>, m: u64)
    requires
        s.initial_response,
        s.message == Some(m),
    ensures
        run_effects(s, ids).len() == ids.len(),
        forall|k: int| 0 <= k < ids.len() ==> #[trigger] run_effects(s, ids)[k] == (
            None::<bool>,
            FollowupAction::Edit(m),
        ),
    decreases ids.len(),
{
    if ids.len() > 0 {
        let next = after_reply(s, ids[0]);
        assert(next == s);
        lemma_run_after_first(s, ids.drop_first(), m);
        assert forall|k: int| 0 <= k < ids.len() implies #[trigger] run_effects(s, ids)[k] == (
            None::<bool>,
            FollowupAction::Edit(m),
        ) by {
            if k > 0 {
                assert(run_effects(s, ids)[k] == run_effects(s, ids.drop_first())[k - 1]);
            }
        }
    }
}

/// Over a run of replies to one interaction: the first defers the response
/// (private unless the `public` option was true) and creates the followup
/// message; every later reply defers nothing and edits that same message.
pub proof fn law_reply_run(public: Option<bool>, ids: Seq<u64>)
    ensures
        ({
            let s = ReplyState { initial_response: false, message: None, ephemeral: !(public == Some(true)) };
            &&& run_effects(s, ids).len() == ids.len()
            &&& ids.len() > 0 ==> run_effects(s, ids)[0] == (
                Some(!(public == Some(true))),
                FollowupAction::Create,
            )
            &&& forall|k: int| 1 <= k < ids.len() ==> #[trigger] run_effects(s, ids)[k] == (
                None::<bool>,
                FollowupAction::Edit(ids[0]),
            )
        }),
{
    let s = ReplyState { initial_response: false, message: None, ephemeral: !(public == Some(true)) };
    if ids.len() > 0 {
        let next = after_reply(s, ids[0]);
        lemma_run_after_first(next, ids.drop_first(), ids[0]);
        assert forall|k: int| 1 <= k < ids.len() implies #[trigger] run_effects(s, ids)[k] == (
            None::<bool>,
            FollowupAction::Edit(ids[0]),
        ) by {
            assert(run_effects(s, ids)[k] == run_effects(next, ids.drop_first())[k - 1]);
        }
    }
}

/// The value of a command option as the user gave it.
#[derive(Clone, Debug)]
pub enum OptionValue {
    Autocomplete,
    Boolean(bool),
    Integer(i64),
    /// A number, with the text it is shown as.
    Number(String),
    Text(String),
    SubCommand,
    SubCommandGroup,
    Attachment(u64),
    Channel(u64),
    Mentionable(u64),
    Role(u64),
    User(u64),
    Unknown(u8),
    Unrecognized,
}

/// A command option: its name and value.
#[derive(Clone, Debug)]
pub struct CommandOption {
    pub name: String,
    pub value: OptionValue,
}

/// How an option's value is shown in a permission request.
pub open spec fn option_text_spec(v: OptionValue) -> Seq<char> {
    match v {
        OptionValue::Autocomplete => "Autocomplete"@,
        OptionValue::Boolean(b) => if b {
            "true"@
        } else {
            "false"@
        },
        OptionValue::Integer(i) => int_text(i as int),
        OptionValue::Number(t) => t@,
        OptionValue::Text(s) => s@,
        OptionValue::SubCommand => "SubCommand"@,
        OptionValue::SubCommandGroup => "SubCommandGroup"@,
        OptionValue::Attachment(a) => "Attachment: "@ + decimal(a as nat),
        OptionValue::Channel(c) => "<#"@ + decimal(c as nat) + ">"@,
        OptionValue::Mentionable(m) => decimal(m as nat),
        OptionValue::Role(r) => "<@&"@ + decimal(r as nat) + ">"@,
        OptionValue::User(u) => "<@"@ + decimal(u as nat) + ">"@,
        OptionValue::Unknown(k) => "Unknown: "@ + decimal(k as nat),
        OptionValue::Unrecognized => "Unrecognized"@,
    }
}


/// How an option's value is shown (see `option_text_spec`).
pub fn option_text(v: &OptionValue) -> (r: String)
    ensures
        r@ == option_text_spec(*v),
{
    let mut r = String::new();
    match v {
        OptionValue::Autocomplete => push_lit(&mut r, "Autocomplete"),
        OptionValue::Boolean(b) => if *b {
            push_lit(&mut r, "true")
        } else {
            push_lit(&mut r, "false")
        },
        OptionValue::Integer(i) => crate::text::push_int(&mut r, *i),
        OptionValue::Number(t) => push_lit(&mut r, t.as_str()),
        OptionValue::Text(t) => push_lit(&mut r, t.as_str()),
        OptionValue::SubCommand => push_lit(&mut r, "SubCommand"),
        OptionValue::SubCommandGroup => push_lit(&mut r, "SubCommandGroup"),
        OptionValue::Attachment(a) => {
            push_lit(&mut r, "Attachment: ");
            crate::text::push_decimal(&mut r, *a);
        },
        OptionValue::Channel(c) => {
            push_lit(&mut r, "<#");
            crate::text::push_decimal(&mut r, *c);
            push_lit(&mut r, ">");
        },
        OptionValue::Mentionable(m) => crate::text::push_decimal(&mut r, *m),
        OptionValue::Role(x) => {
            push_lit(&mut r, "<@&");
            crate::text::push_decimal(&mut r, *x);
            push_lit(&mut r, ">");
        },
        OptionValue::User(u) => {
            push_lit(&mut r, "<@");
            crate::text::push_decimal(&mut r, *u);
            push_lit(&mut r, ">");
        },
        OptionValue::Unknown(k) => {
            push_lit(&mut r, "Unknown: ");
            crate::text::push_decimal(&mut r, *k as u64);
        },
        OptionValue::Unrecognized => push_lit(&mut r, "Unrecognized"),
    }
    r
}

/// One option as it is listed in a permission request: `name: `value``
/// and a line feed.
pub open spec fn option_line(o: CommandOption) -> Seq<char> {
    o.name@ + ": `"@ + option_text_spec(o.value) + "`\n"@
}

/// The option lines of a command.
pub open spec fn option_lines(options: Seq<CommandOption>) -> Seq<Seq<char>> {
    options.map_values(|o: CommandOption| option_line(o))
}

/// The command a permission is requested for: `/name` and its options in a
/// code span, the option lines joined by spaces, then a line feed.
pub open spec fn requested_command_spec(name: Seq<char>, options: Seq<CommandOption>) -> Seq<char> {
    "`/"@ + name + " "@ + join_spec(option_lines(options), " "@) + "`\n"@
}

/// The command a permission is requested for (see `requested_command_spec`).
pub fn requested_command(name: &str, options: &Vec<CommandOption>) -> (r: String)
    ensures
        r@ == requested_command_spec(name@, options@),
{
    let mut lines: Vec<String> = Vec::new();
    let mut i: usize = 0;
    while i < options.len()
        invariant
            i <= options.len(),
            views(lines@) == option_lines(options@).take(i as int),
        decreases options.len() - i,
    {
        let o = &options[i];
        let mut l = String::new();
        push_lit(&mut l, o.name.as_str());
        push_lit(&mut l, ": `");
        let t = option_text(&o.value);
        push_lit(&mut l, t.as_str());
        push_lit(&mut l, "`\n");
        let ghost before = lines@;
        lines.push(l);
        proof {
            assert(views(lines@) == views(before).push(l@));
            assert(option_lines(options@).take(i + 1) == option_lines(options@).take(i as int).push(
                option_line(options@[i as int]),
            ));
        }
        i += 1;
    }
    assert(option_lines(options@).take(options.len() as int) == option_lines(options@));
    let joined = crate::text::join_strings(&lines, " ");
    let mut r = String::new();
    push_lit(&mut r, "`/");
    push_lit(&mut r, name);
    push_lit(&mut r, " ");
    push_lit(&mut r, joined.as_str());
    push_lit(&mut r, "`\n");
    r
}

/// The message posted to the log channel when a member asks for permission.
pub fn permission_request(user: u64, command: &str) -> (r: String)
    ensures
        r@ == "<@"@ + decimal(user as nat) + "> is requesting permission to use "@ + command@,
{
    let mut r = String::new();
    push_lit(&mut r, "<@");
    crate::text::push_decimal(&mut r, user);
    push_lit(&mut r, "> is requesting permission to use ");
    push_lit(&mut r, command);
    r
}

/// The value of the first option called `name`, as Discord's option lists
/// are searched.
pub open spec fn option_named(options: Seq<CommandOption>, name: Seq<char>) -> Option<OptionValue>
    decreases options.len(),
{
    if options.len() == 0 {
        None
    } else if options[0].name@ == name {
        Some(options[0].value)
    } else {
        option_named(options.drop_first(), name)
    }
}

/// The value of the first option called `name`, if any.
pub fn macro_get_option<'a>(options: &'a Vec<CommandOption>, name: &str) -> (r: Option<
    &'a OptionValue,
>)
    ensures
        r matches Some(v) ==> option_named(options@, name@) == Some(*v),
        r is None ==> option_named(options@, name@) is None,
{
    let target = chars_of(name);
    let mut i: usize = 0;
    assert(options@.skip(0) == options@);
    while i < options.len()
        invariant
            i <= options.len(),
            target@ == name@,
            option_named(options@, name@) == option_named(options@.skip(i as int), name@),
        decreases options.len() - i,
    {
        proof {
            assert(options@.skip(i as int)[0] == options@[i as int]);
            assert(options@.skip(i as int).drop_first() == options@.skip(i + 1));
        }
        let n = chars_of(options[i].name.as_str());
        if n.len() == target.len() && crate::text::starts_with_chars(&n, &target) {
            proof {
                assert(n@ == target@.subrange(0, target@.len() as int));
                assert(target@.subrange(0, target@.len() as int) == target@);
            }
            return Some(&options[i].value);
        }
        proof {
            if options@[i as int].name@ == name@ {
                assert(target@.is_prefix_of(n@));
            }
        }
        i += 1;
    }
    assert(options@.skip(i as int).len() == 0);
    None
}

/// The `public` boolean option of a command, if given.
pub fn public_option(options: &Vec<CommandOption>) -> (r: Option<bool>)
    ensures
        r == (match option_named(options@, "public"@) {
            Some(OptionValue::Boolean(b)) => Some(b),
            _ => None,
        }),
{
    match macro_get_option(options, "public") {
        Some(OptionValue::Boolean(b)) => Some(*b),
        _ => None,
    }
}

/// Some role of `haystack` is one of the roles of `needle`.
pub open spec fn has_any_role_spec(needle: Seq<u64>, haystack: Seq<u64>) -> bool {
    exists|i: int| 0 <= i < haystack.len() && needle.contains(#[trigger] haystack[i])
}

/// Whether a member with the roles `haystack` holds one of the roles `needle`.
pub fn has_any_role(needle: &Vec<u64>, haystack: &Vec<u64>) -> (r: bool)
    ensures
        r == has_any_role_spec(needle@, haystack@),
{
    let mut i: usize = 0;
    while i < haystack.len()
        invariant
            i <= haystack.len(),
            forall|j: int| 0 <= j < i ==> !needle@.contains(#[trigger] haystack@[j]),
        decreases haystack.len() - i,
    {
        if crate::certifications::contains_u64(needle, haystack[i]) {
            return true;
        }
        i += 1;
    }
    false
}

/// What a command does about a member who lacks its roles.
#[derive(Clone, Copy, Debug, PartialEq, Eq, Structural)]
pub enum RoleDecision {
    /// The member holds one of the roles: the command runs.
    Allowed,
    /// Staff are asked for permission in the log channel.
    Ask,
    /// The command is refused.
    Deny,
}

/// The decision of a command's role check: allowed when the member holds
/// one of the roles, else ask for permission where the command allows it,
/// else deny.
pub fn requires_roles(needle: &Vec<u64>, haystack: &Vec<u64>, may_ask: bool) -> (r: RoleDecision)
    ensures
        has_any_role_spec(needle@, haystack@) ==> r == RoleDecision::Allowed,
        !has_any_role_spec(needle@, haystack@) && may_ask ==> r == RoleDecision::Ask,
        !has_any_role_spec(needle@, haystack@) && !may_ask ==> r == RoleDecision::Deny,
{
    if has_any_role(needle, haystack) {
        RoleDecision::Allowed
    } else if may_ask {
        RoleDecision::Ask
    } else {
        RoleDecision::Deny
    }
}

/// Where a command's permission check stands.
#[derive(Clone, Copy, Debug, PartialEq, Eq, Structural)]
pub enum PermissionStage {
    /// The member's roles are being checked.
    Start,
    /// The member was asked whether to request permission.
    AskingMember,
    /// The request is being posted in the log channel.
    Posting,
    /// The request was posted; staff have ten minutes to answer.
    AwaitingStaff,
    /// The command may run.
    Allowed,
    /// The command is refused.
    Denied,
}

/// What happened at the current stage of a permission check.
#[derive(Clone, Copy, Debug, PartialEq, Eq, Structural)]
pub enum PermissionEvent {
    /// The role check decided (see `requires_roles`).
    Roles(RoleDecision),
    /// The member answered the question whether to request permission.
    MemberAnswered(Confirmation),
    /// Posting the request succeeded or failed.
    Posted(bool),
    /// Staff answered: `Some(true)` approved, `Some(false)` denied, `None`
    /// no answer in time.
    StaffAnswered(Option<bool>),
}

/// What the bot does next in a permission check.
#[derive(Clone, Copy, Debug, PartialEq, Eq, Structural)]
pub enum PermissionAction {
    /// Run the command.
    Run,
    /// Ask the member whether to request permission.
    AskMember,
    /// Post the request, with approve and deny buttons, in the log channel.
    PostRequest,
    /// Tell the member the request is pending and wait for staff.
    AwaitStaff,
    /// Refuse: the member lacks the roles and may not ask.
    RefuseNoPermission,
    /// Refuse: the member did not ask for permission.
    RefuseNotRequested,
    /// Refuse: the request could not be posted.
    RefusePostFailed,
    /// Refuse: staff did not answer in time.
    RefuseTimedOut,
    /// Refuse: staff denied the request.
    RefuseDenied,
}

/// One step of a permission check: from a stage and what happened there
/// to the next stage and what to do. Only a held role or a staff approval
/// lets the command run; any other outcome, or an event that does not
/// belong to the stage, refuses it.
pub open spec fn permission_step_spec(stage: PermissionStage, event: PermissionEvent) -> (
    PermissionStage,
    PermissionAction,
) {
    match (stage, event) {
        (PermissionStage::Start, PermissionEvent::Roles(d)) => match d {
            RoleDecision::Allowed => (PermissionStage::Allowed, PermissionAction::Run),
            RoleDecision::Ask => (PermissionStage::AskingMember, PermissionAction::AskMember),
            RoleDecision::Deny => (PermissionStage::Denied, PermissionAction::RefuseNoPermission),
        },
        (PermissionStage::AskingMember, PermissionEvent::MemberAnswered(c)) => if c
            == Confirmation::Yes {
            (PermissionStage::Posting, PermissionAction::PostRequest)
        } else {
            (PermissionStage::Denied, PermissionAction::RefuseNotRequested)
        },
        (PermissionStage::Posting, PermissionEvent::Posted(ok)) => if ok {
            (PermissionStage::AwaitingStaff, PermissionAction::AwaitStaff)
        } else {
            (PermissionStage::Denied, PermissionAction::RefusePostFailed)
        },
        (PermissionStage::AwaitingStaff, PermissionEvent::StaffAnswered(a)) => match a {
            Some(true) => (PermissionStage::Allowed, PermissionAction::Run),
            Some(false) => (PermissionStage::Denied, PermissionAction::RefuseDenied),
            None => (PermissionStage::Denied, PermissionAction::RefuseTimedOut),
        },
        _ => (PermissionStage::Denied, PermissionAction::RefuseNoPermission),
    }
}

/// One step of a permission check (see `permission_step_spec`).
pub fn permission_step(stage: PermissionStage, event: PermissionEvent) -> (r: (
    PermissionStage,
    PermissionAction,
))
    ensures
        r == permission_step_spec(stage, event),
{
    match (stage, event) {
        (PermissionStage::Start, PermissionEvent::Roles(d)) => match d {
            RoleDecision::Allowed => (PermissionStage::Allowed, PermissionAction::Run),
            RoleDecision::Ask => (PermissionStage::AskingMember, PermissionAction::AskMember),
            RoleDecision::Deny => (PermissionStage::Denied, PermissionAction::RefuseNoPermission),
        },
        (PermissionStage::AskingMember, PermissionEvent::MemberAnswered(c)) => match c {
            Confirmation::Yes => (PermissionStage::Posting, PermissionAction::PostRequest),
            _ => (PermissionStage::Denied, PermissionAction::RefuseNotRequested),
        },
        (PermissionStage::Posting, PermissionEvent::Posted(ok)) => if ok {
            (PermissionStage::AwaitingStaff, PermissionAction::AwaitStaff)
        } else {
            (PermissionStage::Denied, PermissionAction::RefusePostFailed)
        },
        (PermissionStage::AwaitingStaff, PermissionEvent::StaffAnswered(a)) => match a {
            Some(true) => (PermissionStage::Allowed, PermissionAction::Run),
            Some(false) => (PermissionStage::Denied, PermissionAction::RefuseDenied),
            None => (PermissionStage::Denied, PermissionAction::RefuseTimedOut),
        },
        _ => (PermissionStage::Denied, PermissionAction::RefuseNoPermission),
    }
}

/// The reply a refused command gets, where it gets one.
pub fn refusal_reply(a: PermissionAction) -> (r: Option<&'static str>)
    ensures
        a == PermissionAction::RefuseNoPermission ==> (r matches Some(t) && t@
            == "You do not have permission to use this command."@),
        a == PermissionAction::RefusePostFailed ==> (r matches Some(t) && t@
            == "Failed to send request message."@),
        a == PermissionAction::RefuseTimedOut ==> (r matches Some(t) && t@
            == "Didn't receive a response"@),
        a == PermissionAction::RefuseDenied ==> (r matches Some(t) && t@ == "Denied"@),
        a != PermissionAction::RefuseNoPermission && a != PermissionAction::RefusePostFailed && a
            != PermissionAction::RefuseTimedOut && a != PermissionAction::RefuseDenied ==> r is None,
{
    match a {
        PermissionAction::RefuseNoPermission => Some("You do not have permission to use this command."),
        PermissionAction::RefusePostFailed => Some("Failed to send request message."),
        PermissionAction::RefuseTimedOut => Some("Didn't receive a response"),
        PermissionAction::RefuseDenied => Some("Denied"),
        _ => None,
    }
}

/// The permission check lets a command run only on a held role or a staff
/// approval, and only then reaches the allowed stage; a member who declines
/// to ask, or whose question times out, is refused.
pub proof fn law_permission_only_when_granted(stage: PermissionStage, event: PermissionEvent)
    ensures
        ({
            let (next, action) = permission_step_spec(stage, event);
            &&& (action == PermissionAction::Run <==> next == PermissionStage::Allowed)
            &&& action == PermissionAction::Run ==> (stage == PermissionStage::Start && event
                == PermissionEvent::Roles(RoleDecision::Allowed)) || (stage
                == PermissionStage::AwaitingStaff && event == PermissionEvent::StaffAnswered(
                Some(true),
            ))
            &&& stage == PermissionStage::AskingMember ==> (event matches PermissionEvent::MemberAnswered(c)
                ==> (c != Confirmation::Yes ==> next == PermissionStage::Denied))
            &&& (stage == PermissionStage::Allowed || stage == PermissionStage::Denied)
                ==> next == PermissionStage::Denied
        }),
{
}

/// The id of the button that approves a permission request.
pub fn approved(button: &str) -> (r: bool)
    ensures
        r <==> button@ == "approve"@,
{
    let c = chars_of(button);
    let a = chars_of("approve");
    if c.len() == a.len() && crate::text::starts_with_chars(&c, &a) {
        proof {
            assert(c@ == a@.subrange(0, a@.len() as int));
            assert(a@.subrange(0, a@.len() as int) == a@);
        }
        true
    } else {
        proof {
            if button@ == "approve"@ {
                assert(a@.is_prefix_of(c@));
            }
        }
        false
    }
}

/// The reply after a staff member approved or denied a request.
pub fn decided_by(approved: bool, staff: u64) -> (r: String)
    ensures
        approved ==> r@ == "Approved by <@"@ + decimal(staff as nat) + ">"@,
        !approved ==> r@ == "Denied by <@"@ + decimal(staff as nat) + ">"@,
{
    let mut r = String::new();
    if approved {
        push_lit(&mut r, "Approved by <@");
    } else {
        push_lit(&mut r, "Denied by <@");
    }
    crate::text::push_decimal(&mut r, staff);
    push_lit(&mut r, ">");
    r
}

/// The type of a command option in a command's schema.
#[derive(Clone, Copy, Debug, PartialEq, Eq, Structural)]
pub enum OptionKind {
    SubCommand,
    SubCommandGroup,
    Text,
    Integer,
    Boolean,
    User,
    Channel,
    Role,
    Mentionable,
    Number,
    Attachment,
}

/// A command option as a command declares it: its type, name,
/// description, whether it must be given, and its own options.
#[derive(Debug)]
pub struct OptionSchema {
    pub kind: OptionKind,
    pub name: String,
    pub description: String,
    pub required: bool,
    pub sub_options: Vec<OptionSchema>,
}

/// Options that can offer their response publicly.
pub trait AllowPublic: Sized {
    /// The option with an optional `public` flag added.
    fn allow_public(self) -> Self;
}

/// The optional `public` flag a command offers.
pub open spec fn public_flag(o: OptionSchema) -> bool {
    &&& o.kind == OptionKind::Boolean
    &&& o.name@ == "public"@
    &&& o.description@ == "Post the response publicly"@
    &&& !o.required
    &&& o.sub_options@.len() == 0
}

impl AllowPublic for OptionSchema {
    fn allow_public(self) -> (r: Self)
        ensures
            r.kind == self.kind,
            r.name == self.name,
            r.description == self.description,
            r.required == self.required,
            r.sub_options@.len() == self.sub_options@.len() + 1,
            r.sub_options@.drop_last() == self.sub_options@,
            public_flag(r.sub_options@.last()),
    {
        let mut o = self;
        let flag = OptionSchema {
            kind: OptionKind::Boolean,
            name: string_of(&chars_of("public")),
            description: string_of(&chars_of("Post the response publicly")),
            required: false,
            sub_options: Vec::new(),
        };
        o.sub_options.push(flag);
        o
    }
}

/// A member holding one role of a command's roles may use it: a single held
/// role counts exactly when it is one of them, holding more roles never
/// takes that away, and holding none never grants it.
pub proof fn law_roles_held(needle: Seq<u64>, haystack: Seq<u64>, extra: u64, r: u64)
    ensures
        has_any_role_spec(needle, seq![r]) <==> needle.contains(r),
        has_any_role_spec(needle, haystack) ==> has_any_role_spec(needle, haystack.push(extra)),
        !has_any_role_spec(needle, Seq::<u64>::empty()),
        has_any_role_spec(needle, haystack.push(extra)) <==> (has_any_role_spec(needle, haystack)
            || needle.contains(extra)),
{
    if has_any_role_spec(needle, haystack) {
        let i = choose|i: int| 0 <= i < haystack.len() && needle.contains(#[trigger] haystack[i]);
        assert(haystack.push(extra)[i] == haystack[i]);
    }
    if needle.contains(extra) {
        assert(haystack.push(extra)[haystack.len() as int] == extra);
    }
    if has_any_role_spec(needle, haystack.push(extra)) {
        let i = choose|i: int| 0 <= i < haystack.push(extra).len() && needle.contains(#[trigger] haystack.push(extra)[i]);
        if i < haystack.len() {
            assert(haystack.push(extra)[i] == haystack[i]);
        }
    }
    if needle.contains(r) {
        assert(seq![r][0] == r);
    }
}

/// The whole permission check: a member with a role runs the command at
/// once; one without a role who may not ask is refused; one who asks, has
/// the request posted and approved by staff runs it after four steps.
pub proof fn law_permission_flow()
    ensures
        permission_step_spec(PermissionStage::Start, PermissionEvent::Roles(RoleDecision::Allowed)).1
            == PermissionAction::Run,
        permission_step_spec(PermissionStage::Start, PermissionEvent::Roles(RoleDecision::Deny)).1
            == PermissionAction::RefuseNoPermission,
        ({
            let (s1, a1) = permission_step_spec(PermissionStage::Start, PermissionEvent::Roles(RoleDecision::Ask));
            let (s2, a2) = permission_step_spec(s1, PermissionEvent::MemberAnswered(Confirmation::Yes));
            let (s3, a3) = permission_step_spec(s2, PermissionEvent::Posted(true));
            let (s4, a4) = permission_step_spec(s3, PermissionEvent::StaffAnswered(Some(true)));
            &&& a1 == PermissionAction::AskMember
            &&& a2 == PermissionAction::PostRequest
            &&& a3 == PermissionAction::AwaitStaff
            &&& a4 == PermissionAction::Run
            &&& s4 == PermissionStage::Allowed
            &&& permission_step_spec(s3, PermissionEvent::StaffAnswered(Some(false))).1 == PermissionAction::RefuseDenied
            &&& permission_step_spec(s3, PermissionEvent::StaffAnswered(None)).1 == PermissionAction::RefuseTimedOut
            &&& permission_step_spec(s2, PermissionEvent::Posted(false)).1 == PermissionAction::RefusePostFailed
        }),
{
}

} // verus!
