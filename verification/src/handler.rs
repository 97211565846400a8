//! What the bot does on Discord's events: which handler a command, an
//! autocompletion or a button goes to, what a posted message sets off, and
//! the messages about members joining, leaving or being banned.
use vstd::prelude::*;

use crate::text::push_lit;

use crate::text::{chars_of, decimal, push_chars, string_of};

verus! {

/// Whether two texts are equal.
pub fn same_text(a: &str, b: &str) -> (r: bool)
    ensures
        r <==> a@ == b@,
{
    let x = chars_of(a);
    let y = chars_of(b);
    if x.len() != y.len() {
        return false;
    }
    let mut i: usize = 0;
    while i < x.len()
        invariant
            i <= x.len(),
            x.len() == y.len(),
            x@ == a@,
            y@ == b@,
            x@.subrange(0, i as int) == y@.subrange(0, i as int),
        decreases x.len() - i,
    {
        if x[i] != y[i] {
            assert(x@[i as int] != y@[i as int]);
            return false;
        }
        assert(x@.subrange(0, i + 1) == x@.subrange(0, i as int).push(x@[i as int]));
        assert(y@.subrange(0, i + 1) == y@.subrange(0, i as int).push(y@[i as int]));
        i += 1;
    }
    assert(x@ == x@.subrange(0, i as int));
    assert(y@ == y@.subrange(0, i as int));
    true
}

/// The handler a slash command or message command goes to.
#[derive(Clone, Copy, Debug, PartialEq, Eq, Structural)]
pub enum CommandRoute {
    Bank,
    Certifications,
    Docker,
    Garage,
    Gear,
    Missions,
    Reputation,
    Schedule,
    Surveys,
    AarIds,
    AarPay,
    Ignored,
}

/// The name of the message command that lists a report's ids.
pub open spec fn menu_aar_ids() -> Seq<char> {
    "AAR - Get IDs"@
}

/// The name of the message command that pays a report's mission.
pub open spec fn menu_aar_pay() -> Seq<char> {
    "AAR - Pay"@
}

/// The handler of the command called `name`.
pub open spec fn command_route_spec(name: Seq<char>) -> CommandRoute {
    if name == "bank"@ {
        CommandRoute::Bank
    } else if name == "certifications"@ {
        CommandRoute::Certifications
    } else if name == "docker"@ {
        CommandRoute::Docker
    } else if name == "garage"@ {
        CommandRoute::Garage
    } else if name == "gear"@ {
        CommandRoute::Gear
    } else if name == "missions"@ {
        CommandRoute::Missions
    } else if name == "reputation"@ {
        CommandRoute::Reputation
    } else if name == "schedule"@ {
        CommandRoute::Schedule
    } else if name == "surveys"@ {
        CommandRoute::Surveys
    } else if name == menu_aar_ids() {
        CommandRoute::AarIds
    } else if name == menu_aar_pay() {
        CommandRoute::AarPay
    } else {
        CommandRoute::Ignored
    }
}

/// The handler of the command called `name` (see `command_route_spec`).
pub fn command_route(name: &str) -> (r: CommandRoute)
    ensures
        r == command_route_spec(name@),
{
    if same_text(name, "bank") {
        CommandRoute::Bank
    } else if same_text(name, "certifications") {
        CommandRoute::Certifications
    } else if same_text(name, "docker") {
        CommandRoute::Docker
    } else if same_text(name, "garage") {
        CommandRoute::Garage
    } else if same_text(name, "gear") {
        CommandRoute::Gear
    } else if same_text(name, "missions") {
        CommandRoute::Missions
    } else if same_text(name, "reputation") {
        CommandRoute::Reputation
    } else if same_text(name, "schedule") {
        CommandRoute::Schedule
    } else if same_text(name, "surveys") {
        CommandRoute::Surveys
    } else if same_text(name, "AAR - Get IDs") {
        CommandRoute::AarIds
    } else if same_text(name, "AAR - Pay") {
        CommandRoute::AarPay
    } else {
        CommandRoute::Ignored
    }
}

/// The handler of an autocompletion for the command called `name`: the
/// commands with autocompleted options.
pub open spec fn autocomplete_route_spec(name: Seq<char>) -> CommandRoute {
    if name == "certifications"@ {
        CommandRoute::Certifications
    } else if name == "docker"@ {
        CommandRoute::Docker
    } else if name == "garage"@ {
        CommandRoute::Garage
    } else if name == "gear"@ {
        CommandRoute::Gear
    } else if name == "missions"@ {
        CommandRoute::Missions
    } else if name == "schedule"@ {
        CommandRoute::Schedule
    } else if name == "surveys"@ {
        CommandRoute::Surveys
    } else {
        CommandRoute::Ignored
    }
}

/// The handler of an autocompletion (see `autocomplete_route_spec`).
pub fn autocomplete_route(name: &str) -> (r: CommandRoute)
    ensures
        r == autocomplete_route_spec(name@),
{
    if same_text(name, "certifications") {
        CommandRoute::Certifications
    } else if same_text(name, "docker") {
        CommandRoute::Docker
    } else if same_text(name, "garage") {
        CommandRoute::Garage
    } else if same_text(name, "gear") {
        CommandRoute::Gear
    } else if same_text(name, "missions") {
        CommandRoute::Missions
    } else if same_text(name, "schedule") {
        CommandRoute::Schedule
    } else if same_text(name, "surveys") {
        CommandRoute::Surveys
    } else {
        CommandRoute::Ignored
    }
}

/// What a pressed button sets off.
#[derive(Clone, Copy, Debug, PartialEq, Eq, Structural)]
pub enum ButtonRoute {
    /// An answer to a mission's invitation.
    Rsvp,
    /// A member who was reached out to is busy but wants to come back.
    ReachoutYes,
    /// A member who was reached out to stays in the Discord without playing.
    ReachoutMaybe,
    /// A member who was reached out to wants to leave.
    ReachoutNo,
    Ignored,
}

/// What the button with the id `id` sets off.
pub open spec fn button_route_spec(id: Seq<char>) -> ButtonRoute {
    if id == "rsvp_yes"@ || id == "rsvp_maybe"@ || id == "rsvp_no"@ {
        ButtonRoute::Rsvp
    } else if id == "reachout_yes"@ {
        ButtonRoute::ReachoutYes
    } else if id == "reachout_maybe"@ {
        ButtonRoute::ReachoutMaybe
    } else if id == "reachout_no"@ {
        ButtonRoute::ReachoutNo
    } else {
        ButtonRoute::Ignored
    }
}

/// What a pressed button sets off: whether it submits a survey (its id
/// starts with `survey_submit:`), and which other handler it goes to.
pub fn button_route(id: &str) -> (r: (bool, ButtonRoute))
    ensures
        r.0 <==> "survey_submit:"@.is_prefix_of(id@),
        r.1 == button_route_spec(id@),
{
    let survey = crate::text::starts_with_chars(&chars_of(id), &chars_of("survey_submit:"));
    let route = if same_text(id, "rsvp_yes") || same_text(id, "rsvp_maybe") || same_text(
        id,
        "rsvp_no",
    ) {
        ButtonRoute::Rsvp
    } else if same_text(id, "reachout_yes") {
        ButtonRoute::ReachoutYes
    } else if same_text(id, "reachout_maybe") {
        ButtonRoute::ReachoutMaybe
    } else if same_text(id, "reachout_no") {
        ButtonRoute::ReachoutNo
    } else {
        ButtonRoute::Ignored
    };
    (survey, route)
}


/// The line logged for a reach-out answer of the member `user`; `None` for
/// a route that is no reach-out answer.
pub fn reachout_log(route: ButtonRoute, user: u64) -> (r: Option<String>)
    ensures
        route == ButtonRoute::ReachoutYes ==> (r matches Some(t) && t@ == "<@"@ + decimal(
            user as nat,
        )
            + "> is currently busy or not interested in playing Arma, but wants to return to Synixe in the future!"@),
        route == ButtonRoute::ReachoutMaybe ==> (r matches Some(t) && t@ == "<@"@ + decimal(
            user as nat,
        ) + "> is not interested in playing, but wishes to remain in the Discord for now"@),
        route == ButtonRoute::ReachoutNo ==> (r matches Some(t) && t@ == "<@"@ + decimal(
            user as nat,
        )
            + "> is no longer interested in being a part of Synixe Contractors and would like to leave the Discord server"@),
        route != ButtonRoute::ReachoutYes && route != ButtonRoute::ReachoutMaybe && route
            != ButtonRoute::ReachoutNo ==> r is None,
{
    let tail = match route {
        ButtonRoute::ReachoutYes => "> is currently busy or not interested in playing Arma, but wants to return to Synixe in the future!",
        ButtonRoute::ReachoutMaybe => "> is not interested in playing, but wishes to remain in the Discord for now",
        ButtonRoute::ReachoutNo => "> is no longer interested in being a part of Synixe Contractors and would like to leave the Discord server",
        _ => {
            return None;
        },
    };
    let mut r = String::new();
    push_lit(&mut r, "<@");
    crate::text::push_decimal(&mut r, user);
    push_lit(&mut r, tail);
    Some(r)
}

/// A member as the log names them: their name, with `#` and their
/// discriminator where they still have one.
pub open spec fn member_label_spec(name: Seq<char>, discriminator: Option<u16>) -> Seq<char> {
    match discriminator {
        Some(d) => name + "#"@ + decimal(d as nat),
        None => name,
    }
}

/// The line logged when a member leaves or is banned: their label, their id
/// in brackets, what happened, and a mention of them.
pub open spec fn departure_spec(
    name: Seq<char>,
    discriminator: Option<u16>,
    id: u64,
    banned: bool,
) -> Seq<char> {
    member_label_spec(name, discriminator) + " ("@ + decimal(id as nat) + if banned {
        ") was banned, <@"@
    } else {
        ") has left, <@"@
    } + decimal(id as nat) + ">"@
}

/// The line logged when a member leaves or is banned (see `departure_spec`).
pub fn departure_log(name: &str, discriminator: Option<u16>, id: u64, banned: bool) -> (r: String)
    ensures
        r@ == departure_spec(name@, discriminator, id, banned),
{
    let mut r = String::new();
    push_lit(&mut r, name);
    match discriminator {
        Some(d) => {
            push_lit(&mut r, "#");
            crate::text::push_decimal(&mut r, d as u64);
        },
        None => {},
    }
    push_lit(&mut r, " (");
    crate::text::push_decimal(&mut r, id);
    if banned {
        push_lit(&mut r, ") was banned, <@");
    } else {
        push_lit(&mut r, ") has left, <@");
    }
    crate::text::push_decimal(&mut r, id);
    push_lit(&mut r, ">");
    r
}

/// The welcome posted in the lobby for a new member, pointing to the
/// onboarding channel.
pub fn welcome(member: u64, onboarding: u64) -> (r: String)
    ensures
        r@ == "Welcome <@"@ + decimal(member as nat) + ">! Please follow the steps in <#"@ + decimal(
            onboarding as nat,
        )
            + "> to get prepared to jump in game with us. If you have any questions, feel free to ask here or reply to this post, I may know the answer!"@,
{
    let mut r = String::new();
    push_lit(&mut r, "Welcome <@");
    crate::text::push_decimal(&mut r, member);
    push_lit(&mut r, ">! Please follow the steps in <#");
    crate::text::push_decimal(&mut r, onboarding);
    push_lit(
        &mut r,
        "> to get prepared to jump in game with us. If you have any questions, feel free to ask here or reply to this post, I may know the answer!",
    );
    r
}

/// The funds a recruit starts with.
pub const STARTING_FUNDS: i32 = 3500;

/// A recruit is given the starting funds once: when they hold the recruit
/// role and no starting funds were deposited for them yet.
pub fn needs_starting_funds(roles: &Vec<u64>, recruit: u64, deposits: usize) -> (r: bool)
    ensures
        r <==> roles@.contains(recruit) && deposits == 0,
{
    crate::certifications::contains_u64(roles, recruit) && deposits == 0
}

/// Where a message was posted, as far as the bot cares.
#[derive(Clone, Copy, Debug, PartialEq, Eq, Structural)]
pub enum ChannelKind {
    Leadership,
    Bot,
    LookingToPlay,
    OnTopic,
    OffTopic,
    Lobby,
    Other,
}

/// A posted message, as far as the bot cares.
pub struct PostedMessage {
    pub channel: ChannelKind,
    pub content: String,
    pub from_bot: bool,
    /// Whether the bot itself posted it.
    pub from_self: bool,
    pub has_embeds: bool,
    pub mentions_self: bool,
}

/// What a posted message sets off, before the chat.
#[derive(Clone, Copy, Debug, PartialEq, Eq, Structural)]
pub enum MessageRoute {
    /// Check the message as an after-action report.
    CheckReport,
    /// Delete the message and move the channel's mission posts below it.
    BumpMissions,
    /// Update the activity roles.
    UpdateActivity,
    /// Go on to the mission post counter and the chat.
    Continue,
}

/// What a posted message sets off first: reports in the leadership
/// channel, the bump command anywhere, the activity command in the bot
/// channel.
pub open spec fn message_route_spec(channel: ChannelKind, content: Seq<char>) -> MessageRoute {
    if channel == ChannelKind::Leadership {
        MessageRoute::CheckReport
    } else if content == "!exec mission-bump"@ {
        MessageRoute::BumpMissions
    } else if channel == ChannelKind::Bot && content == "!exec active"@ {
        MessageRoute::UpdateActivity
    } else {
        MessageRoute::Continue
    }
}

/// What a posted message sets off first (see `message_route_spec`).
pub fn message_route(m: &PostedMessage) -> (r: MessageRoute)
    ensures
        r == message_route_spec(m.channel, m.content@),
{
    if m.channel == ChannelKind::Leadership {
        MessageRoute::CheckReport
    } else if same_text(m.content.as_str(), "!exec mission-bump") {
        MessageRoute::BumpMissions
    } else if m.channel == ChannelKind::Bot && same_text(m.content.as_str(), "!exec active") {
        MessageRoute::UpdateActivity
    } else {
        MessageRoute::Continue
    }
}

/// How many messages in the looking-to-play channel move its mission posts
/// back to the bottom.
pub const BUMP_EVERY: u32 = 15;

/// The counter of messages in the looking-to-play channel after a message,
/// and whether the mission posts move: a post of the bot's own with embeds
/// resets the counter; any other message counts, and every fifteenth
/// moves the posts.
pub open spec fn counter_step_spec(since: u32, own_embed: bool) -> (u32, bool) {
    if own_embed {
        (0, false)
    } else {
        ((since + 1) as u32, (since + 1) % (BUMP_EVERY as int) == 0)
    }
}

/// The counter after a message in the looking-to-play channel (see
/// `counter_step_spec`).
pub fn counter_step(since: u32, own_embed: bool) -> (r: (u32, bool))
    requires
        own_embed || since < u32::MAX,
    ensures
        r == counter_step_spec(since, own_embed),
{
    if own_embed {
        (0, false)
    } else {
        (since + 1, (since + 1) % BUMP_EVERY == 0)
    }
}

/// Counting from a reset, the mission posts move exactly when the number of
/// messages counted is a multiple of fifteen.
pub proof fn law_bump_every_fifteen(since: u32)
    requires
        since < u32::MAX,
    ensures
        counter_step_spec(since, false).0 == since + 1,
        counter_step_spec(since, false).1 <==> (since + 1) % 15 == 0,
        counter_step_spec(since, true) == (0u32, false),
{
}

/// What the chat does with a message: answer it, let it pass into the
/// conversation, or ignore it.
#[derive(Clone, Copy, Debug, PartialEq, Eq, Structural)]
pub enum ChatRoute {
    Answer,
    Observe,
    Ignore,
}

/// The channels the chat listens in.
pub open spec fn chat_channel(c: ChannelKind) -> bool {
    c == ChannelKind::OnTopic || c == ChannelKind::OffTopic || c == ChannelKind::Bot || c
        == ChannelKind::LookingToPlay || c == ChannelKind::Lobby
}

/// What the chat does with a message, `roll` drawn from 0 to 99: in its
/// channels, from a person, while it is awake, a message with content is
/// answered when it mentions the bot or by a four in a hundred chance, and
/// otherwise observed.
pub open spec fn chat_route_spec(m: PostedMessage, awake: bool, roll: u32) -> ChatRoute {
    if !chat_channel(m.channel) || m.from_bot || !awake || m.content@.len() == 0 {
        ChatRoute::Ignore
    } else if m.mentions_self || roll < 4 {
        ChatRoute::Answer
    } else {
        ChatRoute::Observe
    }
}

/// What the chat does with a message (see `chat_route_spec`).
pub fn chat_route(m: &PostedMessage, awake: bool, roll: u32) -> (r: ChatRoute)
    ensures
        r == chat_route_spec(*m, awake, roll),
{
    let in_channel = match m.channel {
        ChannelKind::OnTopic | ChannelKind::OffTopic | ChannelKind::Bot | ChannelKind::LookingToPlay
        | ChannelKind::Lobby => true,
        _ => false,
    };
    if !in_channel || m.from_bot || !awake || chars_of(m.content.as_str()).len() == 0 {
        ChatRoute::Ignore
    } else if m.mentions_self || roll < 4 {
        ChatRoute::Answer
    } else {
        ChatRoute::Observe
    }
}

/// Calls rand's `random_range` over `0..100`: a number drawn from the
/// thread's generator, below 100; nothing is claimed of which.
#[verifier::external_body]
fn roll_percent() -> (r: u32)
    ensures
        r < 100,
{
    rand::random_range(0..100u32)
}

/// What the chat does with a message, with the chance drawn here.
pub fn chat_route_now(m: &PostedMessage, awake: bool) -> (r: ChatRoute)
    ensures
        exists|roll: u32| roll < 100 && r == chat_route_spec(*m, awake, roll),
{
    let roll = roll_percent();
    chat_route(m, awake, roll)
}

/// Whether an edited report must be fetched and checked again: when the
/// edit's content is known, only if it starts or ends with a code fence.
pub fn recheck_edit(content: Option<&str>) -> (r: bool)
    ensures
        content is None ==> r,
        content matches Some(c) ==> (r <==> "```"@.is_prefix_of(c@) || "```"@.is_suffix_of(c@)),
{
    match content {
        None => true,
        Some(c) => {
            let v = chars_of(c);
            let fence = chars_of("```");
            crate::text::starts_with_chars(&v, &fence) || crate::text::ends_with_chars(&v, &fence)
        },
    }
}


/// Every command the bot registers goes to its own handler: the slash
/// commands bank, certifications, docker, garage, gear, missions,
/// reputation, schedule and surveys, and the message commands
/// `AAR - Get IDs` and `AAR - Pay`.
pub proof fn law_registered_commands_routed()
    ensures
        command_route_spec("bank"@) == CommandRoute::Bank,
        command_route_spec("certifications"@) == CommandRoute::Certifications,
        command_route_spec("docker"@) == CommandRoute::Docker,
        command_route_spec("garage"@) == CommandRoute::Garage,
        command_route_spec("gear"@) == CommandRoute::Gear,
        command_route_spec("missions"@) == CommandRoute::Missions,
        command_route_spec("reputation"@) == CommandRoute::Reputation,
        command_route_spec("schedule"@) == CommandRoute::Schedule,
        command_route_spec("surveys"@) == CommandRoute::Surveys,
        command_route_spec("AAR - Get IDs"@) == CommandRoute::AarIds,
        command_route_spec("AAR - Pay"@) == CommandRoute::AarPay,
{
    reveal_strlit("bank");
    assert("bank"@.len() == 4 && "bank"@[0] == 'b' && "bank"@[1] == 'a');
    reveal_strlit("certifications");
    assert("certifications"@.len() == 14 && "certifications"@[0] == 'c' && "certifications"@[1] == 'e');
    reveal_strlit("docker");
    assert("docker"@.len() == 6 && "docker"@[0] == 'd' && "docker"@[1] == 'o');
    reveal_strlit("garage");
    assert("garage"@.len() == 6 && "garage"@[0] == 'g' && "garage"@[1] == 'a');
    reveal_strlit("gear");
    assert("gear"@.len() == 4 && "gear"@[0] == 'g' && "gear"@[1] == 'e');
    reveal_strlit("missions");
    assert("missions"@.len() == 8 && "missions"@[0] == 'm' && "missions"@[1] == 'i');
    reveal_strlit("reputation");
    assert("reputation"@.len() == 10 && "reputation"@[0] == 'r' && "reputation"@[1] == 'e');
    reveal_strlit("schedule");
    assert("schedule"@.len() == 8 && "schedule"@[0] == 's' && "schedule"@[1] == 'c');
    reveal_strlit("surveys");
    assert("surveys"@.len() == 7 && "surveys"@[0] == 's' && "surveys"@[1] == 'u');
    reveal_strlit("AAR - Get IDs");
    assert("AAR - Get IDs"@.len() == 13 && "AAR - Get IDs"@[0] == 'A' && "AAR - Get IDs"@[1] == 'A');
    reveal_strlit("AAR - Pay");
    assert("AAR - Pay"@.len() == 9 && "AAR - Pay"@[0] == 'A' && "AAR - Pay"@[1] == 'A');
    assert("bank"@[0] != "gear"@[0]);
    assert("docker"@[0] != "garage"@[0]);
    assert("missions"@[0] != "schedule"@[0]);
}

/// A command the bot does not register is ignored, and only such a command.
pub proof fn law_other_commands_ignored(name: Seq<char>)
    ensures
        command_route_spec(name) == CommandRoute::Ignored <==> (name != "bank"@ && name
            != "certifications"@ && name != "docker"@ && name != "garage"@ && name != "gear"@ && name
            != "missions"@ && name != "reputation"@ && name != "schedule"@ && name != "surveys"@
            && name != "AAR - Get IDs"@ && name != "AAR - Pay"@),
{
    law_registered_commands_routed();
}

/// The commands with autocompleted options get their suggestions from
/// their own handler: certifications, docker, garage, gear, missions,
/// schedule and surveys; every other name is ignored.
pub proof fn law_autocompletes_routed(name: Seq<char>)
    ensures
        autocomplete_route_spec("certifications"@) == CommandRoute::Certifications,
        autocomplete_route_spec("docker"@) == CommandRoute::Docker,
        autocomplete_route_spec("garage"@) == CommandRoute::Garage,
        autocomplete_route_spec("gear"@) == CommandRoute::Gear,
        autocomplete_route_spec("missions"@) == CommandRoute::Missions,
        autocomplete_route_spec("schedule"@) == CommandRoute::Schedule,
        autocomplete_route_spec("surveys"@) == CommandRoute::Surveys,
        autocomplete_route_spec(name) == CommandRoute::Ignored <==> (name != "certifications"@
            && name != "docker"@ && name != "garage"@ && name != "gear"@ && name != "missions"@
            && name != "schedule"@ && name != "surveys"@),
{
    reveal_strlit("certifications");
    assert("certifications"@.len() == 14 && "certifications"@[0] == 'c' && "certifications"@[1] == 'e');
    reveal_strlit("docker");
    assert("docker"@.len() == 6 && "docker"@[0] == 'd' && "docker"@[1] == 'o');
    reveal_strlit("garage");
    assert("garage"@.len() == 6 && "garage"@[0] == 'g' && "garage"@[1] == 'a');
    reveal_strlit("gear");
    assert("gear"@.len() == 4 && "gear"@[0] == 'g' && "gear"@[1] == 'e');
    reveal_strlit("missions");
    assert("missions"@.len() == 8 && "missions"@[0] == 'm' && "missions"@[1] == 'i');
    reveal_strlit("schedule");
    assert("schedule"@.len() == 8 && "schedule"@[0] == 's' && "schedule"@[1] == 'c');
    reveal_strlit("surveys");
    assert("surveys"@.len() == 7 && "surveys"@[0] == 's' && "surveys"@[1] == 'u');
    assert("docker"@[0] != "garage"@[0]);
    assert("missions"@[0] != "schedule"@[0]);
}

/// The three answer buttons of a schedule post record an answer; the three
/// reach-out buttons give their own answer; any other button is ignored.
pub proof fn law_buttons_routed(id: Seq<char>)
    ensures
        button_route_spec("rsvp_yes"@) == ButtonRoute::Rsvp,
        button_route_spec("rsvp_maybe"@) == ButtonRoute::Rsvp,
        button_route_spec("rsvp_no"@) == ButtonRoute::Rsvp,
        button_route_spec("reachout_yes"@) == ButtonRoute::ReachoutYes,
        button_route_spec("reachout_maybe"@) == ButtonRoute::ReachoutMaybe,
        button_route_spec("reachout_no"@) == ButtonRoute::ReachoutNo,
        button_route_spec(id) == ButtonRoute::Ignored <==> (id != "rsvp_yes"@ && id
            != "rsvp_maybe"@ && id != "rsvp_no"@ && id != "reachout_yes"@ && id
            != "reachout_maybe"@ && id != "reachout_no"@),
{
    reveal_strlit("rsvp_yes");
    assert("rsvp_yes"@.len() == 8 && "rsvp_yes"@[0] == 'r' && "rsvp_yes"@[1] == 's');
    reveal_strlit("rsvp_maybe");
    assert("rsvp_maybe"@.len() == 10 && "rsvp_maybe"@[0] == 'r' && "rsvp_maybe"@[1] == 's');
    reveal_strlit("rsvp_no");
    assert("rsvp_no"@.len() == 7 && "rsvp_no"@[0] == 'r' && "rsvp_no"@[1] == 's');
    reveal_strlit("reachout_yes");
    assert("reachout_yes"@.len() == 12 && "reachout_yes"@[0] == 'r' && "reachout_yes"@[1] == 'e');
    reveal_strlit("reachout_maybe");
    assert("reachout_maybe"@.len() == 14 && "reachout_maybe"@[0] == 'r' && "reachout_maybe"@[1] == 'e');
    reveal_strlit("reachout_no");
    assert("reachout_no"@.len() == 11 && "reachout_no"@[0] == 'r' && "reachout_no"@[1] == 'e');
    assert("reachout_yes"@.len() != "reachout_no"@.len());
}

/// Reports are only checked in the leadership channel, where every message
/// is one; elsewhere `!exec mission-bump` moves the mission posts,
/// `!exec active` in the bot channel updates the activity roles, and any
/// other message goes on.
pub proof fn law_messages_routed(channel: ChannelKind, content: Seq<char>)
    ensures
        message_route_spec(channel, content) == MessageRoute::CheckReport <==> channel
            == ChannelKind::Leadership,
        channel != ChannelKind::Leadership && content == "!exec mission-bump"@ ==> message_route_spec(
            channel,
            content,
        ) == MessageRoute::BumpMissions,
        channel == ChannelKind::Bot && content == "!exec active"@ ==> message_route_spec(
            channel,
            content,
        ) == MessageRoute::UpdateActivity,
        message_route_spec(channel, content) == MessageRoute::UpdateActivity ==> channel
            == ChannelKind::Bot && content == "!exec active"@,
        channel != ChannelKind::Leadership && content != "!exec mission-bump"@ && content
            != "!exec active"@ ==> message_route_spec(channel, content) == MessageRoute::Continue,
{
    reveal_strlit("!exec mission-bump");
    assert("!exec mission-bump"@.len() == 18 && "!exec mission-bump"@[0] == '!' && "!exec mission-bump"@[1] == 'e');
    reveal_strlit("!exec active");
    assert("!exec active"@.len() == 12 && "!exec active"@[0] == '!' && "!exec active"@[1] == 'e');
}

/// The chat talks in the on-topic, off-topic, bot, looking-to-play and
/// lobby channels: there a person's message with content is answered while
/// the bot is awake and mentioned, whatever the roll. It never answers in
/// another channel, a bot's message, an empty one, or while asleep; and an
/// unmentioned message is answered only on a roll below four.
pub proof fn law_chat_channels(m: PostedMessage, awake: bool, roll: u32)
    ensures
        (m.channel == ChannelKind::OnTopic || m.channel == ChannelKind::OffTopic || m.channel
            == ChannelKind::Bot || m.channel == ChannelKind::LookingToPlay || m.channel
            == ChannelKind::Lobby) && !m.from_bot && awake && m.content@.len() > 0 && m.mentions_self
            ==> chat_route_spec(m, awake, roll) == ChatRoute::Answer,
        (m.channel == ChannelKind::Leadership || m.channel == ChannelKind::Other || m.from_bot
            || !awake || m.content@.len() == 0) ==> chat_route_spec(m, awake, roll) == ChatRoute::Ignore,
        !m.mentions_self && roll >= 4 ==> chat_route_spec(m, awake, roll) != ChatRoute::Answer,
        (m.channel == ChannelKind::OnTopic || m.channel == ChannelKind::OffTopic || m.channel
            == ChannelKind::Bot || m.channel == ChannelKind::LookingToPlay || m.channel
            == ChannelKind::Lobby) && !m.from_bot && awake && m.content@.len() > 0 && !m.mentions_self
            ==> chat_route_spec(m, awake, roll) == (if roll < 4 {
            ChatRoute::Answer
        } else {
            ChatRoute::Observe
        }),
{
}

} // verus!
