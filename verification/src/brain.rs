//! The chat brain: the conversation kept per channel, how it is trimmed,
//! what a chat line looks like, and how a reply is asked for.
use vstd::prelude::*;
use vstd::utf8::encode_utf8;

use crate::text::{
    after_first, after_first_spec, chars_of, decimal, push_decimal, replace_chars, replace_spec,
    string_of, trim_start_matches, trim_start_matches_spec,
};

verus! {

/// Who wrote a message of a conversation.
#[derive(Clone, Copy, Debug, PartialEq, Eq, Structural)]
pub enum ChatRole {
    System,
    User,
    Assistant,
    Function,
}

/// One message of a conversation.
#[derive(Debug)]
pub struct ChatMessage {
    pub role: ChatRole,
    pub name: Option<String>,
    pub content: String,
}

/// How many bytes of message content a conversation may hold.
pub const CONTEXT_LIMIT: usize = 8192;

/// The UTF-8 length of a text, as `str::len` returns it.
pub open spec fn byte_len(s: Seq<char>) -> nat {
    (encode_utf8(s).len() as usize) as nat
}

/// The bytes of content a conversation holds.
pub open spec fn total_len(c: Seq<ChatMessage>) -> int
    decreases c.len(),
{
    if c.len() == 0 {
        0
    } else {
        total_len(c.drop_last()) + byte_len(c.last().content@)
    }
}

/// `r` is `c` after trimming: the first message kept, then as few of the
/// oldest following messages dropped as bring the content within the limit.
pub open spec fn is_trimmed(c: Seq<ChatMessage>, r: Seq<ChatMessage>) -> bool {
    if c.len() == 0 {
        r == c
    } else {
        exists|k: int|
            1 <= k <= c.len() && r == seq![c[0]] + c.skip(k) && total_len(r) <= CONTEXT_LIMIT
                && forall|k2: int|
                1 <= k2 < k ==> total_len(seq![c[0]] + c.skip(k2)) > CONTEXT_LIMIT
    }
}

proof fn lemma_total_len_concat(a: Seq<ChatMessage>, b: Seq<ChatMessage>)
    ensures
        total_len(a + b) == total_len(a) + total_len(b),
    decreases b.len(),
{
    if b.len() > 0 {
        lemma_total_len_concat(a, b.drop_last());
        assert((a + b).drop_last() == a + b.drop_last());
    } else {
        assert(a + b == a);
    }
}

proof fn lemma_total_len_front(c: Seq<ChatMessage>)
    requires
        c.len() > 0,
    ensures
        total_len(c) == byte_len(c[0].content@) + total_len(c.drop_first()),
{
    lemma_total_len_concat(seq![c[0]], c.drop_first());
    assert(seq![c[0]] + c.drop_first() == c);
    assert(seq![c[0]].drop_last() == Seq::<ChatMessage>::empty());
    assert(total_len(seq![c[0]]) == total_len(Seq::<ChatMessage>::empty()) + byte_len(c[0].content@));
}

proof fn lemma_total_len_nonneg(c: Seq<ChatMessage>)
    ensures
        total_len(c) >= 0,
    decreases c.len(),
{
    if c.len() > 0 {
        lemma_total_len_nonneg(c.drop_last());
    }
}

/// The byte length of a text.
fn content_len(s: &String) -> (n: usize)
    ensures
        n == byte_len(s@),
{
    s.as_str().len()
}

/// Drops the oldest messages after the first until the conversation's
/// content is within `CONTEXT_LIMIT` bytes.
pub fn trim_conversation(conv: &mut Vec<ChatMessage>)
    requires
        old(conv).len() > 0 ==> byte_len(old(conv)@[0].content@) <= CONTEXT_LIMIT,
        total_len(old(conv)@) <= usize::MAX,
    ensures
        is_trimmed(old(conv)@, final(conv)@),
{
    let ghost c = conv@;
    if conv.len() == 0 {
        return;
    }
    let mut total: usize = 0;
    let mut i: usize = 0;
    proof {
        lemma_total_len_nonneg(c);
    }
    while i < conv.len()
        invariant
            conv@ == c,
            i <= c.len(),
            total == total_len(c.take(i as int)),
            total_len(c) <= usize::MAX,
        decreases c.len() - i,
    {
        proof {
            assert(c.take(i + 1).drop_last() == c.take(i as int));
            lemma_total_len_concat(c.take(i + 1), c.skip(i + 1));
            assert(c.take(i + 1) + c.skip(i + 1) == c);
            lemma_total_len_nonneg(c.skip(i + 1));
        }
        total = total + content_len(&conv[i].content);
        i += 1;
    }
    assert(c.take(c.len() as int) == c);
    let ghost mut k: int = 1;
    assert(seq![c[0]] + c.skip(1) == c);
    while total > CONTEXT_LIMIT
        invariant
            c.len() > 0,
            byte_len(c[0].content@) <= CONTEXT_LIMIT,
            1 <= k <= c.len(),
            conv@ == seq![c[0]] + c.skip(k),
            total == total_len(conv@),
            forall|k2: int| 1 <= k2 < k ==> total_len(seq![c[0]] + c.skip(k2)) > CONTEXT_LIMIT,
        decreases c.len() - k,
    {
        proof {
            lemma_total_len_front(conv@);
            assert(conv@.drop_first() == c.skip(k));
            if k == c.len() {
                assert(c.skip(k).len() == 0);
                assert(total_len(c.skip(k)) == 0);
            }
            assert(k < c.len());
            let next = seq![c[0]] + c.skip(k + 1);
            lemma_total_len_front(next);
            assert(next.drop_first() == c.skip(k + 1));
            lemma_total_len_front(c.skip(k));
            assert(c.skip(k).drop_first() == c.skip(k + 1));
            assert(conv@.remove(1) == next);
            lemma_total_len_nonneg(c.skip(k + 1));
        }
        let removed = conv.remove(1);
        proof {
            assert(removed == c[k]);
        }
        total = total - content_len(&removed.content);
        proof {
            k = k + 1;
        }
    }
}

/// A message with the given role and content and no name.
pub fn chat_message(role: ChatRole, content: String) -> (m: ChatMessage)
    ensures
        m.role == role,
        m.name.is_none(),
        m.content == content,
{
    ChatMessage { role, name: None, content }
}

/// The conversation after one message is observed: a new conversation
/// opens with the system prompt; the message is added as the assistant's
/// when the bot wrote it and as a user's otherwise; then the whole is
/// trimmed (which may drop the new message itself when it is too long).
pub open spec fn observed(
    conv: Seq<ChatMessage>,
    prompt: Seq<char>,
    from_bot: bool,
    line: Seq<char>,
    r: Seq<ChatMessage>,
) -> bool {
    let n = if conv.len() == 0 {
        1
    } else {
        conv.len()
    };
    exists|full: Seq<ChatMessage>|
        {
            &&& full.len() == n + 1
            &&& (conv.len() == 0 ==> full[0].role == ChatRole::System && full[0].content@ == prompt
                && full[0].name.is_none())
            &&& (forall|i: int| 0 <= i < conv.len() ==> full[i] == conv[i])
            &&& full.last().role == (if from_bot {
                ChatRole::Assistant
            } else {
                ChatRole::User
            })
            &&& full.last().content@ == line
            &&& full.last().name.is_none()
            &&& is_trimmed(full, r)
        }
}

/// Adds an observed chat line to a channel's conversation and trims it.
pub fn observe(conv: &mut Vec<ChatMessage>, prompt: String, from_bot: bool, line: String)
    requires
        old(conv).len() == 0 ==> byte_len(prompt@) <= CONTEXT_LIMIT,
        old(conv).len() > 0 ==> byte_len(old(conv)@[0].content@) <= CONTEXT_LIMIT,
        total_len(old(conv)@) + byte_len(prompt@) + byte_len(line@) <= usize::MAX,
    ensures
        observed(old(conv)@, prompt@, from_bot, line@, final(conv)@),
{
    let ghost c0 = conv@;
    if conv.len() == 0 {
        conv.push(chat_message(ChatRole::System, prompt));
        proof {
            assert(conv@.drop_last() == Seq::<ChatMessage>::empty());
        }
    }
    let role = if from_bot {
        ChatRole::Assistant
    } else {
        ChatRole::User
    };
    let ghost before = conv@;
    conv.push(chat_message(role, line));
    let ghost full = conv@;
    proof {
        assert(full.drop_last() == before);
        lemma_total_len_nonneg(before);
        lemma_total_len_nonneg(c0);
        if c0.len() == 0 {
            assert(before.drop_last() == Seq::<ChatMessage>::empty());
            assert(before.len() == 1);
            assert(before.last().content@ == prompt@);
            assert(total_len(Seq::<ChatMessage>::empty()) == 0);
            assert(total_len(before) == byte_len(prompt@));
        } else {
            assert(before == c0);
        }
        assert(total_len(full) == total_len(before) + byte_len(line@));
    }
    trim_conversation(conv);
    proof {
        assert forall|i: int| 0 <= i < c0.len() implies full[i] == c0[i] by {
            assert(full[i] == before[i]);
        }
    }
}

/// The tag Discord writes for a mention of user `id`.
pub open spec fn mention_tag(id: u64) -> Seq<char> {
    "<@"@ + decimal(id as nat) + ">"@
}

/// A chat line with each mention of a member who has a nickname replaced
/// by that nickname, in the order of the mentions.
pub open spec fn apply_mentions(s: Seq<char>, mentions: Seq<(u64, Option<Seq<char>>)>) -> Seq<char>
    decreases mentions.len(),
{
    if mentions.len() == 0 {
        s
    } else {
        let prev = apply_mentions(s, mentions.drop_last());
        match mentions.last().1 {
            Some(nick) => replace_spec(prev, mention_tag(mentions.last().0), nick),
            None => prev,
        }
    }
}

/// The bot's own mention tag.
pub open spec fn own_tag() -> Seq<char> {
    "<@1028418063168708638>"@
}

/// The line the brain records for a message: `|timestamp| name: content`,
/// the author named by nickname when they have one, mentions of members
/// with nicknames replaced by the nickname, and the bot's own mention by
/// its name.
pub open spec fn chat_line_spec(
    timestamp: Seq<char>,
    author: Seq<char>,
    nick: Option<Seq<char>>,
    content: Seq<char>,
    mentions: Seq<(u64, Option<Seq<char>>)>,
) -> Seq<char> {
    let name = match nick {
        Some(n) => n,
        None => author,
    };
    let raw = "|"@ + timestamp + "| "@ + name + ": "@ + content;
    replace_spec(apply_mentions(raw, mentions), own_tag(), "Ctirad Brodsky"@)
}

/// The views of the mentions of a message.
pub open spec fn mentions_view(m: Seq<(u64, Option<String>)>) -> Seq<(u64, Option<Seq<char>>)> {
    m.map_values(
        |p: (u64, Option<String>)|
            (
                p.0,
                match p.1 {
                    Some(s) => Some(s@),
                    None => None,
                },
            ),
    )
}

/// The line the brain records for a message (see `chat_line_spec`).
pub fn chat_line(
    timestamp: &str,
    author: &str,
    nick: &Option<String>,
    content: &str,
    mentions: &Vec<(u64, Option<String>)>,
) -> (r: String)
    ensures
        r@ == chat_line_spec(
            timestamp@,
            author@,
            match nick {
                Some(n) => Some(n@),
                None => None,
            },
            content@,
            mentions_view(mentions@),
        ),
{
    let mut line = String::from_str("|");
    line.append(timestamp);
    line.append("| ");
    match nick {
        Some(n) => line.append(n.as_str()),
        None => line.append(author),
    }
    line.append(": ");
    line.append(content);
    let mut v = chars_of(line.as_str());
    let ghost raw = v@;
    let mut i: usize = 0;
    while i < mentions.len()
        invariant
            i <= mentions.len(),
            v@ == apply_mentions(raw, mentions_view(mentions@).take(i as int)),
        decreases mentions.len() - i,
    {
        proof {
            assert(mentions_view(mentions@).take(i + 1).drop_last() == mentions_view(mentions@).take(
                i as int,
            ));
        }
        match &mentions[i].1 {
            Some(n) => {
                let mut tag = String::from_str("<@");
                push_decimal(&mut tag, mentions[i].0);
                tag.append(">");
                let tag_chars = chars_of(tag.as_str());
                proof {
                    reveal_strlit("<@");
                }
                let nick_chars = chars_of(n.as_str());
                v = replace_chars(&v, &tag_chars, &nick_chars);
            },
            None => {},
        }
        i += 1;
    }
    assert(mentions_view(mentions@).take(mentions.len() as int) == mentions_view(mentions@));
    let own = chars_of("<@1028418063168708638>");
    let name = chars_of("Ctirad Brodsky");
    proof {
        reveal_strlit("<@1028418063168708638>");
    }
    let out = replace_chars(&v, &own, &name);
    string_of(&out)
}

/// The marker after which a model reply carries the bot's own words.
pub open spec fn reply_marker() -> Seq<char> {
    "| Ctirad Brodsky: "@
}

/// The reply the bot sends for a model answer: what follows the first
/// `| Ctirad Brodsky: ` when the answer holds it, otherwise the answer.
pub open spec fn extract_reply_spec(content: Seq<char>) -> Seq<char> {
    match after_first_spec(content, reply_marker()) {
        Some(rest) => rest,
        None => content,
    }
}

/// The reply the bot sends for a model answer.
pub fn extract_reply(content: &str) -> (r: String)
    ensures
        r@ == extract_reply_spec(content@),
{
    let c = chars_of(content);
    let marker = chars_of("| Ctirad Brodsky: ");
    match after_first(&c, &marker) {
        Some(rest) => string_of(&rest),
        None => string_of(&c),
    }
}

/// How many requests asking for a reply may make before giving up.
pub const ASK_ATTEMPTS: u32 = 10;

/// What the ask loop does next.
#[derive(Clone, Copy, Debug, PartialEq, Eq, Structural)]
pub enum AskTurn {
    /// Stop and send the apology.
    GiveUp,
    /// Ask the model, offering the brain's functions or not.
    Request { offer_functions: bool },
}

/// The next turn with `remaining` attempts left before counting this one.
pub open spec fn ask_turn_spec(remaining: u32) -> (u32, AskTurn) {
    let left = (remaining - 1) as u32;
    if left == 0 {
        (left, AskTurn::GiveUp)
    } else {
        (left, AskTurn::Request { offer_functions: left != 1 })
    }
}

/// Counts one attempt of the ask loop and says what to do with it.
pub fn ask_turn(remaining: &mut u32) -> (t: AskTurn)
    requires
        *old(remaining) >= 1,
    ensures
        (*final(remaining), t) == ask_turn_spec(*old(remaining)),
{
    *remaining = *remaining - 1;
    if *remaining == 0 {
        AskTurn::GiveUp
    } else {
        AskTurn::Request { offer_functions: *remaining != 1 }
    }
}

/// The reply sent when the ask loop gives up.
pub fn give_up_reply() -> (r: &'static str)
    ensures
        r@ == "I'm sorry, my head is spinning. I can't think of what to say."@,
{
    "I'm sorry, my head is spinning. I can't think of what to say."
}

/// The ask loop, started with `ASK_ATTEMPTS`, makes nine requests, the
/// first eight offering the brain's functions and the ninth not, and gives
/// up on its tenth turn.
pub proof fn law_ask_loop_bounded()
    ensures
        forall|r: u32|
            3 <= r <= ASK_ATTEMPTS ==> #[trigger] ask_turn_spec(r).1 == (AskTurn::Request {
                offer_functions: true,
            }),
        ask_turn_spec(2).1 == (AskTurn::Request { offer_functions: false }),
        ask_turn_spec(1).1 == AskTurn::GiveUp,
        forall|r: u32| 1 <= r ==> (#[trigger] ask_turn_spec(r)).0 == r - 1,
{
}

/// What the model answered to a request.
pub enum ModelReply {
    /// It asked for one of the brain's functions to be run.
    FunctionCall { name: String },
    /// It answered in words.
    Content(String),
    /// It gave neither.
    Nothing,
}

/// What the ask loop does with a model answer.
#[derive(Debug)]
pub enum AskStep {
    /// Run the function at this position of the brain's list.
    Run(usize),
    /// Record that the function asked for does not exist, then ask again.
    Missing,
    /// Send this reply.
    Answer(String),
    /// Ask again.
    Continue,
}

/// The step for a model answer, given the names of the brain's functions.
pub open spec fn ask_step_spec(functions: Seq<Seq<char>>, reply: ModelReply, step: AskStep) -> bool {
    match reply {
        ModelReply::FunctionCall { name } => match step {
            AskStep::Run(i) => 0 <= i < functions.len() && functions[i as int] == name@ && forall|
                j: int,
            |
                0 <= j < i ==> functions[j] != name@,
            AskStep::Missing => forall|j: int| 0 <= j < functions.len() ==> functions[j] != name@,
            _ => false,
        },
        ModelReply::Content(c) => step matches AskStep::Answer(a) && a@ == extract_reply_spec(c@),
        ModelReply::Nothing => step matches AskStep::Continue,
    }
}

/// Decides what to do with a model answer.
pub fn ask_step(functions: &Vec<String>, reply: ModelReply) -> (step: AskStep)
    ensures
        ask_step_spec(functions@.map_values(|s: String| s@), reply, step),
{
    let ghost names = functions@.map_values(|s: String| s@);
    let ghost r0 = reply;
    match reply {
        ModelReply::FunctionCall { name } => {
            let mut i: usize = 0;
            while i < functions.len()
                invariant
                    i <= functions.len(),
                    names == functions@.map_values(|s: String| s@),
                    r0 == (ModelReply::FunctionCall { name }),
                    r0 == reply,
                    forall|j: int| 0 <= j < i ==> names[j] != name@,
                decreases functions.len() - i,
            {
                if functions[i] == name {
                    assert(names[i as int] == functions@[i as int]@);
                    return AskStep::Run(i);
                }
                i += 1;
            }
            AskStep::Missing
        },
        ModelReply::Content(c) => AskStep::Answer(extract_reply(c.as_str())),
        ModelReply::Nothing => AskStep::Continue,
    }
}

/// The message recorded for a function's result, or for the error
/// reported when the function is missing (`None`) or failed as called
/// (`Some(None)`).
pub fn function_message(name: &str, result: Option<Option<String>>) -> (m: ChatMessage)
    ensures
        m.role == ChatRole::Function,
        m.name matches Some(n) && n@ == name@,
        m.content@ == match result {
            None => "{\"error\": \"function not found\"}"@,
            Some(None) => "{\"error\": \"function failed as called\"}"@,
            Some(Some(r)) => r@,
        },
{
    let content = match result {
        None => String::from_str("{\"error\": \"function not found\"}"),
        Some(None) => String::from_str("{\"error\": \"function failed as called\"}"),
        Some(Some(r)) => r,
    };
    ChatMessage { role: ChatRole::Function, name: Some(String::from_str(name)), content }
}

/// The reply of the older chat brain: the answer with every leading
/// `Brodsky: ` removed.
pub fn brodsky_reply(content: &str) -> (r: String)
    ensures
        r@ == trim_start_matches_spec(content@, "Brodsky: "@),
{
    let c = chars_of(content);
    let p = chars_of("Brodsky: ");
    proof {
        reveal_strlit("Brodsky: ");
    }
    string_of(&trim_start_matches(&c, &p))
}

/// The reply suggested for a recruiting post: none when the model answered
/// nothing or began with `Denied`, otherwise its answer with every leading
/// `Accepted. ` removed.
pub fn recruiting_reply(response: &str) -> (r: Option<String>)
    ensures
        match r {
            None => response@.len() == 0 || "Denied"@.is_prefix_of(response@),
            Some(s) => response@.len() > 0 && !"Denied"@.is_prefix_of(response@) && s@
                == trim_start_matches_spec(response@, "Accepted. "@),
        },
{
    let c = chars_of(response);
    let denied = chars_of("Denied");
    if c.len() == 0 || crate::text::starts_with_chars(&c, &denied) {
        return None;
    }
    let p = chars_of("Accepted. ");
    proof {
        reveal_strlit("Accepted. ");
    }
    Some(string_of(&trim_start_matches(&c, &p)))
}

/// The system prompt of a channel: the prompt template with `%channel%`
/// replaced by a mention of the channel.
pub fn brain_prompt(template: &str, channel: u64) -> (r: String)
    ensures
        r@ == replace_spec(template@, "%channel%"@, "<#"@ + decimal(channel as nat) + ">"@),
{
    let mut tag = String::from_str("<#");
    push_decimal(&mut tag, channel);
    tag.append(">");
    proof {
        reveal_strlit("%channel%");
    }
    let out = replace_chars(&chars_of(template), &chars_of("%channel%"), &chars_of(tag.as_str()));
    string_of(&out)
}

/// A trimmed conversation keeps its first message (the prompt), fits the
/// limit, and keeps a run of the newest messages, up to the latest.
pub proof fn law_trim_keeps_prompt(c: Seq<ChatMessage>, r: Seq<ChatMessage>)
    requires
        c.len() > 0,
        is_trimmed(c, r),
    ensures
        r.len() >= 1,
        r[0] == c[0],
        total_len(r) <= CONTEXT_LIMIT,
        exists|k: int| 1 <= k <= c.len() && r.drop_first() == #[trigger] c.skip(k),
{
    let k = choose|k: int|
        1 <= k <= c.len() && r == seq![c[0]] + c.skip(k) && total_len(r) <= CONTEXT_LIMIT
            && forall|k2: int| 1 <= k2 < k ==> total_len(seq![c[0]] + c.skip(k2)) > CONTEXT_LIMIT;
    assert(r.drop_first() == c.skip(k));
}

/// The bot's words in a model answer: what follows a leading
/// `| Ctirad Brodsky: `, and the whole answer when it holds no such marker.
pub proof fn law_extract_reply(words: Seq<char>, content: Seq<char>)
    ensures
        extract_reply_spec(reply_marker() + words) == words,
        !crate::text::contains_seq(content, reply_marker()) ==> extract_reply_spec(content) == content,
{
    let s = reply_marker() + words;
    let m = reply_marker();
    assert(s.subrange(0, m.len() as int) =~= m);
    assert(crate::text::occurs_at(s, m, 0));
    assert(crate::text::first_occurrence(s, m, 0));
    let i = choose|i: int| crate::text::first_occurrence(s, m, i);
    crate::text::lemma_first_occurrence_unique(s, m, i, 0);
    assert(s.skip(m.len() as int) =~= words);
}

/// A function the model asks for that the brain has is run, the first one
/// of that name; one it does not have is reported missing; words are
/// answered and nothing asks again.
pub proof fn law_ask_step(functions: Seq<Seq<char>>, reply: ModelReply, step: AskStep)
    requires
        ask_step_spec(functions, reply, step),
    ensures
        reply matches ModelReply::FunctionCall { name } ==> (functions.contains(name@) <==> step is Run),
        reply matches ModelReply::FunctionCall { name } ==> (step matches AskStep::Run(i) ==> functions[i as int] == name@),
        reply is Content ==> step is Answer,
        reply is Nothing ==> step is Continue,
{
    if let ModelReply::FunctionCall { name } = reply {
        if let AskStep::Run(i) = step {
            assert(functions[i as int] == name@);
        }
        if step is Missing && functions.contains(name@) {
            let j = choose|j: int| 0 <= j < functions.len() && functions[j] == name@;
            assert(functions[j] != name@);
        }
    }
}

} // verus!
