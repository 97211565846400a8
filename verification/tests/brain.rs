use synixe_bot::brain::brain_prompt;
use synixe_bot::brain::{
    ask_step, ask_turn, brodsky_reply, chat_line, chat_message, extract_reply, function_message,
    give_up_reply, observe, recruiting_reply, trim_conversation, AskStep, AskTurn, ChatMessage,
    ChatRole, ModelReply, ASK_ATTEMPTS, CONTEXT_LIMIT,
};

fn msg(role: ChatRole, content: &str) -> ChatMessage {
    chat_message(role, content.to_string())
}

#[test]
fn trimming_keeps_first_and_drops_oldest() {
    let big = "x".repeat(3000);
    let mut conv = vec![
        msg(ChatRole::System, "prompt"),
        msg(ChatRole::User, &big),
        msg(ChatRole::User, &big),
        msg(ChatRole::User, &big),
    ];
    trim_conversation(&mut conv);
    assert_eq!(conv.len(), 3);
    assert_eq!(conv[0].content, "prompt");
    let total: usize = conv.iter().map(|m| m.content.len()).sum();
    assert!(total <= CONTEXT_LIMIT);
}

#[test]
fn trimming_leaves_small_conversation() {
    let mut conv = vec![msg(ChatRole::System, "p"), msg(ChatRole::User, "hi")];
    trim_conversation(&mut conv);
    assert_eq!(conv.len(), 2);
    let mut empty: Vec<ChatMessage> = vec![];
    trim_conversation(&mut empty);
    assert!(empty.is_empty());
}

#[test]
fn observing_opens_with_prompt() {
    let mut conv = vec![];
    observe(&mut conv, "system".to_string(), false, "|t| a: hi".to_string());
    assert_eq!(conv.len(), 2);
    assert_eq!(conv[0].role, ChatRole::System);
    assert_eq!(conv[0].content, "system");
    assert_eq!(conv[1].role, ChatRole::User);
    observe(&mut conv, "ignored".to_string(), true, "|t| Ctirad Brodsky: yo".to_string());
    assert_eq!(conv.len(), 3);
    assert_eq!(conv[2].role, ChatRole::Assistant);
    assert_eq!(conv[0].content, "system");
}

#[test]
fn chat_lines_name_members() {
    let line = chat_line(
        "12:00",
        "alice_1",
        &Some("Alice".to_string()),
        "hey <@5> and <@6>, ask <@1028418063168708638>",
        &vec![(5, Some("Bob".to_string())), (6, None)],
    );
    assert_eq!(line, "|12:00| Alice: hey Bob and <@6>, ask Ctirad Brodsky");
    assert_eq!(chat_line("t", "bob", &None, "x", &vec![]), "|t| bob: x");
}

#[test]
fn replies_follow_the_marker() {
    assert_eq!(extract_reply("|now| Ctirad Brodsky: hello there"), "hello there");
    assert_eq!(extract_reply("plain answer"), "plain answer");
}

#[test]
fn ask_loop_gives_up_after_nine_requests() {
    let mut remaining = ASK_ATTEMPTS;
    let mut turns = vec![];
    loop {
        let t = ask_turn(&mut remaining);
        turns.push(t);
        if t == AskTurn::GiveUp {
            break;
        }
    }
    assert_eq!(turns.len(), 10);
    assert!(turns[..8].iter().all(|t| *t == AskTurn::Request { offer_functions: true }));
    assert_eq!(turns[8], AskTurn::Request { offer_functions: false });
    assert_eq!(remaining, 0);
    assert_eq!(give_up_reply(), "I'm sorry, my head is spinning. I can't think of what to say.");
}

#[test]
fn model_replies_become_steps() {
    let functions = vec!["timeout".to_string(), "bank_get_balance".to_string()];
    match ask_step(&functions, ModelReply::FunctionCall { name: "bank_get_balance".to_string() }) {
        AskStep::Run(i) => assert_eq!(i, 1),
        other => panic!("unexpected {other:?}"),
    }
    assert!(matches!(
        ask_step(&functions, ModelReply::FunctionCall { name: "nope".to_string() }),
        AskStep::Missing
    ));
    match ask_step(&functions, ModelReply::Content("|x| Ctirad Brodsky: ok".to_string())) {
        AskStep::Answer(a) => assert_eq!(a, "ok"),
        other => panic!("unexpected {other:?}"),
    }
    assert!(matches!(ask_step(&functions, ModelReply::Nothing), AskStep::Continue));
}

#[test]
fn function_results_recorded() {
    let m = function_message("timeout", None);
    assert_eq!(m.role, ChatRole::Function);
    assert_eq!(m.name.as_deref(), Some("timeout"));
    assert_eq!(m.content, "{\"error\": \"function not found\"}");
    assert_eq!(function_message("t", Some(None)).content, "{\"error\": \"function failed as called\"}");
    assert_eq!(function_message("t", Some(Some("{}".to_string()))).content, "{}");
}

#[test]
fn older_replies_cleaned() {
    assert_eq!(brodsky_reply("Brodsky: Brodsky: hi"), "hi");
    assert_eq!(recruiting_reply(""), None);
    assert_eq!(recruiting_reply("Denied, no"), None);
    assert_eq!(recruiting_reply("Accepted. Welcome"), Some("Welcome".to_string()));
}

#[test]
fn prompt_names_channel() {
    assert_eq!(brain_prompt("You are in %channel%. Stay in %channel%.", 42), "You are in <#42>. Stay in <#42>.");
    assert_eq!(brain_prompt("no marker", 42), "no marker");
}
