use persona_bot::dialog_handler::{DialogHandler, IncomingMessage};
use persona_bot::dialog_message::{DialogEntry, DialogMessage, MessageData};
use persona_bot::dialog_state::DialogState;
use persona_bot::openai_client::OpenAiChatMessage;

fn entry(id: i32, text: &str, author: Option<&str>, is_bot: bool) -> DialogMessage {
    DialogMessage::Standalone {
        message: MessageData::new(id, text.to_string(), author.map(|a| a.to_string()), is_bot),
    }
}

fn reply(id: i32, text: &str, author: Option<&str>, to: MessageData) -> DialogMessage {
    DialogMessage::Reply {
        message: MessageData::new(id, text.to_string(), author.map(|a| a.to_string()), false),
        reply_to: to,
    }
}

fn group_update(id: i32, text: Option<&str>, author: Option<&str>, reply_to_id: Option<i32>) -> IncomingMessage {
    IncomingMessage {
        id,
        is_private_chat: false,
        text: text.map(|t| t.to_string()),
        author_name: author.map(|a| a.to_string()),
        is_bot: false,
        reply_to_id,
    }
}

fn describe(m: &OpenAiChatMessage) -> (String, String, Option<String>) {
    match m {
        OpenAiChatMessage::System { text } => ("system".to_string(), text.clone(), None),
        OpenAiChatMessage::User { name, text } => ("user".to_string(), text.clone(), Some(name.clone())),
        OpenAiChatMessage::Assistant { text } => ("assistant".to_string(), text.clone(), None),
    }
}

#[test]
fn clear_resets_everything() {
    let mut state = DialogState::new();
    state.add_message(entry(1, "hi", Some("alice"), false), 100);
    state.add_message(entry(2, "yo", None, true), 200);
    state.set_participating();
    state.clear();
    assert!(state.peek().is_none());
    assert!(state.get_duration_since_last_message(300).is_none());
    assert!(!state.is_participating());
    assert!(state.get_prompt_messages().is_empty());
}

#[test]
fn added_message_is_found_with_no_time_elapsed() {
    let mut state = DialogState::new();
    state.add_message(entry(7, "hello", Some("bob"), false), 1_000);
    let found = state.get_message(7).expect("message was added");
    assert_eq!(found.get_id(), 7);
    assert_eq!(found.get_text(), "hello");
    assert_eq!(found.get_author_name(), Some("bob"));
    assert!(!found.is_bot());
    assert_eq!(state.get_duration_since_last_message(1_000), Some(0));
    assert_eq!(state.get_duration_since_last_message(1_250), Some(250));
}

#[test]
fn lookup_of_unknown_id_is_absent() {
    let mut state = DialogState::new();
    assert!(state.get_message(3).is_none());
    state.add_message(entry(1, "a", Some("x"), false), 1);
    state.add_message(entry(2, "b", Some("y"), false), 2);
    assert!(state.get_message(3).is_none());
}

#[test]
fn lookup_returns_first_match() {
    let mut state = DialogState::new();
    state.add_message(entry(4, "first", Some("x"), false), 1);
    state.add_message(entry(4, "second", Some("y"), false), 2);
    assert_eq!(state.get_message(4).unwrap().get_text(), "first");
}

#[test]
fn slice_keeps_order_and_leaves_source_state() {
    let mut state = DialogState::new();
    state.add_message(entry(5, "five", Some("a"), false), 1);
    state.add_message(entry(2, "two", Some("b"), false), 2);
    state.add_message(entry(9, "nine", Some("c"), false), 3);
    state.add_message(entry(3, "three", None, true), 4);
    state.set_participating();
    let sliced = state.slice_up_to(4);
    let texts: Vec<String> = sliced.get_prompt_messages().iter().map(|m| describe(m).1).collect();
    assert_eq!(texts, vec!["two".to_string(), "three".to_string()]);
    assert_eq!(sliced.peek().unwrap().get_id(), 3);
    assert_eq!(sliced.get_message(2).unwrap().get_text(), "two");
    assert!(sliced.get_message(5).is_none());
    assert!(sliced.is_participating());
    assert_eq!(sliced.get_duration_since_last_message(10), Some(6));
    assert_eq!(state.get_prompt_messages().len(), 4);
    assert_eq!(state.peek().unwrap().get_id(), 3);
}

#[test]
fn prompt_messages_follow_authorship() {
    let mut state = DialogState::new();
    state.add_message(entry(1, "hi", Some("alice"), false), 1);
    state.add_message(entry(2, "hello", None, true), 2);
    state.add_message(entry(3, "nameless human", None, false), 3);
    let prompt: Vec<_> = state.get_prompt_messages().iter().map(describe).collect();
    assert_eq!(
        prompt,
        vec![
            ("user".to_string(), "hi".to_string(), Some("alice".to_string())),
            ("assistant".to_string(), "hello".to_string(), None),
            ("assistant".to_string(), "nameless human".to_string(), None),
        ]
    );
}

#[test]
fn empty_conversation_gets_no_prompt() {
    let handler = DialogHandler::new("Gandalf", "You are Gandalf.", None);
    let state = DialogState::new();
    let (prompt, target) = handler.should_respond(&state);
    assert!(prompt.is_none());
    assert!(target.is_none());
}

#[test]
fn standalone_without_mention_gets_no_prompt() {
    let handler = DialogHandler::new("Gandalf", "You are Gandalf.", None);
    let mut state = DialogState::new();
    state.add_message(entry(10, "good morning everyone", Some("frodo"), false), 1);
    let (prompt, target) = handler.should_respond(&state);
    assert!(prompt.is_none());
    assert!(target.is_none());
}

#[test]
fn standalone_with_mention_gets_prompt() {
    let handler = DialogHandler::new("Gandalf", "You are Gandalf.", None);
    let mut state = DialogState::new();
    state.add_message(entry(10, "good morning everyone", Some("frodo"), false), 1);
    state.add_message(entry(11, "hey Gandalf, you there?", Some("sam"), false), 2);
    let (prompt, target) = handler.should_respond(&state);
    let prompt: Vec<_> = prompt.expect("mentioned").iter().map(describe).collect();
    assert_eq!(
        prompt,
        vec![
            ("system".to_string(), "You are Gandalf.".to_string(), None),
            ("user".to_string(), "good morning everyone".to_string(), Some("frodo".to_string())),
            ("user".to_string(), "hey Gandalf, you there?".to_string(), Some("sam".to_string())),
        ]
    );
    assert_eq!(target, Some(11));
}

#[test]
fn mention_ignores_case() {
    let handler = DialogHandler::new("Gandalf", "desc", None);
    let mut state = DialogState::new();
    state.add_message(entry(1, "GANDALF!", Some("pippin"), false), 1);
    assert_eq!(handler.should_respond(&state).1, Some(1));
}

#[test]
fn participating_persona_keeps_answering() {
    let handler = DialogHandler::new("Gandalf", "desc", None);
    let mut state = DialogState::new();
    state.add_message(entry(1, "what now", Some("pippin"), false), 1);
    state.set_participating();
    assert_eq!(handler.should_respond(&state).1, Some(1));
}

#[test]
fn reply_to_bot_gets_prompt() {
    let handler = DialogHandler::new("Gandalf", "desc", None);
    let mut state = DialogState::new();
    let bot_line = MessageData::new(20, "A wizard is never late.".to_string(), None, true);
    state.add_message(DialogMessage::Standalone { message: bot_line.clone() }, 1);
    state.add_message(reply(21, "really?", Some("merry"), bot_line), 2);
    let (prompt, target) = handler.should_respond(&state);
    assert_eq!(prompt.expect("reply to the bot").len(), 3);
    assert_eq!(target, Some(21));
}

#[test]
fn reply_to_human_gets_no_prompt() {
    let handler = DialogHandler::new("Gandalf", "desc", None);
    let mut state = DialogState::new();
    let human = MessageData::new(30, "lunch?".to_string(), Some("sam".to_string()), false);
    state.add_message(DialogMessage::Standalone { message: human.clone() }, 1);
    state.add_message(reply(31, "sure", Some("frodo"), human), 2);
    let (prompt, target) = handler.should_respond(&state);
    assert!(prompt.is_none());
    assert!(target.is_none());
}

#[test]
fn reply_to_human_ignores_mention_and_participation() {
    let handler = DialogHandler::new("Gandalf", "desc", None);
    let mut state = DialogState::new();
    let human = MessageData::new(30, "lunch?".to_string(), Some("sam".to_string()), false);
    state.add_message(reply(31, "ask Gandalf", Some("frodo"), human), 2);
    state.set_participating();
    assert!(handler.should_respond(&state).0.is_none());
}

#[test]
fn private_chat_is_ignored() {
    let handler = DialogHandler::new("Gandalf", "desc", None);
    let mut state = DialogState::new();
    state.add_message(entry(1, "earlier", Some("a"), false), 5);
    let mut update = group_update(2, Some("Gandalf?"), Some("b"), None);
    update.is_private_chat = true;
    let (prompt, target) = handler.handle_update(&mut state, &update, 10);
    assert!(prompt.is_none());
    assert!(target.is_none());
    assert_eq!(state.peek().unwrap().get_id(), 1);
    assert_eq!(state.get_duration_since_last_message(10), Some(5));
    assert_eq!(state.get_prompt_messages().len(), 1);
}

#[test]
fn idle_timeout_starts_new_conversation() {
    let handler = DialogHandler::new("Gandalf", "desc", None);
    let mut state = DialogState::new();
    handler.handle_update(&mut state, &group_update(1, Some("old talk"), Some("a"), None), 0);
    state.set_participating();
    let later = 180_001;
    let (prompt, target) = handler.handle_update(&mut state, &group_update(2, Some("Gandalf, hello"), Some("b"), Some(1)), later);
    assert_eq!(target, Some(2));
    assert_eq!(prompt.unwrap().len(), 2);
    assert!(state.get_message(1).is_none());
    assert!(!state.is_participating());
    match state.peek().unwrap() {
        DialogMessage::Standalone { .. } => {}
        DialogMessage::Reply { .. } => panic!("the replied-to message was cleared"),
    }
    let own = IncomingMessage {
        id: 3,
        is_private_chat: false,
        text: Some("Hello!".to_string()),
        author_name: None,
        is_bot: true,
        reply_to_id: Some(2),
    };
    assert!(handler.record_own_reply(&mut state, &own, later + 1));
    assert!(state.is_participating());
    let ids: Vec<String> = state.get_prompt_messages().iter().map(|m| describe(m).1).collect();
    assert_eq!(ids, vec!["Gandalf, hello".to_string(), "Hello!".to_string()]);
}

#[test]
fn no_timeout_at_exact_limit() {
    let handler = DialogHandler::new("Gandalf", "desc", None);
    let mut state = DialogState::new();
    assert!(!handler.is_dialog_timed_out(&state, 1_000_000));
    state.add_message(entry(1, "x", Some("a"), false), 1_000);
    assert!(!handler.is_dialog_timed_out(&state, 181_000));
    assert!(handler.is_dialog_timed_out(&state, 181_001));
    let short = DialogHandler::new("Gandalf", "desc", Some(10));
    assert!(short.is_dialog_timed_out(&state, 1_011));
}

#[test]
fn update_replying_to_known_message_is_reply() {
    let handler = DialogHandler::new("Gandalf", "desc", None);
    let mut state = DialogState::new();
    state.add_message(entry(1, "bot said", None, true), 1);
    let parsed = handler.parse_message(&state, &group_update(2, Some("yes"), Some("a"), Some(1))).unwrap();
    match parsed {
        DialogMessage::Reply { message, reply_to } => {
            assert_eq!(message.get_id(), 2);
            assert_eq!(reply_to.get_id(), 1);
            assert!(reply_to.is_bot());
        }
        DialogMessage::Standalone { .. } => panic!("expected a reply"),
    }
    let unknown = handler.parse_message(&state, &group_update(3, Some("hm"), Some("a"), Some(99))).unwrap();
    assert!(matches!(unknown, DialogMessage::Standalone { .. }));
    assert!(handler.parse_message(&state, &group_update(4, None, Some("a"), None)).is_none());
}

#[test]
fn update_without_text_is_not_recorded() {
    let handler = DialogHandler::new("Gandalf", "desc", None);
    let mut state = DialogState::new();
    let (prompt, _) = handler.handle_update(&mut state, &group_update(1, None, Some("a"), None), 5);
    assert!(prompt.is_none());
    assert!(state.peek().is_none());
    assert!(!handler.record_own_reply(&mut state, &group_update(2, None, None, None), 6));
    assert!(!state.is_participating());
}

#[test]
fn snapshot_copies_fields() {
    let source = entry(8, "text", Some("who"), true);
    let copy = MessageData::from_entry(&source);
    assert_eq!(copy.get_id(), 8);
    assert_eq!(copy.get_text(), "text");
    assert_eq!(copy.get_author_name(), Some("who"));
    assert!(copy.is_bot());
}

#[test]
fn interjection_targets_a_recorded_message() {
    let handler = DialogHandler::new("Gandalf", "desc", None).with_arbitrary_interjection(true);
    let mut state = DialogState::new();
    state.add_message(entry(1, "one", Some("a"), false), 1);
    state.add_message(entry(2, "two", Some("b"), false), 2);
    for _ in 0..50 {
        let (prompt, target) = handler.should_respond(&state);
        if let Some(id) = target {
            let prompt = prompt.unwrap();
            assert!(id == 1 || id == 2);
            assert_eq!(prompt.len(), id as usize);
        } else {
            assert!(prompt.is_none());
        }
    }
    let (prompt, target) = handler.plan_interjection(&state, 1);
    assert_eq!(target, Some(1));
    assert_eq!(prompt.unwrap().iter().map(describe).collect::<Vec<_>>(), vec![("user".to_string(), "one".to_string(), Some("a".to_string()))]);
}

#[test]
fn random_message_is_recorded() {
    let mut state = DialogState::new();
    assert!(state.random_message().is_none());
    state.add_message(entry(1, "one", Some("a"), false), 1);
    state.add_message(entry(2, "two", Some("b"), false), 2);
    for _ in 0..20 {
        let id = state.random_message().unwrap().get_id();
        assert!(id == 1 || id == 2);
    }
}
