use ollama_pipeline::chat::{Correspondence, CurrentChat};
use ollama_pipeline::log::{History, Log};
use ollama_pipeline::notify::{LatestSlot, Queue};
use ollama_pipeline::session::{Document, SystemPrompt};

#[test]
fn generate_new_message_serializes_one_exchange() {
    let m = CurrentChat::generate_new_message("hello".to_string(), "world".to_string());
    assert_eq!(m, "User: hello\nAI Language Model: world");
}

#[test]
fn generate_and_push_appends_serialized_exchanges() {
    let mut chat = CurrentChat::new();
    chat.generate_and_push("a".to_string(), "b".to_string());
    chat.generate_and_push("c".to_string(), "d".to_string());
    assert_eq!(
        chat.chats,
        vec![
            "User: a\nAI Language Model: b".to_string(),
            "User: c\nAI Language Model: d".to_string(),
        ]
    );
}

#[test]
fn unravel_joins_exchanges_with_newlines() {
    let mut chat = CurrentChat::new();
    assert_eq!(chat.unravel(), "");
    chat.push_chat("one".to_string());
    assert_eq!(chat.unravel(), "one");
    chat.push_chat("two".to_string());
    chat.push_chat("three".to_string());
    assert_eq!(chat.unravel(), "one\ntwo\nthree");
}

#[test]
fn push_message_keeps_conversation_order() {
    let mut chat = CurrentChat::new();
    chat.push_message(Correspondence::User("q".to_string()));
    chat.push_message(Correspondence::Assistant("a".to_string()));
    assert_eq!(chat.messages.len(), 2);
    assert!(matches!(&chat.messages[0], Correspondence::User(t) if t == "q"));
    assert!(matches!(&chat.messages[1], Correspondence::Assistant(t) if t == "a"));
}

#[test]
fn push_log_appends_and_keeps_header() {
    let mut h = History {
        began_logging: "start".to_string(),
        version: "0.3.3".to_string(),
        filtering: true,
        logs: Vec::new(),
    };
    let l1 = Log::create_with_current_time(
        true,
        Some("m".to_string()),
        vec!["x".to_string()],
        Some("s".to_string()),
        "p1".to_string(),
    );
    let l2 = Log::create_with_current_time(false, None, Vec::new(), None, "p2".to_string());
    h.push_log(l1);
    h.push_log(l2);
    assert_eq!(h.logs.len(), 2);
    assert_eq!(h.logs[0].prompt, "p1");
    assert!(h.logs[0].filtering);
    assert_eq!(h.logs[0].model, Some("m".to_string()));
    assert_eq!(h.logs[0].systemprompt, Some("s".to_string()));
    assert_eq!(h.logs[0].response, vec!["x".to_string()]);
    assert_eq!(h.logs[1].prompt, "p2");
    assert_eq!(h.logs[1].model, None);
    assert_eq!(h.began_logging, "start");
    assert_eq!(h.version, "0.3.3");
    assert!(h.filtering);
}

#[test]
fn queue_delivers_in_fifo_order() {
    let mut q: Queue<bool> = Queue::new();
    assert_eq!(q.try_recv(), None);
    q.send(true);
    q.send(false);
    assert_eq!(q.len(), 2);
    assert_eq!(q.try_recv(), Some(true));
    assert_eq!(q.try_recv(), Some(false));
    assert_eq!(q.try_recv(), None);
}

#[test]
fn latest_slot_keeps_only_the_most_recent_value() {
    let mut slot: LatestSlot<Document> = LatestSlot::new();
    assert!(slot.take().is_none());
    slot.publish(Document { source: "old".to_string() });
    slot.publish(Document { source: "new".to_string() });
    let d = slot.take().unwrap();
    assert_eq!(d.source, "new");
    assert!(slot.take().is_none());
}

#[test]
fn get_current_resolves_only_known_names() {
    let sp = SystemPrompt {
        system_prompts: vec![
            ("default".to_string(), "You are helpful.".to_string()),
            ("pirate".to_string(), "Arr.".to_string()),
        ],
        system_prompt: Some("pirate".to_string()),
    };
    assert_eq!(sp.get_current(), Some("Arr.".to_string()));
    let missing = SystemPrompt { system_prompt: Some("ghost".to_string()), ..sp.clone() };
    assert_eq!(missing.get_current(), None);
    let unselected = SystemPrompt { system_prompt: None, ..sp };
    assert_eq!(unselected.get_current(), None);
}

#[test]
fn names_lists_catalog_names_in_order() {
    let sp = SystemPrompt {
        system_prompts: vec![
            ("default".to_string(), "You are helpful.".to_string()),
            ("pirate".to_string(), "Arr.".to_string()),
        ],
        system_prompt: None,
    };
    assert_eq!(sp.names(), vec!["default".to_string(), "pirate".to_string()]);
}
