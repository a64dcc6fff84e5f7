use ollama_pipeline::chat::Correspondence;
use ollama_pipeline::generation::Token;
use ollama_pipeline::pipeline::{Message, Program, TickProbe, UpdateAction, BOT_LIST_TICK, MAX_TICK, VERSION_TICK};

fn catalog() -> Vec<(String, String)> {
    vec![("default".to_string(), "You are helpful.".to_string())]
}

fn ready_program(filtering: bool, logging: bool) -> Program {
    let mut p = Program::init(
        catalog(),
        filtering,
        logging,
        false,
        false,
        "0.3.3".to_string(),
        String::new(),
    );
    p.user_information.model = Some("demo-model".to_string());
    p.system_prompt.system_prompt = Some("default".to_string());
    p.user_information.current_chat_history_enabled = false;
    p
}

fn token(text: &str, done: bool) -> Token {
    Token { response: text.to_string(), done }
}

#[test]
fn submit_while_busy_is_noop() {
    let mut p = ready_program(false, false);
    p.is_processing = true;
    let r = p.submit("Hi".to_string(), 0);
    assert!(r.is_none());
    assert!(p.generation.is_none());
    assert_eq!(p.user_information.chat_history.messages.len(), 0);
    assert_eq!(p.channels.debug_channel.len(), 0);
    assert_eq!(p.channels.debounce_channel.len(), 0);
    assert_eq!(p.prompt.prompt_time_sent, 0);
}

#[test]
fn submit_without_model_is_refused() {
    let mut p = ready_program(false, false);
    p.user_information.model = None;
    let r = p.submit("Hi".to_string(), 0);
    assert!(r.is_none());
    assert!(p.generation.is_none());
    assert!(!p.is_processing);
    assert_eq!(p.user_information.chat_history.messages.len(), 0);
    assert_eq!(p.channels.debug_channel.len(), 1);
    let d = p.channels.debug_channel.try_recv().unwrap();
    assert_eq!(d.message, "Model selected is invalid, have you selected a model?");
    assert!(d.is_error);
    assert_eq!(p.channels.debounce_channel.try_recv(), Some(false));
}

#[test]
fn unresolved_system_prompt_blocks_generation() {
    let mut p = ready_program(false, false);
    p.system_prompt.system_prompt = Some("missing".to_string());
    let r = p.submit("Hi".to_string(), 0);
    assert!(r.is_none());
    assert!(p.generation.is_none());
    assert!(!p.is_processing);
    assert_eq!(p.user_information.chat_history.messages.len(), 0);
    assert_eq!(p.channels.debug_channel.len(), 1);
    let d = p.channels.debug_channel.try_recv().unwrap();
    assert_eq!(d.message, "Could not get system prompt, is it selected?");
    assert!(d.is_error);
}

#[test]
fn no_selected_system_prompt_blocks_generation() {
    let mut p = ready_program(false, false);
    p.system_prompt.system_prompt = None;
    let r = p.submit("Hi".to_string(), 0);
    assert!(r.is_none());
    assert_eq!(p.channels.debug_channel.len(), 1);
    assert_eq!(p.user_information.chat_history.messages.len(), 0);
}

#[test]
fn accepted_submission_builds_request() {
    let mut p = ready_program(false, false);
    p.user_information.temperature = 70;
    p.user_information.think = true;
    let r = p.submit("Hi".to_string(), 42).unwrap();
    assert_eq!(r.model, "demo-model");
    assert_eq!(r.prompt, "Hi");
    assert_eq!(r.system, "You are helpful.");
    assert_eq!(r.temperature, 70);
    assert!(r.think);
    assert!(p.is_processing);
    assert!(p.generation.is_some());
    assert_eq!(p.prompt.prompt_time_sent, 42);
    assert_eq!(p.prompt.prompt, "");
    assert_eq!(p.response.response_as_string, "");
    assert_eq!(p.response.parsed_markdown.source, "Waiting for bot...");
    assert_eq!(p.user_information.chat_history.messages.len(), 1);
    match &p.user_information.chat_history.messages[0] {
        Correspondence::User(t) => assert_eq!(t, "Hi"),
        Correspondence::Assistant(_) => panic!("expected a user entry"),
    }
}

#[test]
fn accepted_submission_with_context_prefixes_conversation() {
    let mut p = ready_program(false, false);
    p.user_information.current_chat_history_enabled = true;
    p.user_information
        .chat_history
        .generate_and_push("earlier".to_string(), "answer".to_string());
    let r = p.submit("Hi".to_string(), 0).unwrap();
    let expected = format!(
        "The following is a conversation between an AI language model and a User. You are the AI language model:\n                    {}\n                    [END CONVERSATION CONTEXT]\n                    Now, the user is sending another message: {}\n                    Respond: \n                    ",
        "User: earlier\nAI Language Model: answer", "Hi"
    );
    assert_eq!(r.prompt, expected);
}

#[test]
fn example_scenario() {
    let mut p = ready_program(false, true);
    let r = p.submit("Hi".to_string(), 0);
    assert!(r.is_some());
    p.stream_token(&token("Hel", false));
    p.stream_token(&token("lo", true));
    assert_eq!(p.response.response_as_string, "Hello");
    p.stream_closed();
    let transcript = &p.user_information.chat_history.messages;
    assert_eq!(transcript.len(), 2);
    match &transcript[0] {
        Correspondence::User(t) => assert_eq!(t, "Hi"),
        Correspondence::Assistant(_) => panic!("expected a user entry first"),
    }
    match &transcript[1] {
        Correspondence::Assistant(t) => assert_eq!(t, "Hello"),
        Correspondence::User(_) => panic!("expected an assistant entry second"),
    }
    assert_eq!(p.channels.debounce_channel.len(), 1);
    assert_eq!(p.channels.logging_channel.len(), 1);
    let outcome = p.tick();
    assert!(outcome.wrote_log);
    assert!(!p.is_processing);
    assert_eq!(p.response.parsed_markdown.source, "Hello");
    let record = &p.app_state.logs.logs[0];
    assert_eq!(record.response, vec!["Hel".to_string(), "lo".to_string()]);
    assert_eq!(record.prompt, "Hi");
    assert_eq!(record.model, Some("demo-model".to_string()));
    assert_eq!(record.systemprompt, Some("You are helpful.".to_string()));
    assert!(!record.filtering);
}

#[test]
fn one_idle_notification_per_completed_submission() {
    let mut p = ready_program(false, false);
    p.submit("Hi".to_string(), 0).unwrap();
    p.stream_token(&token("a", true));
    p.stream_closed();
    assert_eq!(p.channels.debounce_channel.len(), 1);
    assert_eq!(p.channels.debounce_channel.try_recv(), Some(false));
    assert_eq!(p.channels.debounce_channel.try_recv(), None);
    assert!(p.generation.is_none());
}

#[test]
fn one_idle_notification_when_stream_fails_to_open() {
    let mut p = ready_program(false, true);
    p.submit("Hi".to_string(), 0).unwrap();
    p.stream_open_failed(true);
    assert!(p.generation.is_none());
    assert_eq!(p.channels.debounce_channel.len(), 1);
    assert_eq!(p.channels.debounce_channel.try_recv(), Some(false));
    let d = p.channels.debug_channel.try_recv().unwrap();
    assert!(d.is_error);
    assert_eq!(
        d.message,
        "Error getting ollama response (have you enabled thinking on a bot which does not allow this feature?)"
    );
    // The failure happened before any token arrived: no assistant entry, no record.
    assert_eq!(p.user_information.chat_history.messages.len(), 1);
    assert_eq!(p.channels.logging_channel.len(), 0);
}

#[test]
fn open_failure_message_names_unreachable_service() {
    let mut p = ready_program(false, false);
    p.submit("Hi".to_string(), 0).unwrap();
    p.stream_open_failed(false);
    let d = p.channels.debug_channel.try_recv().unwrap();
    assert_eq!(d.message, "Error getting ollama response (is the service reachable?)");
}

#[test]
fn filtering_disabled_accumulates_raw_text() {
    let mut p = ready_program(false, false);
    p.submit("Hi".to_string(), 0).unwrap();
    p.stream_token(&token("fcking coward", false));
    assert_eq!(p.response.response_as_string, "fcking coward");
}

#[test]
fn filtering_enabled_censors_each_token() {
    let mut p = ready_program(true, true);
    p.submit("Hi".to_string(), 0).unwrap();
    p.stream_token(&token("fcking coward", false));
    assert_eq!(p.response.response_as_string, "f***** coward");
    p.stream_closed();
    let record = p.channels.logging_channel.try_recv().unwrap();
    assert_eq!(record.response, vec!["f***** coward".to_string()]);
    assert!(record.filtering);
}

#[test]
fn chunk_preserves_token_order() {
    let mut p = ready_program(false, false);
    p.submit("Hi".to_string(), 0).unwrap();
    let chunk = vec![token("one ", false), token("two ", false), token("three", true)];
    p.stream_chunk(&chunk);
    assert_eq!(p.response.response_as_string, "one two three");
    let g = p.generation.as_ref().unwrap();
    assert_eq!(
        g.final_response,
        vec!["one ".to_string(), "two ".to_string(), "three".to_string()]
    );
    // The published document is re-derived from the entire buffer.
    let outcome = p.tick();
    assert!(!outcome.wrote_log);
    assert_eq!(p.response.parsed_markdown.source, "one two three");
}

#[test]
fn completed_interactions_append_to_log_in_order() {
    let mut p = ready_program(false, true);
    for text in ["first", "second", "third"] {
        p.submit(text.to_string(), 0).unwrap();
        p.stream_token(&token(text, true));
        p.stream_closed();
        p.tick();
    }
    assert_eq!(p.app_state.logs.logs.len(), 3);
    assert_eq!(p.app_state.logs.logs[0].prompt, "first");
    assert_eq!(p.app_state.logs.logs[1].prompt, "second");
    assert_eq!(p.app_state.logs.logs[2].prompt, "third");
    assert_eq!(p.app_state.logs.version, "0.3.3");
}

#[test]
fn tick_counter_wraps_at_ceiling() {
    let mut p = ready_program(false, false);
    p.current_tick = MAX_TICK + 1;
    p.tick();
    assert_eq!(p.current_tick, 1);
}

#[test]
fn tick_launches_each_probe_on_its_tick() {
    let mut p = ready_program(false, false);
    p.current_tick = VERSION_TICK - 1;
    assert_eq!(p.tick().probe, TickProbe::VersionProbe);
    p.current_tick = BOT_LIST_TICK - 1;
    assert_eq!(p.tick().probe, TickProbe::InventoryProbe);
    p.current_tick = 0;
    assert_eq!(p.tick().probe, TickProbe::NoProbe);
}

#[test]
fn tick_drains_at_most_one_busy_flag() {
    let mut p = ready_program(false, false);
    p.channels.debounce_channel.send(true);
    p.channels.debounce_channel.send(false);
    p.tick();
    assert!(p.is_processing);
    p.tick();
    assert!(!p.is_processing);
}

#[test]
fn log_write_failure_is_surfaced_in_debug_message() {
    let mut p = ready_program(false, true);
    p.report_log_write_failure();
    assert_eq!(p.debug_message.message, "Failed to write to history.json");
    assert!(p.debug_message.is_error);
}

#[test]
fn update_dispatches_field_changes() {
    let mut p = ready_program(false, false);
    assert!(matches!(p.update(Message::ModelChange("other".to_string()), 0), UpdateAction::DoNothing));
    assert_eq!(p.user_information.model, Some("other".to_string()));
    p.update(Message::ToggleThinking, 0);
    assert!(p.user_information.think);
    p.update(Message::UpdateTemperature(35), 0);
    assert_eq!(p.user_information.temperature, 35);
    p.update(Message::UpdatePrompt("typed".to_string()), 0);
    assert_eq!(p.prompt.prompt, "typed");
    p.update(Message::ChangeIp("10.0.0.5".to_string()), 0);
    p.update(Message::ChangePort("8080".to_string()), 0);
    assert_eq!(p.user_information.ip_address.ip, "10.0.0.5");
    assert_eq!(p.user_information.ip_address.port, "8080");
    p.update(Message::WipeChatHistory, 0);
    assert_eq!(p.user_information.chat_history.messages.len(), 0);
    assert!(matches!(p.update(Message::InstallationPrompt, 0), UpdateAction::OpenDownloadPage));
    assert!(matches!(p.update(Message::ListPrompt, 0), UpdateAction::OpenSearchPage));
    match p.update(Message::CopyPressed("text".to_string()), 0) {
        UpdateAction::CopyToClipboard(t) => assert_eq!(t, "text"),
        _ => panic!("expected a copy action"),
    }
    match p.update(Message::InstallModel("llama3.2:3b".to_string()), 0) {
        UpdateAction::PullModel(m) => assert_eq!(m, "llama3.2:3b"),
        _ => panic!("expected a pull action"),
    }
    let d = p.channels.debug_channel.try_recv().unwrap();
    assert_eq!(d.message, "Installing model... llama3.2:3b");
    assert!(!d.is_error);
}

#[test]
fn update_submits_on_prompt_message() {
    let mut p = ready_program(false, false);
    match p.update(Message::Prompt("Hi".to_string()), 7) {
        UpdateAction::OpenRequest(req) => assert_eq!(req.prompt, "Hi"),
        _ => panic!("expected an accepted submission"),
    }
    assert!(p.is_processing);
}
