use gptsh::chat::{
    adjust_command, command_argument, command_to_run, get_function_definitions, parse_reply_text, should_exit,
    ChatAction, ChatError, ChatSession, Phase, Role, MAX_FUNCTION_ROUNDS, MODEL_NAME,
};
use gptsh::gate::{function_payload, Disposition, ListStore};

const CALL_ECHO: &str = r#"{"choices":[{"message":{"role":"assistant","content":null,"function_call":{"name":"execute_command","arguments":"{\"command\":\"echo hi\"}"}}}]}"#;

fn started() -> ChatSession {
    let mut s = ChatSession::new();
    assert!(matches!(s.user_input("say hi"), ChatAction::Send(_)));
    s
}

#[test]
fn function_calling_round_trip() {
    let mut s = started();
    assert_eq!(s.messages.len(), 2);
    let mut sends = 0;
    let gated = match s.receive_reply_text(CALL_ECHO) {
        ChatAction::Gate(c) => c,
        _ => panic!("expected the command at the command filter"),
    };
    assert_eq!(gated, "echo hi");
    assert_eq!(s.messages.len(), 3);
    let call = s.messages[2].function_call.as_ref().unwrap();
    assert_eq!(s.messages[2].role, Role::Assistant);
    assert_eq!(call.name, "execute_command");
    assert_eq!(call.arguments, "{\"command\":\"echo hi\"}");
    assert_eq!(s.phase, Phase::AwaitingFunctionResult);

    let mut store = ListStore::new();
    let d = match store.screen(&gated, false) {
        gptsh::gate::Disposition::Confirm(c) => store.resolve(&c, "y"),
        _ => panic!("expected a confirmation"),
    };
    let payload = function_payload(&d, "hi\n");
    assert_eq!(payload, "hi\n");
    match s.function_result(&payload) {
        ChatAction::Send(req) => {
            sends += 1;
            assert_eq!(req.model, MODEL_NAME);
            assert!(req.offer_functions);
            assert_eq!(req.messages.len(), 4);
        }
        _ => panic!("expected a follow-up request"),
    }
    assert_eq!(s.messages.len(), 4);
    assert_eq!(s.messages[3].role, Role::Function);
    assert_eq!(s.messages[3].content.as_deref(), Some("hi\n"));
    assert_eq!(s.messages[3].name.as_deref(), Some("execute_command"));

    let reply = r#"{"choices":[{"message":{"role":"assistant","content":"  It printed hi.  "}}]}"#;
    match s.receive_reply_text(reply) {
        ChatAction::Say(t) => assert_eq!(t, "It printed hi."),
        _ => panic!("expected a terminal reply"),
    }
    assert_eq!(sends, 1);
    assert_eq!(s.messages.len(), 5);
    assert_eq!(s.messages[4].role, Role::Assistant);
    assert_eq!(s.phase, Phase::AwaitingUserInput);
}

#[test]
fn session_starts_with_the_system_prompt() {
    let s = ChatSession::new();
    assert_eq!(s.messages.len(), 1);
    assert_eq!(s.messages[0].role, Role::System);
    assert_eq!(s.phase, Phase::AwaitingUserInput);
}

#[test]
fn exit_words_and_blank_lines() {
    let mut s = ChatSession::new();
    assert!(matches!(s.user_input("   "), ChatAction::Ignore));
    assert_eq!(s.messages.len(), 1);
    assert!(matches!(s.user_input(" QUIT "), ChatAction::Exit));
    assert_eq!(s.phase, Phase::Terminal);
    assert!(should_exit("exit") && should_exit("Exit") && !should_exit("exit now"));
}

#[test]
fn user_message_is_trimmed() {
    let mut s = ChatSession::new();
    match s.user_input("  list files \n") {
        ChatAction::Send(req) => assert_eq!(req.messages.len(), 2),
        _ => panic!("expected a request"),
    }
    assert_eq!(s.messages[1].role, Role::User);
    assert_eq!(s.messages[1].content.as_deref(), Some("list files"));
}

#[test]
fn malformed_backend_response_leaves_conversation_as_is() {
    for body in ["not json", "{}", r#"{"choices":[]}"#, r#"{"choices":[{"text":"x"}]}"#, r#"{"choices":[{"message":{"function_call":{"arguments":"{}"}}}]}"#] {
        let mut s = started();
        match s.receive_reply_text(body) {
            ChatAction::Abandon(ChatError::BadBackendResponse) => {}
            _ => panic!("expected a bad response for {}", body),
        }
        assert_eq!(s.messages.len(), 2);
        assert_eq!(s.phase, Phase::AwaitingUserInput);
    }
}

#[test]
fn malformed_arguments_abort_the_turn() {
    for args in ["not json", "{}", r#"{\"command\":\"\"}"#, r#"{\"command\":7}"#] {
        let mut s = started();
        let body = format!(
            r#"{{"choices":[{{"message":{{"function_call":{{"name":"execute_command","arguments":"{}"}}}}}}]}}"#,
            args
        );
        match s.receive_reply_text(&body) {
            ChatAction::Abandon(ChatError::MalformedFunctionArgs) => {}
            _ => panic!("expected malformed arguments for {}", args),
        }
        assert_eq!(s.messages.len(), 2);
    }
}

#[test]
fn exit_chat_ends_the_session() {
    let mut s = started();
    let body = r#"{"choices":[{"message":{"function_call":{"name":"exit_chat","arguments":"{}"}}}]}"#;
    assert!(matches!(s.receive_reply_text(body), ChatAction::Exit));
    assert_eq!(s.phase, Phase::Terminal);
}

#[test]
fn unknown_function_is_a_protocol_error() {
    let mut s = started();
    let body = r#"{"choices":[{"message":{"function_call":{"name":"format_disk","arguments":"{}"}}}]}"#;
    match s.receive_reply_text(body) {
        ChatAction::Abandon(ChatError::UnknownFunction(n)) => assert_eq!(n, "format_disk"),
        _ => panic!("expected an unknown function"),
    }
    assert_eq!(s.messages.len(), 2);
}

#[test]
fn function_rounds_are_bounded() {
    let mut s = started();
    for _ in 0..MAX_FUNCTION_ROUNDS {
        assert!(matches!(s.receive_reply_text(CALL_ECHO), ChatAction::Gate(_)));
        assert!(matches!(s.function_result("hi\n"), ChatAction::Send(_)));
    }
    let before = s.messages.len();
    assert!(matches!(s.receive_reply_text(CALL_ECHO), ChatAction::Abandon(ChatError::TooManyRounds)));
    assert_eq!(s.messages.len(), before);
}

#[test]
fn bare_ls_is_adjusted() {
    assert_eq!(adjust_command("ls"), "ls -C");
    assert_eq!(adjust_command(" ls "), "ls -C");
    assert_eq!(adjust_command("ls -la"), "ls -la");
}

#[test]
fn command_argument_reads_json() {
    assert_eq!(command_argument(r#"{"command":"echo hi"}"#), Some("echo hi".to_string()));
    assert_eq!(command_argument(r#"{"command":""}"#), None);
    assert_eq!(command_argument("echo hi"), None);
}

#[test]
fn reply_with_text_and_no_call() {
    let r = parse_reply_text(r#"{"choices":[{"message":{"content":"hello","function_call":null}}]}"#)
        .ok()
        .unwrap();
    assert_eq!(r.content.as_deref(), Some("hello"));
    assert!(r.function_call.is_none());
}

#[test]
fn declared_functions() {
    let f = get_function_definitions();
    assert_eq!(f.len(), 2);
    assert_eq!(f[0].name, "execute_command");
    assert_eq!(f[0].parameters[0].name, "command");
    assert!(f[0].parameters[0].required);
    assert_eq!(f[1].name, "exit_chat");
    assert!(f[1].parameters.is_empty());
}

fn call_of(command: &str) -> String {
    format!(
        r#"{{"choices":[{{"message":{{"function_call":{{"name":"execute_command","arguments":"{{\"command\":\"{}\"}}"}}}}}}]}}"#,
        command
    )
}

#[test]
fn filter_sees_the_command_the_model_sent() {
    let mut s = started();
    let gated = match s.receive_reply_text(&call_of("ls")) {
        ChatAction::Gate(c) => c,
        _ => panic!("expected the command at the command filter"),
    };
    assert_eq!(gated, "ls");
    let denied = ListStore::from_texts("", "ls\n");
    assert!(matches!(denied.screen(&gated, false), Disposition::Banned(ref c) if c == "ls"));
    let allowed = ListStore::from_texts("ls\n", "");
    let d = allowed.screen(&gated, false);
    assert!(matches!(d, Disposition::Spawn(ref c) if c == "ls"));
    assert_eq!(command_to_run(&d), Some("ls -C".to_string()));
}

#[test]
fn only_a_spawn_runs_anything() {
    assert_eq!(command_to_run(&Disposition::Spawn("echo hi".to_string())), Some("echo hi".to_string()));
    assert_eq!(command_to_run(&Disposition::Banned("ls".to_string())), None);
    assert_eq!(command_to_run(&Disposition::Declined), None);
    assert_eq!(command_to_run(&Disposition::RunYourself("note".to_string())), None);
}
