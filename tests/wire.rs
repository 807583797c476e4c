use gptsh::chat::{get_function_definitions, prepare_request_body, FunctionCall, Message, Role};
use gptsh::json::{get_member, get_str_member, Json};
use gptsh::oneshot::prompt_request;
use gptsh::wire::{function_document, message_document, request_document};

fn array(j: &Json) -> &Vec<Json> {
    match j {
        Json::Array(a) => a,
        _ => panic!("expected an array"),
    }
}

#[test]
fn request_with_functions() {
    let messages = vec![Message::plain(Role::System, "be brief"), Message::plain(Role::User, "hi")];
    let doc = request_document(&prepare_request_body(&messages));
    assert_eq!(get_str_member(&doc, "model"), Some("gpt-4".to_string()));
    assert_eq!(get_str_member(&doc, "function_call"), Some("auto".to_string()));
    let ms = array(get_member(&doc, "messages").unwrap());
    assert_eq!(ms.len(), 2);
    assert_eq!(get_str_member(&ms[1], "role"), Some("user".to_string()));
    assert_eq!(get_str_member(&ms[1], "content"), Some("hi".to_string()));
    let fns = array(get_member(&doc, "functions").unwrap());
    assert_eq!(fns.len(), 2);
    assert_eq!(get_str_member(&fns[0], "name"), Some("execute_command".to_string()));
    assert_eq!(get_str_member(&fns[1], "name"), Some("exit_chat".to_string()));
}

#[test]
fn request_without_functions() {
    let doc = request_document(&prompt_request("list files", ""));
    assert!(get_member(&doc, "functions").is_none());
    assert!(get_member(&doc, "function_call").is_none());
}

#[test]
fn message_with_a_call_and_null_content() {
    let m = Message {
        role: Role::Assistant,
        content: None,
        name: None,
        function_call: Some(FunctionCall { name: "execute_command".to_string(), arguments: "{}".to_string() }),
    };
    let doc = message_document(&m);
    assert!(matches!(get_member(&doc, "content"), Some(Json::Null)));
    let call = get_member(&doc, "function_call").unwrap();
    assert_eq!(get_str_member(call, "name"), Some("execute_command".to_string()));
    assert_eq!(get_str_member(call, "arguments"), Some("{}".to_string()));
    assert!(get_member(&doc, "name").is_none());
}

#[test]
fn declared_parameters_are_required_strings() {
    let defs = get_function_definitions();
    let doc = function_document(&defs[0]);
    let params = get_member(&doc, "parameters").unwrap();
    assert_eq!(get_str_member(params, "type"), Some("object".to_string()));
    let command = get_member(get_member(params, "properties").unwrap(), "command").unwrap();
    assert_eq!(get_str_member(command, "type"), Some("string".to_string()));
    let required = array(get_member(params, "required").unwrap());
    assert!(matches!(&required[0], Json::Str(s) if s == "command"));
    let exit = function_document(&defs[1]);
    assert!(array(get_member(get_member(&exit, "parameters").unwrap(), "required").unwrap()).is_empty());
}
