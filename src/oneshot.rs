//! A single prompt: ask the model to translate the operator's words into a
//! bash command, then hand the suggestion to the command filter.

use vstd::prelude::*;
use crate::chat::{
    conversation, plain_message, reply_message, ChatError, ChatRequest, Message, MessageView, Role,
    MODEL_NAME,
};
use crate::json::{get_member, get_str_member, json_document, parse_json, str_member, Json};
use crate::text::{trim_str, trimmed};

verus! {

/// The instruction placed before the operator's words.
pub const TRANSLATE_PREFIX: &'static str = "Translate the following prompt into a bash command without explanation:\n";

/// The conversation of a single prompt: the saved context as a system message
/// where it is not empty, then the instruction with the operator's words.
pub open spec fn prompt_conversation(prompt: Seq<char>, context: Seq<char>) -> Seq<MessageView> {
    let ask = seq![plain_message(Role::User, TRANSLATE_PREFIX@ + prompt)];
    if context.len() > 0 {
        seq![plain_message(Role::System, context)] + ask
    } else {
        ask
    }
}

/// The messages of a single prompt.
pub fn prompt_messages(prompt: &str, context: &str) -> (r: Vec<Message>)
    ensures
        conversation(r@) == prompt_conversation(prompt@, context@),
{
    let mut r: Vec<Message> = Vec::new();
    if context.unicode_len() > 0 {
        r.push(Message::plain(Role::System, context));
    }
    let mut ask = String::from_str(TRANSLATE_PREFIX);
    ask.append(prompt);
    r.push(Message::plain(Role::User, ask.as_str()));
    assert(conversation(r@) =~= prompt_conversation(prompt@, context@));
    r
}

/// The request of a single prompt; no functions are offered.
pub fn prompt_request(prompt: &str, context: &str) -> (r: ChatRequest)
    ensures
        r.model@ == MODEL_NAME@,
        conversation(r.messages@) == prompt_conversation(prompt@, context@),
        !r.offer_functions,
{
    ChatRequest {
        model: String::from_str(MODEL_NAME),
        messages: prompt_messages(prompt, context),
        offer_functions: false,
    }
}

/// The suggested command of a response document: the first choice's text.
pub open spec fn suggestion_of(doc: Option<Json>) -> Option<Seq<char>> {
    match doc {
        Some(d) => match reply_message(d) {
            Some(m) => str_member(m, "content"@),
            None => None,
        },
        None => None,
    }
}

/// Reads the suggested command, trimmed, out of a response document (`None`
/// where the body was not JSON).
pub fn command_of_response(doc: &Option<Json>) -> (r: Result<String, ChatError>)
    ensures
        r is Ok <==> suggestion_of(*doc) is Some,
        r matches Ok(c) ==> c@ == trimmed(suggestion_of(*doc)->Some_0),
        r matches Err(e) ==> e is BadBackendResponse,
{
    let body = match doc {
        Some(d) => d,
        None => {
            return Err(ChatError::BadBackendResponse);
        },
    };
    let m = match get_member(body, "choices") {
        Some(Json::Array(cs)) => {
            if cs.len() == 0 {
                return Err(ChatError::BadBackendResponse);
            }
            match get_member(&cs[0], "message") {
                Some(m) => m,
                None => {
                    return Err(ChatError::BadBackendResponse);
                },
            }
        },
        _ => {
            return Err(ChatError::BadBackendResponse);
        },
    };
    match m {
        Json::Object(_) => {},
        _ => {
            return Err(ChatError::BadBackendResponse);
        },
    }
    match get_str_member(m, "content") {
        Some(c) => Ok(String::from_str(trim_str(c.as_str()))),
        None => Err(ChatError::BadBackendResponse),
    }
}

/// Reads the suggested command out of the text of a response body.
pub fn command_of_response_text(body: &str) -> (r: Result<String, ChatError>)
    ensures
        r is Ok <==> suggestion_of(json_document(body@)) is Some,
        r matches Ok(c) ==> c@ == trimmed(suggestion_of(json_document(body@))->Some_0),
        r matches Err(e) ==> e is BadBackendResponse,
{
    let doc = parse_json(body);
    command_of_response(&doc)
}

} // verus!
