//! The conversation engine: the message history, the shape of each request to
//! the model backend, the reading of its replies, and the function-calling
//! protocol as a state machine. The caller performs each action it returns
//! (send a request, put a command through the command filter, show a reply) and
//! hands back what came of it.

use vstd::prelude::*;
use crate::gate::Disposition;
use crate::json::{get_member, get_str_member, member, parse_json, str_member, json_document, Json};
use crate::text::{eq_ignore_ascii_case, eq_ignoring_ascii_case, str_equal, trim_str, trimmed};

verus! {

/// The model every request names.
pub const MODEL_NAME: &'static str = "gpt-4";

/// The system prompt that opens every conversation.
pub const SYSTEM_PROMPT: &'static str = "You are a helpful assistant chatting in a terminal, use proper formatting so that your answers are easy to read. Address the user as pal or buddy.";

/// The most function-call rounds one user turn may take before it is abandoned.
pub const MAX_FUNCTION_ROUNDS: usize = 8;

#[derive(PartialEq, Eq, Structural, Clone, Copy, Debug)]
pub enum Role {
    System,
    User,
    Assistant,
    Function,
}

/// The role's name on the wire.
pub open spec fn role_name(r: Role) -> Seq<char> {
    match r {
        Role::System => "system"@,
        Role::User => "user"@,
        Role::Assistant => "assistant"@,
        Role::Function => "function"@,
    }
}

impl Role {
    /// The role's name on the wire.
    pub fn as_str(&self) -> (r: &'static str)
        ensures
            r@ == role_name(*self),
    {
        match self {
            Role::System => "system",
            Role::User => "user",
            Role::Assistant => "assistant",
            Role::Function => "function",
        }
    }
}

/// A request of the model to invoke a named capability; the arguments are
/// JSON text.
pub struct FunctionCall {
    pub name: String,
    pub arguments: String,
}

/// One entry of the conversation.
pub struct Message {
    pub role: Role,
    pub content: Option<String>,
    /// The function whose result a `Function` message carries.
    pub name: Option<String>,
    pub function_call: Option<FunctionCall>,
}

/// A message as plain values.
pub struct MessageView {
    pub role: Role,
    pub content: Option<Seq<char>>,
    pub name: Option<Seq<char>>,
    pub function_call: Option<(Seq<char>, Seq<char>)>,
}

pub open spec fn opt_view(o: Option<String>) -> Option<Seq<char>> {
    match o {
        Some(s) => Some(s@),
        None => None,
    }
}

pub open spec fn call_view(o: Option<FunctionCall>) -> Option<(Seq<char>, Seq<char>)> {
    match o {
        Some(c) => Some((c.name@, c.arguments@)),
        None => None,
    }
}

impl View for Message {
    type V = MessageView;

    open spec fn view(&self) -> MessageView {
        MessageView {
            role: self.role,
            content: opt_view(self.content),
            name: opt_view(self.name),
            function_call: call_view(self.function_call),
        }
    }
}

/// The views of a list of messages.
pub open spec fn conversation(ms: Seq<Message>) -> Seq<MessageView> {
    ms.map_values(|m: Message| m@)
}

pub open spec fn plain_message(role: Role, content: Seq<char>) -> MessageView {
    MessageView { role, content: Some(content), name: None, function_call: None }
}

fn copy_opt(o: &Option<String>) -> (r: Option<String>)
    ensures
        opt_view(r) == opt_view(*o),
{
    match o {
        Some(s) => Some(s.clone()),
        None => None,
    }
}

impl Message {
    /// A message with the given role and text.
    pub fn plain(role: Role, content: &str) -> (r: Message)
        ensures
            r@ == plain_message(role, content@),
    {
        Message { role, content: Some(String::from_str(content)), name: None, function_call: None }
    }

    /// A copy of the message.
    pub fn duplicate(&self) -> (r: Message)
        ensures
            r@ == self@,
    {
        let function_call = match &self.function_call {
            Some(c) => Some(FunctionCall { name: c.name.clone(), arguments: c.arguments.clone() }),
            None => None,
        };
        Message {
            role: self.role,
            content: copy_opt(&self.content),
            name: copy_opt(&self.name),
            function_call,
        }
    }
}

/// One parameter of a declared function; every parameter is a string.
pub struct ParamSpec {
    pub name: String,
    pub description: String,
    pub required: bool,
}

/// A function the model may ask the engine to invoke.
pub struct FunctionSpec {
    pub name: String,
    pub description: String,
    pub parameters: Vec<ParamSpec>,
}

/// The declarations of `execute_command(command: string, required)` and
/// `exit_chat()`, with their descriptions.
pub open spec fn declared_functions(defs: Seq<FunctionSpec>) -> bool {
    &&& defs.len() == 2
    &&& defs[0].name@ == "execute_command"@
    &&& defs[0].description@ == "Executes a shell command and returns the output."@
    &&& defs[0].parameters@.len() == 1
    &&& defs[0].parameters@[0].name@ == "command"@
    &&& defs[0].parameters@[0].description@ == "The shell command to execute."@
    &&& defs[0].parameters@[0].required
    &&& defs[1].name@ == "exit_chat"@
    &&& defs[1].description@ == "Signals that the user wants to exit the chat."@
    &&& defs[1].parameters@.len() == 0
}

/// The two declared functions: `execute_command(command: string, required)`
/// and `exit_chat()`.
pub fn get_function_definitions() -> (r: Vec<FunctionSpec>)
    ensures
        declared_functions(r@),
{
    let command = ParamSpec {
        name: String::from_str("command"),
        description: String::from_str("The shell command to execute."),
        required: true,
    };
    let execute = FunctionSpec {
        name: String::from_str("execute_command"),
        description: String::from_str("Executes a shell command and returns the output."),
        parameters: vec![command],
    };
    let exit = FunctionSpec {
        name: String::from_str("exit_chat"),
        description: String::from_str("Signals that the user wants to exit the chat."),
        parameters: Vec::new(),
    };
    vec![execute, exit]
}

/// A request to the backend: the model, the whole conversation, and whether
/// the declared functions are offered (with the backend left to decide when
/// to call them).
pub struct ChatRequest {
    pub model: String,
    pub messages: Vec<Message>,
    pub offer_functions: bool,
}

/// A copy of the conversation.
pub fn copy_messages(messages: &Vec<Message>) -> (r: Vec<Message>)
    ensures
        conversation(r@) == conversation(messages@),
{
    let mut out: Vec<Message> = Vec::new();
    let mut i: usize = 0;
    while i < messages.len()
        invariant
            i <= messages@.len(),
            out@.len() == i,
            forall|k: int| 0 <= k < i ==> (#[trigger] out@[k])@ == messages@[k]@,
        decreases messages@.len() - i,
    {
        out.push(messages[i].duplicate());
        i = i + 1;
    }
    assert(conversation(out@) =~= conversation(messages@));
    out
}

/// The request that carries the conversation with both functions offered.
pub fn prepare_request_body(messages: &Vec<Message>) -> (r: ChatRequest)
    ensures
        r.model@ == MODEL_NAME@,
        conversation(r.messages@) == conversation(messages@),
        r.offer_functions,
{
    ChatRequest { model: String::from_str(MODEL_NAME), messages: copy_messages(messages), offer_functions: true }
}

/// A reply of the backend: its text, its function call, or both.
pub struct ModelReply {
    pub content: Option<String>,
    pub function_call: Option<FunctionCall>,
}

/// The first choice's message, where `choices` is a non-empty array whose
/// first element holds a `message` object.
pub open spec fn reply_message(body: Json) -> Option<Json> {
    match member(body, "choices"@) {
        Some(Json::Array(cs)) => if cs@.len() > 0 {
            match member(cs@[0], "message"@) {
                Some(m) => if m is Object {
                    Some(m)
                } else {
                    None
                },
                None => None,
            }
        } else {
            None
        },
        _ => None,
    }
}

/// The function call of a message: absent (or null), or a name with its
/// argument text (empty where missing); `None` where the call has no name.
pub open spec fn call_of(m: Json) -> Option<Option<(Seq<char>, Seq<char>)>> {
    match member(m, "function_call"@) {
        None => Some(None),
        Some(Json::Null) => Some(None),
        Some(fc) => match str_member(fc, "name"@) {
            Some(n) => Some(
                Some(
                    (
                        n,
                        match str_member(fc, "arguments"@) {
                            Some(a) => a,
                            None => Seq::empty(),
                        },
                    ),
                ),
            ),
            None => None,
        },
    }
}

/// The reply that a response document holds, as its text and its call.
pub open spec fn reply_of(body: Json) -> Option<(Option<Seq<char>>, Option<(Seq<char>, Seq<char>)>)> {
    match reply_message(body) {
        None => None,
        Some(m) => match call_of(m) {
            None => None,
            Some(c) => Some((str_member(m, "content"@), c)),
        },
    }
}

/// Why a turn was abandoned.
pub enum ChatError {
    /// No choices, or a payload of the wrong shape.
    BadBackendResponse,
    /// The arguments of `execute_command` are not JSON with a non-empty `command`.
    MalformedFunctionArgs,
    /// The backend asked for a function that was not declared.
    UnknownFunction(String),
    /// The turn took more function-call rounds than allowed.
    TooManyRounds,
}

/// Reads the reply out of a response document.
pub fn parse_reply(body: &Json) -> (r: Result<ModelReply, ChatError>)
    ensures
        r is Ok <==> reply_of(*body) is Some,
        r matches Ok(rep) ==> (opt_view(rep.content), call_view(rep.function_call)) == reply_of(
            *body,
        )->Some_0,
        r matches Err(e) ==> e is BadBackendResponse,
{
    let m = match get_member(body, "choices") {
        Some(Json::Array(cs)) => {
            if cs.len() == 0 {
                return Err(ChatError::BadBackendResponse);
            }
            match get_member(&cs[0], "message") {
                Some(m) => m,
                None => {
                    return Err(ChatError::BadBackendResponse);
                },
            }
        },
        _ => {
            return Err(ChatError::BadBackendResponse);
        },
    };
    match m {
        Json::Object(_) => {},
        _ => {
            return Err(ChatError::BadBackendResponse);
        },
    }
    let function_call = match get_member(m, "function_call") {
        None => None,
        Some(Json::Null) => None,
        Some(fc) => match get_str_member(fc, "name") {
            Some(name) => {
                let arguments = match get_str_member(fc, "arguments") {
                    Some(a) => a,
                    None => String::new(),
                };
                Some(FunctionCall { name, arguments })
            },
            None => {
                return Err(ChatError::BadBackendResponse);
            },
        },
    };
    Ok(ModelReply { content: get_str_member(m, "content"), function_call })
}

/// Reads the reply out of the text of a response body.
pub fn parse_reply_text(body: &str) -> (r: Result<ModelReply, ChatError>)
    ensures
        r is Ok <==> (json_document(body@) matches Some(d) && reply_of(d) is Some),
        r matches Ok(rep) ==> (opt_view(rep.content), call_view(rep.function_call)) == reply_of(
            json_document(body@)->Some_0,
        )->Some_0,
        r matches Err(e) ==> e is BadBackendResponse,
{
    match parse_json(body) {
        Some(doc) => parse_reply(&doc),
        None => Err(ChatError::BadBackendResponse),
    }
}

/// Whether the operator's (trimmed) input ends the chat: `exit` or `quit`,
/// in any ASCII case.
pub open spec fn is_exit_word(t: Seq<char>) -> bool {
    eq_ignoring_ascii_case(t, "exit"@) || eq_ignoring_ascii_case(t, "quit"@)
}

/// Whether the operator's input asks to end the chat.
pub fn should_exit(input: &str) -> (r: bool)
    ensures
        r == is_exit_word(input@),
{
    eq_ignore_ascii_case(input, "exit") || eq_ignore_ascii_case(input, "quit")
}

/// A bare `ls` is run as `ls -C`, so that its output keeps columns when captured.
pub open spec fn adjusted(c: Seq<char>) -> Seq<char> {
    if trimmed(c) == "ls"@ {
        "ls -C"@
    } else {
        c
    }
}

/// Adjusts a command before it runs: a bare `ls` becomes `ls -C`.
pub fn adjust_command(command: &str) -> (r: &str)
    ensures
        r@ == adjusted(command@),
{
    if str_equal(trim_str(command), "ls") {
        "ls -C"
    } else {
        command
    }
}

/// The text a child shell runs for a disposition: for a spawn, the command
/// as the filter decided it, adjusted; nothing for any other disposition.
pub fn command_to_run(d: &Disposition) -> (r: Option<String>)
    ensures
        d matches Disposition::Spawn(s) ==> (r matches Some(t) && t@ == adjusted(s@)),
        !(d is Spawn) ==> r is None,
{
    match d {
        Disposition::Spawn(s) => Some(String::from_str(adjust_command(s.as_str()))),
        _ => None,
    }
}

/// The non-empty `command` member of the JSON text of a call's arguments.
pub open spec fn command_in(args: Seq<char>) -> Option<Seq<char>> {
    match json_document(args) {
        Some(d) => match str_member(d, "command"@) {
            Some(c) => if c.len() > 0 {
                Some(c)
            } else {
                None
            },
            None => None,
        },
        None => None,
    }
}

/// Reads the command out of the JSON text of `execute_command`'s arguments.
pub fn command_argument(args: &str) -> (r: Option<String>)
    ensures
        r is Some <==> command_in(args@) is Some,
        r matches Some(c) ==> c@ == command_in(args@)->Some_0,
{
    match parse_json(args) {
        Some(doc) => match get_str_member(&doc, "command") {
            Some(c) => if c.as_str().unicode_len() > 0 {
                Some(c)
            } else {
                None
            },
            None => None,
        },
        None => None,
    }
}

/// Where the conversation stands.
#[derive(PartialEq, Eq, Structural, Clone, Copy, Debug)]
pub enum Phase {
    AwaitingUserInput,
    AwaitingModelReply,
    AwaitingFunctionResult,
    Terminal,
}

/// What the caller is to do next.
pub enum ChatAction {
    /// Blank input: read the next line.
    Ignore,
    /// Send this request and hand the response body back.
    Send(ChatRequest),
    /// Put this command through the command filter and hand back what it gave.
    Gate(String),
    /// Show the assistant's reply; the turn is over.
    Say(String),
    /// The session is over.
    Exit,
    /// The turn is abandoned for this reason; the session goes on.
    Abandon(ChatError),
}

/// One chat session: the conversation, where it stands, and how many
/// function-call rounds the current turn has taken.
pub struct ChatSession {
    pub messages: Vec<Message>,
    pub phase: Phase,
    pub rounds: usize,
}

/// The action that sends the conversation `conv` with the functions offered.
pub open spec fn sends(r: ChatAction, conv: Seq<MessageView>) -> bool {
    r matches ChatAction::Send(req) && req.model@ == MODEL_NAME@ && conversation(req.messages@)
        == conv && req.offer_functions
}

/// The turn is given up with the conversation as it was.
pub open spec fn abandoned(pre: ChatSession, post: ChatSession) -> bool {
    conversation(post.messages@) == conversation(pre.messages@) && post.phase
        == Phase::AwaitingUserInput && post.rounds == pre.rounds
}

pub open spec fn text_or_empty(o: Option<Seq<char>>) -> Seq<char> {
    match o {
        Some(t) => t,
        None => Seq::empty(),
    }
}

pub open spec fn assistant_message(content: Option<Seq<char>>, call: Option<(Seq<char>, Seq<char>)>) -> MessageView {
    MessageView { role: Role::Assistant, content, name: None, function_call: call }
}

/// The message that carries a command's output back to the model.
pub open spec fn function_message(output: Seq<char>) -> MessageView {
    MessageView {
        role: Role::Function,
        content: Some(output),
        name: Some("execute_command"@),
        function_call: None,
    }
}

/// What a response document does to the session: a malformed one abandons the
/// turn; a call of `execute_command` with a command records the call and sends
/// the command to the command filter; `exit_chat` ends the session; any other function
/// abandons the turn; a reply without a call is recorded and shown.
pub open spec fn reply_effect(pre: ChatSession, post: ChatSession, doc: Option<Json>, r: ChatAction) -> bool {
    let conv = conversation(pre.messages@);
    let reply = match doc {
        Some(d) => reply_of(d),
        None => None,
    };
    match reply {
        None => abandoned(pre, post) && (r matches ChatAction::Abandon(e) && e is BadBackendResponse),
        Some((content, call)) => match call {
            None => {
                &&& conversation(post.messages@) == conv.push(assistant_message(content, None))
                &&& post.phase == Phase::AwaitingUserInput
                &&& post.rounds == pre.rounds
                &&& (r matches ChatAction::Say(t) && t@ == trimmed(text_or_empty(content)))
            },
            Some((name, args)) => if name == "execute_command"@ {
                match command_in(args) {
                    None => abandoned(pre, post) && (r matches ChatAction::Abandon(e)
                        && e is MalformedFunctionArgs),
                    Some(c) => if pre.rounds >= MAX_FUNCTION_ROUNDS {
                        abandoned(pre, post) && (r matches ChatAction::Abandon(e)
                            && e is TooManyRounds)
                    } else {
                        &&& conversation(post.messages@) == conv.push(
                            assistant_message(content, Some((name, args))),
                        )
                        &&& post.phase == Phase::AwaitingFunctionResult
                        &&& post.rounds == pre.rounds + 1
                        &&& (r matches ChatAction::Gate(g) && g@ == c)
                    },
                }
            } else if name == "exit_chat"@ {
                conversation(post.messages@) == conv && post.phase == Phase::Terminal && r is Exit
            } else {
                abandoned(pre, post) && (r matches ChatAction::Abandon(e) && (
                e matches ChatError::UnknownFunction(n) && n@ == name))
            },
        },
    }
}

/// A conversation that holds only the system prompt.
pub fn initialize_messages_with_system_prompt() -> (r: Vec<Message>)
    ensures
        conversation(r@) == seq![plain_message(Role::System, SYSTEM_PROMPT@)],
{
    let r = vec![Message::plain(Role::System, SYSTEM_PROMPT)];
    assert(conversation(r@) =~= seq![plain_message(Role::System, SYSTEM_PROMPT@)]);
    r
}

/// Appends the operator's message to the conversation.
pub fn add_user_message(messages: &mut Vec<Message>, user_input: &str)
    ensures
        conversation(final(messages)@) == conversation(old(messages)@).push(
            plain_message(Role::User, user_input@),
        ),
{
    messages.push(Message::plain(Role::User, user_input));
    assert(conversation(messages@) =~= conversation(old(messages)@).push(
        plain_message(Role::User, user_input@),
    ));
}

impl ChatSession {
    /// A session awaiting the operator, its conversation holding the system prompt.
    pub fn new() -> (r: ChatSession)
        ensures
            conversation(r.messages@) == seq![plain_message(Role::System, SYSTEM_PROMPT@)],
            r.phase == Phase::AwaitingUserInput,
            r.rounds == 0,
    {
        ChatSession { messages: initialize_messages_with_system_prompt(), phase: Phase::AwaitingUserInput, rounds: 0 }
    }

    fn push_message(&mut self, m: Message)
        ensures
            conversation(final(self).messages@) == conversation(old(self).messages@).push(m@),
            final(self).phase == old(self).phase,
            final(self).rounds == old(self).rounds,
    {
        let ghost m_view = m@;
        self.messages.push(m);
        assert(conversation(self.messages@) =~= conversation(old(self).messages@).push(m_view));
    }

    /// Takes a line from the operator: `exit` or `quit` ends the session, a
    /// blank line is ignored, and any other line, trimmed, is appended as the
    /// user's message and sent with the whole conversation.
    pub fn user_input(&mut self, line: &str) -> (r: ChatAction)
        requires
            old(self).phase == Phase::AwaitingUserInput,
        ensures
            is_exit_word(trimmed(line@)) ==> r is Exit && final(self).phase == Phase::Terminal
                && conversation(final(self).messages@) == conversation(old(self).messages@),
            !is_exit_word(trimmed(line@)) && trimmed(line@).len() == 0 ==> r is Ignore
                && final(self).phase == Phase::AwaitingUserInput && conversation(
                final(self).messages@,
            ) == conversation(old(self).messages@),
            !is_exit_word(trimmed(line@)) && trimmed(line@).len() > 0 ==> conversation(
                final(self).messages@,
            ) == conversation(old(self).messages@).push(
                plain_message(Role::User, trimmed(line@)),
            ) && final(self).phase == Phase::AwaitingModelReply && final(self).rounds == 0
                && sends(r, conversation(final(self).messages@)),
    {
        let t = trim_str(line);
        if should_exit(t) {
            self.phase = Phase::Terminal;
            return ChatAction::Exit;
        }
        if t.unicode_len() == 0 {
            return ChatAction::Ignore;
        }
        add_user_message(&mut self.messages, t);
        self.phase = Phase::AwaitingModelReply;
        self.rounds = 0;
        ChatAction::Send(prepare_request_body(&self.messages))
    }

    /// Takes the backend's response document (`None` where the body was not
    /// JSON) and decides what follows.
    pub fn receive_reply(&mut self, doc: Option<Json>) -> (r: ChatAction)
        requires
            old(self).phase == Phase::AwaitingModelReply,
        ensures
            reply_effect(*old(self), *final(self), doc, r),
    {
        let parsed = match &doc {
            Some(d) => parse_reply(d),
            None => Err(ChatError::BadBackendResponse),
        };
        let rep = match parsed {
            Ok(rep) => rep,
            Err(e) => {
                self.phase = Phase::AwaitingUserInput;
                return ChatAction::Abandon(e);
            },
        };
        let ModelReply { content, function_call } = rep;
        match function_call {
            None => {
                let shown = match &content {
                    Some(c) => String::from_str(trim_str(c.as_str())),
                    None => String::new(),
                };
                proof {
                    assert(trimmed(Seq::<char>::empty()) =~= Seq::<char>::empty());
                }
                self.push_message(
                    Message { role: Role::Assistant, content, name: None, function_call: None },
                );
                self.phase = Phase::AwaitingUserInput;
                ChatAction::Say(shown)
            },
            Some(fc) => {
                if str_equal(fc.name.as_str(), "execute_command") {
                    match command_argument(fc.arguments.as_str()) {
                        None => {
                            self.phase = Phase::AwaitingUserInput;
                            ChatAction::Abandon(ChatError::MalformedFunctionArgs)
                        },
                        Some(c) => {
                            if self.rounds >= MAX_FUNCTION_ROUNDS {
                                self.phase = Phase::AwaitingUserInput;
                                ChatAction::Abandon(ChatError::TooManyRounds)
                            } else {
                                self.push_message(
                                    Message {
                                        role: Role::Assistant,
                                        content,
                                        name: None,
                                        function_call: Some(fc),
                                    },
                                );
                                self.rounds = self.rounds + 1;
                                self.phase = Phase::AwaitingFunctionResult;
                                ChatAction::Gate(c)
                            }
                        },
                    }
                } else if str_equal(fc.name.as_str(), "exit_chat") {
                    self.phase = Phase::Terminal;
                    ChatAction::Exit
                } else {
                    self.phase = Phase::AwaitingUserInput;
                    ChatAction::Abandon(ChatError::UnknownFunction(fc.name))
                }
            },
        }
    }

    /// Takes the text of the backend's response body and decides what follows.
    pub fn receive_reply_text(&mut self, body: &str) -> (r: ChatAction)
        requires
            old(self).phase == Phase::AwaitingModelReply,
        ensures
            reply_effect(*old(self), *final(self), json_document(body@), r),
    {
        let doc = parse_json(body);
        self.receive_reply(doc)
    }

    /// Gives up the current turn after the request could not be completed
    /// (the network failed): the conversation stays as it is and the session
    /// awaits the operator again.
    pub fn abandon_turn(&mut self)
        requires
            old(self).phase != Phase::Terminal,
        ensures
            conversation(final(self).messages@) == conversation(old(self).messages@),
            final(self).phase == Phase::AwaitingUserInput,
            final(self).rounds == old(self).rounds,
    {
        self.phase = Phase::AwaitingUserInput;
    }

    /// Takes what the command filter gave for the pending command (the captured output,
    /// or an error payload), appends it as the function's result and sends the
    /// conversation again, without asking the operator.
    pub fn function_result(&mut self, output: &str) -> (r: ChatAction)
        requires
            old(self).phase == Phase::AwaitingFunctionResult,
        ensures
            conversation(final(self).messages@) == conversation(old(self).messages@).push(
                function_message(output@),
            ),
            final(self).phase == Phase::AwaitingModelReply,
            final(self).rounds == old(self).rounds,
            sends(r, conversation(final(self).messages@)),
    {
        self.push_message(
            Message {
                role: Role::Function,
                content: Some(String::from_str(output)),
                name: Some(String::from_str("execute_command")),
                function_call: None,
            },
        );
        self.phase = Phase::AwaitingModelReply;
        ChatAction::Send(prepare_request_body(&self.messages))
    }
}

} // verus!
