use vstd::prelude::*;

verus! {

/// Who speaks in a chat message.
#[derive(Clone, Copy, Debug, PartialEq, Eq, Structural)]
pub enum ChatCompletionRoles {
    System,
    User,
    Assistant,
}

/// One role-tagged message of a chat-completion exchange.
#[derive(Clone, Debug)]
pub struct ChatCompletionMessage {
    pub role: ChatCompletionRoles,
    pub content: String,
    pub name: Option<String>,
}

/// What is sent to the completion endpoint: a model identifier and the
/// ordered messages of the conversation.
#[derive(Clone, Debug)]
pub struct ChatCompletionRequest {
    pub model: String,
    pub messages: Vec<ChatCompletionMessage>,
}

/// One candidate reply of the model.
#[derive(Clone, Debug)]
pub struct Choice {
    pub message: ChatCompletionMessage,
}

/// What the completion endpoint answers: candidate replies, best first.
#[derive(Clone, Debug)]
pub struct ChatCompletionResponse {
    pub choices: Vec<Choice>,
}

impl ChatCompletionMessage {
    /// A message from the user with the given text and no name.
    pub fn user(content: String) -> (r: Self)
        ensures
            r.role == ChatCompletionRoles::User,
            r.content@ == content@,
            r.name is None,
    {
        ChatCompletionMessage { role: ChatCompletionRoles::User, content, name: None }
    }
}

impl ChatCompletionRequest {
    pub fn new(model: &str, messages: Vec<ChatCompletionMessage>) -> (r: Self)
        ensures
            r.model@ == model@,
            r.messages@ == messages@,
    {
        ChatCompletionRequest { model: model.to_owned(), messages }
    }

    /// The request holds exactly one message, from the user, unnamed, with
    /// text `prompt`, addressed to `model`.
    pub open spec fn asks(&self, model: Seq<char>, prompt: Seq<char>) -> bool {
        &&& self.model@ == model
        &&& self.messages@.len() == 1
        &&& self.messages@[0].role == ChatCompletionRoles::User
        &&& self.messages@[0].content@ == prompt
        &&& self.messages@[0].name is None
    }
}

impl ChatCompletionResponse {
    /// A response holding one choice with the given text from the assistant.
    pub fn single(content: String) -> (r: Self)
        ensures
            r.choices@.len() == 1,
            r.choices@[0].message.content@ == content@,
    {
        let message = ChatCompletionMessage {
            role: ChatCompletionRoles::Assistant,
            content,
            name: None,
        };
        let mut choices: Vec<Choice> = Vec::new();
        choices.push(Choice { message });
        ChatCompletionResponse { choices }
    }
}

/// Name of the environment variable that holds the API credential.
pub const API_KEY_VAR: &'static str = "API_KEY";

/// Message when the credential is not set (or cannot be read).
pub const MISSING_KEY: &'static str = "API_KEY not found: environment variable not found";

/// Message when the credential is set but empty.
pub const EMPTY_KEY: &'static str = "API_KEY not found: environment variable is empty";

/// Configuration of a completion client: a non-empty credential and an
/// optional override of the endpoint's base URL. Built fresh for each call.
#[derive(Clone, Debug)]
pub struct GroqClientResource {
    pub api_key: String,
    pub base_url: Option<String>,
}

impl GroqClientResource {
    pub open spec fn wf(&self) -> bool {
        self.api_key@.len() > 0
    }

    pub fn new(api_key: String, base_url: Option<String>) -> (r: Self)
        requires
            api_key@.len() > 0,
        ensures
            r.wf(),
            r.api_key@ == api_key@,
            r.base_url == base_url,
    {
        GroqClientResource { api_key, base_url }
    }
}

/// What client construction yields for a credential read from the
/// environment (`None` when it is unset or unreadable): the credential
/// itself, or the initialization error message.
pub open spec fn init_of(api_key: Option<String>) -> Result<Seq<char>, Seq<char>> {
    match api_key {
        None => Err(MISSING_KEY@),
        Some(k) => if k@.len() == 0 {
            Err(EMPTY_KEY@)
        } else {
            Ok(k@)
        },
    }
}

/// Builds the client for a credential, with the default endpoint.
pub fn init_client(api_key: Option<String>) -> (r: Result<GroqClientResource, String>)
    ensures
        match (r, init_of(api_key)) {
            (Ok(c), Ok(k)) => c.wf() && c.api_key@ == k && c.base_url is None,
            (Err(m), Err(e)) => m@ == e,
            _ => false,
        },
{
    match api_key {
        None => Err(MISSING_KEY.to_owned()),
        Some(k) => {
            if k.as_str().unicode_len() == 0 {
                Err(EMPTY_KEY.to_owned())
            } else {
                Ok(GroqClientResource::new(k, None))
            }
        },
    }
}

} // verus!
