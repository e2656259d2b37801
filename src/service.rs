use vstd::prelude::*;
use crate::model::{
    ChatCompletionMessage, ChatCompletionRequest, ChatCompletionResponse, GroqClientResource,
    init_client, init_of,
};
use crate::prompt::{fragment_prompt, fragment_prompt_of, vertex_prompt, vertex_prompt_of};
use crate::text::{contains, contains_str};

verus! {

/// Model identifier named in every request.
pub const MODEL: &'static str = "llama3-70b-8192";

/// The word whose presence anywhere in generated code rejects it.
pub const FORBIDDEN: &'static str = "while";

/// Message when generated code holds the forbidden word.
pub const WHILE_REJECTED: &'static str = "Generated code contains 'while' loop which is not allowed";

/// Message when the endpoint answered with no choice.
pub const EMPTY_RESPONSE: &'static str = "Empty response from API";

/// Prefix of the message when the remote call itself failed.
pub const API_ERROR_PREFIX: &'static str = "API Error: ";

/// Outcome tag handed back to the host.
#[derive(Clone, Copy, Debug, PartialEq, Eq, Structural)]
pub enum Status {
    Success,
    ApiError,
    InitializationError,
}

impl Status {
    /// The host-side name of the tag.
    pub fn atom_name(&self) -> (r: &'static str)
        ensures
            r@ == self.atom_name_of(),
    {
        match self {
            Status::Success => "ok",
            Status::ApiError => "api_error",
            Status::InitializationError => "initialization_error",
        }
    }

    pub open spec fn atom_name_of(&self) -> Seq<char> {
        match self {
            Status::Success => "ok"@,
            Status::ApiError => "api_error"@,
            Status::InitializationError => "initialization_error"@,
        }
    }
}

/// What a generation operation asks its runner to do next: send a request
/// through a client, or hand a final `(status, payload)` back to the host.
#[derive(Debug)]
pub enum Step {
    Send(GroqClientResource, ChatCompletionRequest),
    Reply(Status, String),
}

impl Step {
    /// A `Send` step carries a well-formed client and a single user message
    /// to the fixed model.
    pub open spec fn wf(&self) -> bool {
        match self {
            Step::Send(c, req) => c.wf() && req.asks(
                MODEL@,
                req.messages@[0].content@,
            ),
            Step::Reply(_, _) => true,
        }
    }

    /// `Ok((credential, prompt))` for a `Send`, `Err((status, payload))` for
    /// a `Reply`.
    pub open spec fn plan(&self) -> Result<(Seq<char>, Seq<char>), (Status, Seq<char>)> {
        match self {
            Step::Send(c, req) => Ok((c.api_key@, req.messages@[0].content@)),
            Step::Reply(s, m) => Err((*s, m@)),
        }
    }

    /// The step sends through a client with the credential and endpoint of
    /// `client`.
    pub open spec fn sends_through(&self, client: GroqClientResource) -> bool {
        match self {
            Step::Send(c, _) => c.api_key@ == client.api_key@ && c.base_url == client.base_url,
            Step::Reply(_, _) => false,
        }
    }
}

/// The step for a credential and a prompt: send the prompt when a client
/// can be built, otherwise reply with the initialization error.
pub open spec fn plan_of(api_key: Option<String>, prompt: Seq<char>) -> Result<
    (Seq<char>, Seq<char>),
    (Status, Seq<char>),
> {
    match init_of(api_key) {
        Ok(k) => Ok((k, prompt)),
        Err(m) => Err((Status::InitializationError, m)),
    }
}

/// The text of the first choice of a response.
pub open spec fn first_content(resp: ChatCompletionResponse) -> Seq<char> {
    resp.choices@[0].message.content@
}

/// The generated code, or the error message, for what the remote call gave.
pub open spec fn validated(outcome: Result<ChatCompletionResponse, String>) -> Result<
    Seq<char>,
    Seq<char>,
> {
    match outcome {
        Err(e) => Err(API_ERROR_PREFIX@ + e@),
        Ok(resp) => if resp.choices@.len() == 0 {
            Err(EMPTY_RESPONSE@)
        } else if contains(first_content(resp), FORBIDDEN@) {
            Err(WHILE_REJECTED@)
        } else {
            Ok(first_content(resp))
        },
    }
}

/// The `(status, payload)` pair handed to the host for what the remote
/// call gave.
pub open spec fn reply_of(outcome: Result<ChatCompletionResponse, String>) -> (Status, Seq<char>) {
    match validated(outcome) {
        Ok(code) => (Status::Success, code),
        Err(m) => (Status::ApiError, m),
    }
}

pub open spec fn text_view(r: Result<String, String>) -> Result<Seq<char>, Seq<char>> {
    match r {
        Ok(s) => Ok(s@),
        Err(e) => Err(e@),
    }
}

/// Takes the first choice's text and rejects it when it holds the
/// forbidden word.
pub fn validate_response(outcome: Result<ChatCompletionResponse, String>) -> (r: Result<
    String,
    String,
>)
    ensures
        text_view(r) == validated(outcome),
{
    match outcome {
        Err(e) => {
            let mut m = String::from_str(API_ERROR_PREFIX);
            m.append(e.as_str());
            Err(m)
        },
        Ok(resp) => {
            if resp.choices.len() == 0 {
                Err(EMPTY_RESPONSE.to_owned())
            } else {
                let code = resp.choices[0].message.content.clone();
                if contains_str(code.as_str(), FORBIDDEN) {
                    Err(WHILE_REJECTED.to_owned())
                } else {
                    Ok(code)
                }
            }
        },
    }
}

/// Final `(status, payload)` for what the remote call gave.
pub fn finish(outcome: Result<ChatCompletionResponse, String>) -> (r: (Status, String))
    ensures
        (r.0, r.1@) == reply_of(outcome),
{
    match validate_response(outcome) {
        Ok(code) => (Status::Success, code),
        Err(m) => (Status::ApiError, m),
    }
}

fn request_for(prompt: String) -> (r: ChatCompletionRequest)
    ensures
        r.asks(MODEL@, prompt@),
{
    let mut messages: Vec<ChatCompletionMessage> = Vec::new();
    messages.push(ChatCompletionMessage::user(prompt));
    ChatCompletionRequest::new(MODEL, messages)
}

/// Asks for a vertex shader that does `input`, through `client_ref`.
pub fn get_vertex_code_internal(client_ref: GroqClientResource, input: String) -> (r: Step)
    requires
        client_ref.wf(),
    ensures
        r.wf(),
        r.sends_through(client_ref),
        r.plan() == Ok::<(Seq<char>, Seq<char>), (Status, Seq<char>)>(
            (client_ref.api_key@, vertex_prompt_of(input@)),
        ),
{
    let request = request_for(vertex_prompt(input.as_str()));
    Step::Send(client_ref, request)
}

/// Asks for a fragment shader that does `input` and complements
/// `vertex_code`, through `client_ref`.
pub fn get_fragment_code_internal(
    client_ref: GroqClientResource,
    vertex_code: String,
    input: String,
) -> (r: Step)
    requires
        client_ref.wf(),
    ensures
        r.wf(),
        r.sends_through(client_ref),
        r.plan() == Ok::<(Seq<char>, Seq<char>), (Status, Seq<char>)>(
            (client_ref.api_key@, fragment_prompt_of(vertex_code@, input@)),
        ),
{
    let request = request_for(fragment_prompt(vertex_code.as_str(), input.as_str()));
    Step::Send(client_ref, request)
}

/// First step of vertex-shader generation for the credential read from the
/// environment: the request to send, or the initialization error.
pub fn get_vertex_code(api_key: Option<String>, input: String) -> (r: Step)
    ensures
        r.wf(),
        r matches Step::Send(c, _) ==> c.base_url is None,
        r.plan() == plan_of(api_key, vertex_prompt_of(input@)),
{
    match init_client(api_key) {
        Ok(client) => get_vertex_code_internal(client, input),
        Err(m) => Step::Reply(Status::InitializationError, m),
    }
}

/// First step of fragment-shader generation for the credential read from
/// the environment: the request to send, or the initialization error.
pub fn get_fragment_code(api_key: Option<String>, vertex_code: String, input: String) -> (r: Step)
    ensures
        r.wf(),
        r matches Step::Send(c, _) ==> c.base_url is None,
        r.plan() == plan_of(api_key, fragment_prompt_of(vertex_code@, input@)),
{
    match init_client(api_key) {
        Ok(client) => get_fragment_code_internal(client, vertex_code, input),
        Err(m) => Step::Reply(Status::InitializationError, m),
    }
}

} // verus!
