use shader_api::model::{
    init_client, ChatCompletionMessage, ChatCompletionRequest, ChatCompletionResponse,
    ChatCompletionRoles, Choice, GroqClientResource, EMPTY_KEY, MISSING_KEY,
};
use shader_api::prompt::{
    fragment_prompt, vertex_prompt, FRAGMENT_HEAD, FRAGMENT_MID, FRAGMENT_TAIL, VERTEX_HEAD,
    VERTEX_TAIL,
};
use shader_api::service::{
    finish, get_fragment_code, get_fragment_code_internal, get_vertex_code,
    get_vertex_code_internal, validate_response, Status, Step, EMPTY_RESPONSE, MODEL,
    WHILE_REJECTED,
};
use shader_api::text::{chars_of, contains_str};

fn key() -> Option<String> {
    Some("SECRET-REDACTED".to_string())
}

fn sent_prompt(step: &Step) -> String {
    match step {
        Step::Send(client, request) => {
            assert_eq!(client.api_key, "SECRET-REDACTED");
            assert!(client.base_url.is_none());
            assert_eq!(request.model, "llama3-70b-8192");
            assert_eq!(request.messages.len(), 1);
            assert_eq!(request.messages[0].role, ChatCompletionRoles::User);
            assert!(request.messages[0].name.is_none());
            request.messages[0].content.clone()
        }
        Step::Reply(status, payload) => panic!("expected a request, got {:?} {}", status, payload),
    }
}

fn reply(step: Step) -> (Status, String) {
    match step {
        Step::Reply(status, payload) => (status, payload),
        Step::Send(_, _) => panic!("expected a reply, got a request"),
    }
}

#[test]
fn scenario_vertex_code_returned_verbatim() {
    let code = "attribute vec2 position; void main() { gl_Position = vec4(position, 0.0, 1.0); }";
    let step = get_vertex_code(key(), "a simple triangle".to_string());
    let prompt = sent_prompt(&step);
    assert!(prompt.contains("a simple triangle"));
    let (status, payload) = finish(Ok(ChatCompletionResponse::single(code.to_string())));
    assert_eq!(status, Status::Success);
    assert_eq!(payload, code);
    assert_eq!(status.atom_name(), "ok");
}

#[test]
fn scenario_fragment_with_while_rejected() {
    let step = get_fragment_code(key(), "void main() {}".to_string(), "red screen".to_string());
    let prompt = sent_prompt(&step);
    assert!(prompt.contains("red screen"));
    let content = "void main() { gl_FragColor = vec4(1.0); while(true){} }";
    let (status, payload) = finish(Ok(ChatCompletionResponse::single(content.to_string())));
    assert_eq!(status, Status::ApiError);
    assert!(payload.contains("while"));
    assert_eq!(payload, "Generated code contains 'while' loop which is not allowed");
    assert_eq!(status.atom_name(), "api_error");
}

#[test]
fn scenario_missing_credential_for_both() {
    let (s1, m1) = reply(get_vertex_code(None, "a simple triangle".to_string()));
    let (s2, m2) = reply(get_fragment_code(None, "void main() {}".to_string(), "red".to_string()));
    assert_eq!(s1, Status::InitializationError);
    assert_eq!(s2, Status::InitializationError);
    assert!(m1.contains("API_KEY"));
    assert_eq!(m1, MISSING_KEY);
    assert_eq!(m2, MISSING_KEY);
    assert_eq!(s1.atom_name(), "initialization_error");
}

#[test]
fn empty_credential_is_an_initialization_error() {
    let (s, m) = reply(get_vertex_code(Some(String::new()), "x".to_string()));
    assert_eq!(s, Status::InitializationError);
    assert_eq!(m, EMPTY_KEY);
    assert!(init_client(Some(String::new())).is_err());
}

#[test]
fn init_client_keeps_credential() {
    let c = init_client(key()).unwrap();
    assert_eq!(c.api_key, "SECRET-REDACTED");
    assert!(c.base_url.is_none());
    assert_eq!(init_client(None).unwrap_err(), "API_KEY not found: environment variable not found");
}

#[test]
fn no_choice_is_empty_response() {
    let empty = ChatCompletionResponse { choices: Vec::new() };
    let (status, payload) = finish(Ok(empty));
    assert_eq!(status, Status::ApiError);
    assert_eq!(payload, "Empty response from API");
    assert_eq!(payload, EMPTY_RESPONSE);
}

#[test]
fn while_inside_identifier_is_rejected() {
    let (status, payload) = finish(Ok(ChatCompletionResponse::single("float somewhile = 1.0;".to_string())));
    assert_eq!(status, Status::ApiError);
    assert_eq!(payload, WHILE_REJECTED);
}

#[test]
fn while_is_case_sensitive_and_for_is_accepted() {
    let code = "void main() { for (int i = 0; i < 2; i++) {} } // WHILE";
    let (status, payload) = finish(Ok(ChatCompletionResponse::single(code.to_string())));
    assert_eq!(status, Status::Success);
    assert_eq!(payload, code);
}

#[test]
fn only_first_choice_is_consulted() {
    let first = Choice { message: ChatCompletionMessage::user("void main() {}".to_string()) };
    let second = Choice { message: ChatCompletionMessage::user("while".to_string()) };
    let resp = ChatCompletionResponse { choices: vec![first, second] };
    assert_eq!(validate_response(Ok(resp)), Ok("void main() {}".to_string()));
}

#[test]
fn transport_failure_is_api_error() {
    let (status, payload) = finish(Err("connection refused".to_string()));
    assert_eq!(status, Status::ApiError);
    assert_eq!(payload, "API Error: connection refused");
}

#[test]
fn empty_generated_code_is_accepted() {
    let (status, payload) = finish(Ok(ChatCompletionResponse::single(String::new())));
    assert_eq!(status, Status::Success);
    assert_eq!(payload, "");
}

#[test]
fn fragment_request_quotes_vertex_code() {
    let vertex = "attribute vec2 position;\n void main() { gl_Position = vec4(position, 0.0, 1.0); }";
    let step = get_fragment_code(key(), vertex.to_string(), "waves".to_string());
    let prompt = sent_prompt(&step);
    assert!(prompt.contains(vertex));
    assert_eq!(prompt, format!("{}{}{}{}{}", FRAGMENT_HEAD, vertex, FRAGMENT_MID, "waves", FRAGMENT_TAIL));
    assert!(prompt.starts_with("Generate a simple WebGL fragment shader code in GLSL ES, that complements the following vertex shader: \n```glsl\nattribute vec2 position;"));
}

#[test]
fn vertex_prompt_exact_text() {
    let p = vertex_prompt("a spinning square");
    assert_eq!(p, format!("{}a spinning square{}", VERTEX_HEAD, VERTEX_TAIL));
    assert!(p.starts_with("Generate a simple WebGL vertex shader code, written in GLSL ES. The shader must have"));
    assert!(p.contains("just the raw shader code. Generate a vertex shader that does - a spinning square. Here is an example shader: ```glsl\nattribute vec2 position;\n void main() {\n gl_Position = vec4(position, 0.0, 1.0);\n}\n```Ensure no extra"));
    assert!(p.ends_with("shader code.\n        no 'here is your code' type of statements , just and just the code"));
}

#[test]
fn fragment_prompt_exact_text() {
    let p = fragment_prompt("V", "D");
    assert!(p.contains("vertex shader: \n```glsl\nV\n```\n. The fragment shader must use"));
    assert!(p.contains("Create a fragment shader that does - D. Here is an example shader: ```glsl\n uniform highp float u_time;"));
    assert!(p.ends_with("shader code.\n         no 'here is your code' type of statements , just and just the code"));
}

#[test]
fn internal_steps_use_given_client() {
    let client = GroqClientResource::new("SECRET-REDACTED".to_string(), None);
    let p = sent_prompt(&get_vertex_code_internal(client.clone(), "dots".to_string()));
    assert_eq!(p, vertex_prompt("dots"));
    let p = sent_prompt(&get_fragment_code_internal(client, "V".to_string(), "dots".to_string()));
    assert_eq!(p, fragment_prompt("V", "dots"));
}

#[test]
fn request_new_keeps_fields() {
    let r = ChatCompletionRequest::new(MODEL, vec![ChatCompletionMessage::user("hi".to_string())]);
    assert_eq!(r.model, "llama3-70b-8192");
    assert_eq!(r.messages[0].content, "hi");
}

#[test]
fn substring_search() {
    assert!(contains_str("somewhile", "while"));
    assert!(contains_str("while", "while"));
    assert!(!contains_str("whil", "while"));
    assert!(!contains_str("While", "while"));
    assert!(contains_str("abc", ""));
    assert!(contains_str("é while ü", "while"));
    assert_eq!(chars_of("aé"), vec!['a', 'é']);
}

#[test]
fn internal_steps_keep_endpoint_override() {
    let url = "http://localhost:8080/v1".to_string();
    let client = GroqClientResource::new("SECRET-REDACTED".to_string(), Some(url.clone()));
    for step in [
        get_vertex_code_internal(client.clone(), "dots".to_string()),
        get_fragment_code_internal(client, "V".to_string(), "dots".to_string()),
    ] {
        match step {
            Step::Send(c, request) => {
                assert_eq!(c.api_key, "SECRET-REDACTED");
                assert_eq!(c.base_url, Some(url.clone()));
                assert_eq!(request.model, "llama3-70b-8192");
                assert_eq!(request.messages.len(), 1);
            }
            Step::Reply(_, _) => panic!("expected a request"),
        }
    }
}
