use vstd::prelude::*;
use crate::model::{ChatCompletionResponse, MISSING_KEY};
use crate::prompt::{FRAGMENT_HEAD, fragment_prompt_of, vertex_prompt_of};
use crate::service::{
    EMPTY_RESPONSE, FORBIDDEN, Status, WHILE_REJECTED, first_content, plan_of, reply_of,
};
use crate::text::{contains, occurs_at};

verus! {

/// Whatever the remote call gave, a successful reply never holds the
/// forbidden word; every other reply is an error.
pub proof fn lemma_success_is_free_of_while(outcome: Result<ChatCompletionResponse, String>)
    ensures
        reply_of(outcome).0 == Status::Success ==> !contains(reply_of(outcome).1, FORBIDDEN@),
        reply_of(outcome).0 == Status::Success || reply_of(outcome).0 == Status::ApiError,
{
}

/// Without a credential both operations reply with the initialization
/// error and send nothing.
pub proof fn lemma_missing_credential_sends_nothing(vertex_code: Seq<char>, description: Seq<char>)
    ensures
        plan_of(None, vertex_prompt_of(description)) == Err::<
            (Seq<char>, Seq<char>),
            (Status, Seq<char>),
        >((Status::InitializationError, MISSING_KEY@)),
        plan_of(None, fragment_prompt_of(vertex_code, description)) == Err::<
            (Seq<char>, Seq<char>),
            (Status, Seq<char>),
        >((Status::InitializationError, MISSING_KEY@)),
{
}

/// A response with no choice gives the empty-response API error.
pub proof fn lemma_no_choice_is_empty_response(resp: ChatCompletionResponse)
    requires
        resp.choices@.len() == 0,
    ensures
        reply_of(Ok(resp)) == (Status::ApiError, EMPTY_RESPONSE@),
{
}

/// A first choice that holds the forbidden word anywhere, also inside a
/// longer identifier, gives an API error.
pub proof fn lemma_forbidden_word_is_rejected(resp: ChatCompletionResponse, i: int)
    requires
        resp.choices@.len() > 0,
        occurs_at(first_content(resp), FORBIDDEN@, i),
    ensures
        reply_of(Ok(resp)) == (Status::ApiError, WHILE_REJECTED@),
{
}

/// The fragment-shader request quotes the vertex shader verbatim, so
/// whenever a request is sent its text holds the vertex shader.
pub proof fn lemma_fragment_prompt_quotes_vertex_code(
    api_key: Option<String>,
    vertex_code: Seq<char>,
    description: Seq<char>,
)
    ensures
        plan_of(api_key, fragment_prompt_of(vertex_code, description)) matches Ok((_, p))
            ==> contains(p, vertex_code),
        occurs_at(fragment_prompt_of(vertex_code, description), vertex_code, FRAGMENT_HEAD@.len() as int),
        contains(fragment_prompt_of(vertex_code, description), vertex_code),
{
    let p = fragment_prompt_of(vertex_code, description);
    let h = FRAGMENT_HEAD@.len() as int;
    assert(p.subrange(h, h + vertex_code.len()) =~= vertex_code);
    assert(occurs_at(p, vertex_code, h));
}

} // verus!
