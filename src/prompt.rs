use vstd::prelude::*;

verus! {

/// Text of the vertex-shader request that comes before the description.
pub const VERTEX_HEAD: &'static str = "Generate a simple WebGL vertex shader code, written in GLSL ES. \
    The shader must have an input attribute named `position` of type `vec2`. The shader should also have a `main` function which sets the `gl_Position` correctly, this can be set directly as `gl_Position = vec4(position, 0.0, 1.0);`. Use `attribute` storage qualifier for the `position` input attribute. Do not use any variable names starting with `gl_`. Do not use any for loops or while loops in the generated code. Do not give extra comments or any ``` delimiters, just the raw shader code. \
    Generate a vertex shader that does - ";

/// Text of the vertex-shader request that follows the description.
pub const VERTEX_TAIL: &'static str = ". Here is an example shader: \
    ```glsl\nattribute vec2 position;\n void main() {\n gl_Position = vec4(position, 0.0, 1.0);\n}\n```\
    Ensure no extra punctuations, and no extra messages other than the shader code.\n        \
    no 'here is your code' type of statements , just and just the code";

/// Text of the fragment-shader request that comes before the vertex shader.
pub const FRAGMENT_HEAD: &'static str = "Generate a simple WebGL fragment shader code in GLSL ES, that complements the following vertex shader: \n\
    ```glsl\n";

/// Text of the fragment-shader request between the vertex shader and the
/// description.
pub const FRAGMENT_MID: &'static str = "\n```\n. \
    The fragment shader must use a uniform `u_time` of type `float` and `u_resolution` of type `vec2`. The fragment shader should also have a main function that sets `gl_FragColor` correctly, use `gl_FragColor = vec4(1.0, 0.0, 0.0, 1.0);` as a basic example. Do not use any variable names starting with `gl_` use `gl_FragColor` as the fragment color output. Use the storage qualifier `uniform` for `u_time` and `u_resolution`, and also add the `highp` precision qualifier to `float` types and `vec2` types. Do not use any for loops or while loops in the generated code. Do not give extra comments or any ``` delimiters, just the raw shader code. \
    Create a fragment shader that does - ";

/// Text of the fragment-shader request that follows the description.
pub const FRAGMENT_TAIL: &'static str = ". Here is an example shader: \
    ```glsl\n uniform highp float u_time;\n uniform highp vec2 u_resolution; void main() {\n  gl_FragColor = vec4(1.0, 0.0, 0.0, 1.0);\n}\n```\
    Ensure no extra punctuations, and no extra messages other than the shader code.\n         \
    no 'here is your code' type of statements , just and just the code";

/// The request text asking for a vertex shader that does `description`.
pub open spec fn vertex_prompt_of(description: Seq<char>) -> Seq<char> {
    VERTEX_HEAD@ + description + VERTEX_TAIL@
}

/// The request text asking for a fragment shader that does `description`
/// and complements `vertex_code`, which it quotes verbatim.
pub open spec fn fragment_prompt_of(vertex_code: Seq<char>, description: Seq<char>) -> Seq<char> {
    FRAGMENT_HEAD@ + vertex_code + FRAGMENT_MID@ + description + FRAGMENT_TAIL@
}

pub fn vertex_prompt(description: &str) -> (r: String)
    ensures
        r@ == vertex_prompt_of(description@),
{
    let mut r = String::from_str(VERTEX_HEAD);
    r.append(description);
    r.append(VERTEX_TAIL);
    r
}

pub fn fragment_prompt(vertex_code: &str, description: &str) -> (r: String)
    ensures
        r@ == fragment_prompt_of(vertex_code@, description@),
{
    let mut r = String::from_str(FRAGMENT_HEAD);
    r.append(vertex_code);
    r.append(FRAGMENT_MID);
    r.append(description);
    r.append(FRAGMENT_TAIL);
    r
}

} // verus!
