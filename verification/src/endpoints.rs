use vstd::prelude::*;

verus! {

/// Relies on String::push_str: appends the text to the string.
#[verifier::external_body]
fn append_str(s: &mut String, t: &str)
    ensures
        final(s)@ == old(s)@ + t@,
{
    s.push_str(t);
}

/// `base` followed by `path`: the URL of one endpoint.
pub fn request_url(base: &str, path: &str) -> (r: String)
    ensures
        r@ == base@ + path@,
{
    let mut s = base.to_owned();
    append_str(&mut s, path);
    s
}

/// The URL for listing the locally available models.
pub fn tags_url(base: &str) -> (r: String)
    ensures
        r@ == base@ + "/api/tags"@,
{
    request_url(base, "/api/tags")
}

/// The URL for showing one model's information.
pub fn show_url(base: &str) -> (r: String)
    ensures
        r@ == base@ + "/api/show"@,
{
    request_url(base, "/api/show")
}

/// The URL for pulling a model from the registry.
pub fn pull_url(base: &str) -> (r: String)
    ensures
        r@ == base@ + "/api/pull"@,
{
    request_url(base, "/api/pull")
}

/// The URL for generating a completion.
pub fn generate_url(base: &str) -> (r: String)
    ensures
        r@ == base@ + "/api/generate"@,
{
    request_url(base, "/api/generate")
}

/// The URL for chatting with a model.
pub fn chat_url(base: &str) -> (r: String)
    ensures
        r@ == base@ + "/api/chat"@,
{
    request_url(base, "/api/chat")
}

/// The URL for creating a model.
pub fn create_url(base: &str) -> (r: String)
    ensures
        r@ == base@ + "/api/create"@,
{
    request_url(base, "/api/create")
}

/// The URL for pushing a model to the registry.
pub fn push_url(base: &str) -> (r: String)
    ensures
        r@ == base@ + "/api/push"@,
{
    request_url(base, "/api/push")
}

/// The URL for deleting a model.
pub fn delete_url(base: &str) -> (r: String)
    ensures
        r@ == base@ + "/api/delete"@,
{
    request_url(base, "/api/delete")
}

/// The URL for generating embeddings.
pub fn embed_url(base: &str) -> (r: String)
    ensures
        r@ == base@ + "/api/embed"@,
{
    request_url(base, "/api/embed")
}

/// The URL for listing the running models.
pub fn ps_url(base: &str) -> (r: String)
    ensures
        r@ == base@ + "/api/ps"@,
{
    request_url(base, "/api/ps")
}

/// The URL for the server's version.
pub fn version_url(base: &str) -> (r: String)
    ensures
        r@ == base@ + "/api/version"@,
{
    request_url(base, "/api/version")
}

/// Whether an HTTP status is a success: the decision between decoding
/// the body and reporting an `ApiError` built from the status and
/// whatever body text could be recovered.
pub fn is_success_status(status: u16) -> (r: bool)
    ensures
        r == (200 <= status < 300),
{
    status >= 200 && status < 300
}

} // verus!
