use vstd::prelude::*;
use vstd::string::StringExecFns;

use crate::description::{description_of, format_description};

verus! {

/// Path of the alias-creation endpoint below the provider's base URL.
pub open spec fn endpoint_of(base_url: Seq<char>) -> Seq<char> {
    base_url + "/api/v1/aliases"@
}

/// Value of the `Authorization` header for a bearer token.
pub open spec fn bearer_of(token: Seq<char>) -> Seq<char> {
    "Bearer "@ + token
}

/// The headers of an alias-creation request, in the order they are sent, as
/// (name, value, sensitive) triples.
pub open spec fn headers_for(token: Seq<char>) -> Seq<(Seq<char>, Seq<char>, bool)> {
    seq![
        ("Content-Type"@, "application/json"@, false),
        ("Authorization"@, bearer_of(token), true),
        ("X-Requested-With"@, "XMLHttpRequest"@, false),
    ]
}

/// The JSON body of an alias-creation request: `{"domain": .., "description": ..}`.
pub struct AliasRequest {
    pub domain: String,
    pub description: String,
}

impl AliasRequest {
    /// A request for an alias on `domain`, described from the website hint.
    pub fn new(domain: String, website: &Option<String>) -> (r: AliasRequest)
        ensures
            r.domain@ == domain@,
            r.description@ == description_of(website.deep_view()),
    {
        AliasRequest { domain, description: format_description(website) }
    }
}

/// One request header. A sensitive header holds a credential and is kept
/// out of debug output by the transport.
pub struct Header {
    pub name: String,
    pub value: String,
    pub sensitive: bool,
}

impl View for Header {
    type V = (Seq<char>, Seq<char>, bool);

    open spec fn view(&self) -> (Seq<char>, Seq<char>, bool) {
        (self.name@, self.value@, self.sensitive)
    }
}

/// The (name, value, sensitive) triples of a header list.
pub open spec fn header_views(headers: Seq<Header>) -> Seq<(Seq<char>, Seq<char>, bool)> {
    headers.map_values(|h: Header| h@)
}

fn header(name: &str, value: String, sensitive: bool) -> (r: Header)
    ensures
        r@ == (name@, value@, sensitive),
{
    Header { name: String::from_str(name), value, sensitive }
}

/// Everything the transport needs to send one alias-creation request: a POST
/// to `url` carrying `headers` and `body` encoded as JSON.
pub struct OutboundRequest {
    pub url: String,
    pub headers: Vec<Header>,
    pub body: AliasRequest,
}

/// The URL that alias-creation requests are posted to.
pub fn alias_endpoint(base_url: &str) -> (r: String)
    ensures
        r@ == endpoint_of(base_url@),
{
    let mut url = String::from_str(base_url);
    url.append("/api/v1/aliases");
    url
}

/// The `Authorization` header value for a bearer token.
pub fn bearer_value(token: &str) -> (r: String)
    ensures
        r@ == bearer_of(token@),
{
    let mut value = String::from_str("Bearer ");
    value.append(token);
    value
}

/// Builds the request that asks the provider for a new alias on `domain`.
pub fn build_request(
    api_token: String,
    domain: String,
    base_url: String,
    website: Option<String>,
) -> (r: OutboundRequest)
    ensures
        r.url@ == endpoint_of(base_url@),
        header_views(r.headers@) == headers_for(api_token@),
        r.body.domain@ == domain@,
        r.body.description@ == description_of(website.deep_view()),
{
    let mut headers: Vec<Header> = Vec::new();
    headers.push(header("Content-Type", String::from_str("application/json"), false));
    headers.push(header("Authorization", bearer_value(api_token.as_str()), true));
    headers.push(header("X-Requested-With", String::from_str("XMLHttpRequest"), false));
    proof {
        assert(header_views(headers@) =~= headers_for(api_token@));
    }
    OutboundRequest {
        url: alias_endpoint(base_url.as_str()),
        headers,
        body: AliasRequest::new(domain, &website),
    }
}

} // verus!
