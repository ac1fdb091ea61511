//! What goes to the posting endpoint for one item, and how its answer is
//! read.

use crate::feed::{FeedItem, FeedItemView};
use vstd::prelude::*;
use vstd::string::StringExecFns;

verus! {

/// The HTTP status that counts as a successful post.
pub const STATUS_OK: u16 = 200;

/// How one attempt to publish an item ended.
#[derive(Clone, Copy, Debug, PartialEq, Eq, Structural)]
pub enum PublishResult {
    /// The endpoint answered with status 200.
    Success,
    /// The endpoint answered with another status.
    Failure,
}

/// One request to the posting endpoint.
#[derive(Debug, PartialEq, Eq)]
pub struct Post {
    /// Where the request goes.
    pub uri: String,
    /// The value of the `AUTHORIZATION` header.
    pub authorization: String,
    /// The form body.
    pub body: String,
}

/// A request as plain values.
pub struct PostView {
    pub uri: Seq<char>,
    pub authorization: Seq<char>,
    pub body: Seq<char>,
}

impl View for Post {
    type V = PostView;

    open spec fn view(&self) -> PostView {
        PostView { uri: self.uri@, authorization: self.authorization@, body: self.body@ }
    }
}

/// Exactly status 200 is a success; every other status is a failure.
pub open spec fn result_of(status: u16) -> PublishResult {
    if status == STATUS_OK {
        PublishResult::Success
    } else {
        PublishResult::Failure
    }
}

/// The text of the post for an item: title and colon, description, link,
/// and the publication time in brackets, each on a line of its own.
pub open spec fn status_text_of(item: FeedItemView) -> Seq<char> {
    item.title + ":\n"@ + item.description + "\n"@ + item.link + "\n("@ + item.published + ")"@
}

/// The form body that carries a post text.
pub open spec fn form_body_of(text: Seq<char>) -> Seq<char> {
    "status="@ + text + "&visibility=public"@
}

/// The address of the posting endpoint under a base address.
pub open spec fn endpoint_of(base_uri: Seq<char>) -> Seq<char> {
    base_uri + "/api/v1/statuses"@
}

/// The header value that presents an access token.
pub open spec fn bearer_of(token: Seq<char>) -> Seq<char> {
    "Bearer "@ + token
}

/// The request that publishes an item.
pub open spec fn post_of(base_uri: Seq<char>, token: Seq<char>, item: FeedItemView) -> PostView {
    PostView {
        uri: endpoint_of(base_uri),
        authorization: bearer_of(token),
        body: form_body_of(status_text_of(item)),
    }
}

/// Reads the answer of the endpoint.
pub fn classify(status: u16) -> (r: PublishResult)
    ensures
        r == result_of(status),
        r == PublishResult::Success <==> status == 200,
{
    if status == STATUS_OK {
        PublishResult::Success
    } else {
        PublishResult::Failure
    }
}

/// The text of the post for an item.
pub fn status_text(item: &FeedItem) -> (r: String)
    ensures
        r@ == status_text_of(item@),
{
    let mut text = item.title.clone();
    text.append(":\n");
    text.append(item.description.as_str());
    text.append("\n");
    text.append(item.link.as_str());
    text.append("\n(");
    text.append(item.published.as_str());
    text.append(")");
    text
}

/// The form body that carries a post text.
pub fn form_body(text: &str) -> (r: String)
    ensures
        r@ == form_body_of(text@),
{
    let mut body = String::from_str("status=");
    body.append(text);
    body.append("&visibility=public");
    body
}

/// The address of the posting endpoint under a base address.
pub fn endpoint(base_uri: &str) -> (r: String)
    ensures
        r@ == endpoint_of(base_uri@),
{
    let mut uri = String::from_str(base_uri);
    uri.append("/api/v1/statuses");
    uri
}

/// The header value that presents an access token.
pub fn bearer(token: &str) -> (r: String)
    ensures
        r@ == bearer_of(token@),
{
    let mut value = String::from_str("Bearer ");
    value.append(token);
    value
}

/// The request that publishes an item.
pub fn post_for(base_uri: &str, token: &str, item: &FeedItem) -> (r: Post)
    ensures
        r@ == post_of(base_uri@, token@, item@),
{
    let text = status_text(item);
    Post { uri: endpoint(base_uri), authorization: bearer(token), body: form_body(text.as_str()) }
}

} // verus!
