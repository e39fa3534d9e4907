use vstd::prelude::*;

verus! {

/// The header that carries the queue's message identifier on each POST.
pub const MESSAGE_ID_HEADER: &'static str = "X-SQSPROXYD-MESSAGE-ID";

/// The User-Agent of every request to the endpoint, for a program `version`.
pub fn user_agent(version: &str) -> (r: String)
    ensures
        r@ == "sqsdproxy/"@ + version@,
{
    let mut r = String::from_str("sqsdproxy/");
    r.append(version);
    r
}

/// The headers of the POST of one message, as (name, value) pairs: the
/// User-Agent, the configured Content-Type, and the message identifier.
pub fn post_headers(version: &str, content_type: &str, message_id: &str) -> (r: Vec<(String, String)>)
    ensures
        r@.len() == 3,
        r@[0].0@ == "User-Agent"@,
        r@[0].1@ == "sqsdproxy/"@ + version@,
        r@[1].0@ == "Content-Type"@,
        r@[1].1@ == content_type@,
        r@[2].0@ == MESSAGE_ID_HEADER@,
        r@[2].1@ == message_id@,
{
    let mut r: Vec<(String, String)> = Vec::new();
    r.push((String::from_str("User-Agent"), user_agent(version)));
    r.push((String::from_str("Content-Type"), String::from_str(content_type)));
    r.push((String::from_str(MESSAGE_ID_HEADER), String::from_str(message_id)));
    r
}

} // verus!
