use crate::errors::Error;
use crate::metadata::{opt_view, TwitchChannel};
use vstd::prelude::*;

verus! {

/// Client identifier that the channel lookup presents.
pub const CLIENT_ID: &'static str = "kimne78kx3ncx6brgo4mv6wki5h1ko";

/// Endpoint of the channel lookup.
pub const ROOT_URL: &'static str = "https://gql.twitch.tv/gql";

pub const QUERY_PREFIX: &'static str = "[{\"operationName\":\"ChannelShell\",\"variables\":{\"login\":\"";

pub const QUERY_SUFFIX: &'static str = "\"},\"extensions\":{\"persistedQuery\":{\"version\":1,\"sha256Hash\":\"580ab410bcd0c1ad194224957ae2241e5d252b2c5173d8e0cce9d32d5bb14efe\"}}}]";

/// Body of the lookup request for channel `login`.
pub fn channel_query(login: &str) -> (r: String)
    ensures
        r@ == QUERY_PREFIX@ + login@ + QUERY_SUFFIX@,
{
    let mut r = String::from_str(QUERY_PREFIX);
    r.append(login);
    r.append(QUERY_SUFFIX);
    r
}

/// The string at JSON pointer `pointer` in the JSON document `body`, as
/// serde_json reads it; `None` when the body is not JSON or the value there
/// is missing or not a string.
pub uninterp spec fn json_text_at(body: Seq<char>, pointer: Seq<char>) -> Option<Seq<char>>;

/// Relies on serde_json: `from_str::<Value>`, `Value::pointer` and
/// `Value::as_str`.
#[verifier::external_body]
fn text_at(body: &str, pointer: &str) -> (r: Option<String>)
    ensures
        opt_view(r) == json_text_at(body@, pointer@),
{
    let value: serde_json::Value = serde_json::from_str(body).ok()?;
    value.pointer(pointer)?.as_str().map(|s| s.to_string())
}

fn required(body: &str, pointer: &str) -> (r: Result<String, Error>)
    ensures
        match r {
            Ok(s) => json_text_at(body@, pointer@) == Some(s@),
            Err(e) => json_text_at(body@, pointer@) is None && e == Error::InternalRequestFailed,
        },
{
    match text_at(body, pointer) {
        Some(s) => Ok(s),
        None => Err(Error::InternalRequestFailed),
    }
}

pub const BANNER_AT: &'static str = "/0/data/userOrError/bannerImageURL";

pub const ID_AT: &'static str = "/0/data/userOrError/id";

pub const NAME_AT: &'static str = "/0/data/userOrError/displayName";

pub const COLOR_AT: &'static str = "/0/data/userOrError/primaryColorHex";

pub const AVATAR_AT: &'static str = "/0/data/userOrError/profileImageURL";

/// The channel that a lookup answer describes; `InternalRequestFailed`
/// unless all five of its fields are strings.
pub fn parse_channel(body: &str) -> (r: Result<TwitchChannel, Error>)
    ensures
        match r {
            Ok(c) => json_text_at(body@, BANNER_AT@) == Some(c.banner@)
                && json_text_at(body@, ID_AT@) == Some(c.id@)
                && json_text_at(body@, NAME_AT@) == Some(c.name@)
                && json_text_at(body@, COLOR_AT@) == Some(c.color@)
                && json_text_at(body@, AVATAR_AT@) == Some(c.avatar@),
            Err(e) => e == Error::InternalRequestFailed && (json_text_at(body@, BANNER_AT@) is None
                || json_text_at(body@, ID_AT@) is None || json_text_at(body@, NAME_AT@) is None
                || json_text_at(body@, COLOR_AT@) is None || json_text_at(body@, AVATAR_AT@) is None),
        },
{
    let banner = required(body, BANNER_AT)?;
    let id = required(body, ID_AT)?;
    let name = required(body, NAME_AT)?;
    let color = required(body, COLOR_AT)?;
    let avatar = required(body, AVATAR_AT)?;
    Ok(TwitchChannel { id, name, color, avatar, banner })
}

} // verus!
