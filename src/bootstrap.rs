use vstd::prelude::*;
use vstd::string::StringExecFns;
use crate::json::{JsonValue, field, str_field, get_field, get_str, text};
use crate::session::BridgeError;

verus! {

/// Where and as whom the bridge reaches the meeting platform.
#[derive(Debug, Clone)]
pub struct Config {
    pub nextcloud_url: String,
    pub username: String,
    pub password: String,
}

/// The signaling server to open and the single-use ticket to join with.
#[derive(Debug, Clone)]
pub struct SignalingEndpoint {
    pub url: String,
    pub ticket: String,
}

/// The `ocs.data.signaling` object of a room-info response.
pub open spec fn signaling_info(body: JsonValue) -> Option<JsonValue> {
    match field(body, "ocs"@) {
        Some(ocs) => match field(ocs, "data"@) {
            Some(data) => field(data, "signaling"@),
            None => None,
        },
        None => None,
    }
}

/// The path of the room-info endpoint, below the server's base URL.
pub open spec fn room_info_path_spec(room_token: Seq<char>) -> Seq<char> {
    "/ocs/v2.php/apps/spreed/api/v4/room/"@ + room_token
}

/// The path of the room-info endpoint for the room `room_token`.
pub fn room_info_path(room_token: &str) -> (r: String)
    ensures
        r@ == room_info_path_spec(room_token@),
{
    let mut p = text("/ocs/v2.php/apps/spreed/api/v4/room/");
    p.append(room_token);
    p
}

/// Reads the signaling server's URL and the join ticket out of a room-info
/// response. A response without them (the platform speaks its polling
/// signaling mode, which the bridge does not support) is a signaling error,
/// and no socket is to be opened.
pub fn signaling_endpoint(body: &JsonValue) -> (r: Result<SignalingEndpoint, BridgeError>)
    ensures
        match r {
            Ok(e) => signaling_info(*body) matches Some(s)
                && str_field(s, "url"@) == Some(e.url@)
                && str_field(s, "ticket"@) == Some(e.ticket@),
            Err(err) => err == BridgeError::Signaling && match signaling_info(*body) {
                Some(s) => str_field(s, "url"@) is None || str_field(s, "ticket"@) is None,
                None => true,
            },
        },
{
    let ocs = match get_field(body, "ocs") {
        Some(o) => o,
        None => return Err(BridgeError::Signaling),
    };
    let data = match get_field(ocs, "data") {
        Some(d) => d,
        None => return Err(BridgeError::Signaling),
    };
    let signaling = match get_field(data, "signaling") {
        Some(s) => s,
        None => return Err(BridgeError::Signaling),
    };
    let url = match get_str(signaling, "url") {
        Some(u) => u,
        None => return Err(BridgeError::Signaling),
    };
    let ticket = match get_str(signaling, "ticket") {
        Some(t) => t,
        None => return Err(BridgeError::Signaling),
    };
    Ok(SignalingEndpoint { url, ticket })
}

/// Checks the voice channel to bridge: a zero guild or channel identifier is
/// a configuration error, found before any network activity.
pub fn check_voice_target(guild_id: u64, channel_id: u64) -> (r: Result<(), BridgeError>)
    ensures
        r is Ok <==> (guild_id != 0 && channel_id != 0),
        r is Err ==> r == Err::<(), BridgeError>(BridgeError::Configuration),
{
    if guild_id == 0 || channel_id == 0 {
        Err(BridgeError::Configuration)
    } else {
        Ok(())
    }
}

} // verus!

verus! {

/// Whether `url::Url::join` resolves `input` against the absolute URL
/// `base` (false too when `base` is not one).
pub uninterp spec fn url_joins(base: Seq<char>, input: Seq<char>) -> bool;

/// The serialization of the URL that `url::Url::join` resolves `input` to
/// against the absolute URL `base`.
pub uninterp spec fn url_joined(base: Seq<char>, input: Seq<char>) -> Seq<char>;

/// Relies on url::Url::parse and url::Url::join: `base` is read as an
/// absolute URL and `input` resolved against it; the outcome depends on the
/// two strings alone. Url::as_str gives the result's serialization.
#[verifier::external_body]
fn join_url(base: &str, input: &str) -> (r: Option<String>)
    ensures
        match r {
            Some(u) => url_joins(base@, input@) && u@ == url_joined(base@, input@),
            None => !url_joins(base@, input@),
        },
{
    url::Url::parse(base).and_then(|b| b.join(input)).ok().map(|u| u.as_str().to_string())
}

/// The room-info URL of room `room_token` on the server at `base_url`: the
/// base joined with the room-info path. A base that is not an absolute URL,
/// or a path that does not resolve against it, is a configuration error.
pub fn room_info_url(base_url: &str, room_token: &str) -> (r: Result<String, BridgeError>)
    ensures
        match r {
            Ok(u) => url_joins(base_url@, room_info_path_spec(room_token@))
                && u@ == url_joined(base_url@, room_info_path_spec(room_token@)),
            Err(e) => e == BridgeError::Configuration
                && !url_joins(base_url@, room_info_path_spec(room_token@)),
        },
{
    let path = room_info_path(room_token);
    match join_url(base_url, path.as_str()) {
        Some(u) => Ok(u),
        None => Err(BridgeError::Configuration),
    }
}

} // verus!
