//! Fetching the newest message of a channel.

use vstd::prelude::*;
use vstd::string::*;

use crate::discord::models::{DiscordMessage, MessageView};
use crate::http::{bot_authorization, header, join3, make_header, HttpMethod, HttpRequest, RequestView};

verus! {

/// The request that asks for the newest message of a channel.
pub open spec fn last_message_request_view(token: Seq<char>, channel_id: Seq<char>) -> RequestView {
    RequestView {
        method: HttpMethod::Get,
        url: "https://discord.com/api/v10/channels/"@ + channel_id + "/messages?limit=1"@,
        headers: seq![
            header("Authorization"@, bot_authorization(token)),
            header("User-Agent"@, "ESP32"@),
        ],
        body: seq![],
    }
}

/// Frames the request for the newest message of `channel_id`.
pub fn last_message_request(discord_token: &str, channel_id: &str) -> (r: HttpRequest)
    ensures
        r@ == last_message_request_view(discord_token@, channel_id@),
{
    let url = join3("https://discord.com/api/v10/channels/", channel_id, "/messages?limit=1");
    let mut headers: Vec<(String, String)> = Vec::new();
    headers.push(make_header("Authorization", join3("Bot ", discord_token, "")));
    headers.push(make_header("User-Agent", String::from_str("ESP32")));
    proof {
        reveal_strlit("");
    }
    let r = HttpRequest { method: HttpMethod::Get, url, headers, body: String::new() };
    assert(r@.headers =~= last_message_request_view(discord_token@, channel_id@).headers);
    assert(r@.body =~= seq![]);
    r
}

/// The message the fetch yields: the first one of a successfully decoded
/// `200 OK` answer, if it holds any.
pub open spec fn first_message_view(status: u16, decoded: Option<Seq<MessageView>>) -> Option<
    MessageView,
> {
    match decoded {
        Some(msgs) => if status == 200 && msgs.len() > 0 {
            Some(msgs[0])
        } else {
            None
        },
        None => None,
    }
}

/// A message is picked exactly when the answer is `200 OK`, decoded, and
/// not empty, and it is the first of the list.
pub proof fn first_message_is_first(status: u16, decoded: Option<Seq<MessageView>>)
    ensures
        (first_message_view(status, decoded) is Some) <==> (status == 200 && decoded is Some
            && decoded->0.len() > 0),
        first_message_view(status, decoded) is Some ==> first_message_view(status, decoded)->0
            == decoded->0[0],
{
}

/// Picks the newest message out of the answer to `last_message_request`:
/// `status` is the HTTP status, `decoded` the body decoded as a list of
/// messages (`None` when it did not decode).
pub fn first_message(status: u16, decoded: Option<Vec<DiscordMessage>>) -> (r: Option<
    DiscordMessage,
>)
    ensures
        r.deep_view() == first_message_view(status, decoded.deep_view()),
{
    if status != 200 {
        return None;
    }
    match decoded {
        Some(mut msgs) => {
            if msgs.len() == 0 {
                None
            } else {
                Some(msgs.remove(0))
            }
        },
        None => None,
    }
}

} // verus!
