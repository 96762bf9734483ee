//! Posting a message to a channel.

use vstd::prelude::*;
use vstd::string::*;

use crate::http::{bot_authorization, header, join3, make_header, HttpMethod, HttpRequest, RequestView};

verus! {

/// The request that posts `payload` (a JSON message object) to a channel.
pub open spec fn reply_request_view(token: Seq<char>, channel_id: Seq<char>, payload: Seq<char>) -> RequestView {
    RequestView {
        method: HttpMethod::Post,
        url: "https://discord.com/api/v10/channels/"@ + channel_id + "/messages"@,
        headers: seq![
            header("Authorization"@, bot_authorization(token)),
            header("Content-Type"@, "application/json"@),
            header("Connection"@, "close"@),
        ],
        body: payload,
    }
}

/// Frames the request that posts `payload` to `channel_id` as the bot.
pub fn reply_request(discord_token: &str, channel_id: &str, payload: &str) -> (r: HttpRequest)
    ensures
        r@ == reply_request_view(discord_token@, channel_id@, payload@),
{
    let url = join3("https://discord.com/api/v10/channels/", channel_id, "/messages");
    let mut headers: Vec<(String, String)> = Vec::new();
    headers.push(make_header("Authorization", join3("Bot ", discord_token, "")));
    headers.push(make_header("Content-Type", String::from_str("application/json")));
    headers.push(make_header("Connection", String::from_str("close")));
    proof {
        reveal_strlit("");
    }
    let r = HttpRequest { method: HttpMethod::Post, url, headers, body: String::from_str(payload) };
    assert(r@.headers =~= reply_request_view(discord_token@, channel_id@, payload@).headers);
    r
}

} // verus!
