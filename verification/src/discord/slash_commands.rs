//! Slash commands: registering them with Discord and answering them.

use vstd::prelude::*;
use vstd::string::*;

use crate::discord::logic::{get_response_for, response_for, response_for_key, strip_bang};
use crate::text::{ascii_lower, is_ascii_text, trim};
use crate::http::{
    bot_authorization, content_length, header, join3, length_of, make_header, HttpMethod,
    HttpRequest, RequestView,
};
use crate::json::{escape_chars, escape_round_trips, json_quoted, quote, unescape};

verus! {

/// The slash-command definitions, as `serde_json` writes them (keys in
/// sorted order): `/ping` and `/status`, for guilds and user installs, in
/// every context.
pub open spec fn slash_commands_json() -> Seq<char> {
    "[{\"contexts\":[0,1,2],\"description\":\"Verifica si el ESP32 esta vivo\",\"integration_types\":[0,1],\"name\":\"ping\",\"type\":1},{\"contexts\":[0,1,2],\"description\":\"Muestra la RAM libre del ESP32\",\"integration_types\":[0,1],\"name\":\"status\",\"type\":1}]"@
}

/// The request that (re)registers the slash commands of an application.
pub open spec fn registration_view(token: Seq<char>, app_id: Seq<char>) -> RequestView {
    RequestView {
        method: HttpMethod::Put,
        url: "https://discord.com/api/v10/applications/"@ + app_id + "/commands"@,
        headers: seq![
            header("Authorization"@, bot_authorization(token)),
            header("Content-Type"@, "application/json"@),
            header("Content-Length"@, content_length(slash_commands_json())),
            header("User-Agent"@, "ESP32-Rust"@),
            header("Connection"@, "close"@),
        ],
        body: slash_commands_json(),
    }
}

/// Frames the request that registers `/ping` and `/status` for `app_id`.
pub fn register_slash_commands(discord_token: &str, app_id: &str) -> (r: HttpRequest)
    ensures
        r@ == registration_view(discord_token@, app_id@),
{
    let payload = String::from_str(
        "[{\"contexts\":[0,1,2],\"description\":\"Verifica si el ESP32 esta vivo\",\"integration_types\":[0,1],\"name\":\"ping\",\"type\":1},{\"contexts\":[0,1,2],\"description\":\"Muestra la RAM libre del ESP32\",\"integration_types\":[0,1],\"name\":\"status\",\"type\":1}]",
    );
    let url = join3("https://discord.com/api/v10/applications/", app_id, "/commands");
    let mut headers: Vec<(String, String)> = Vec::new();
    headers.push(make_header("Authorization", join3("Bot ", discord_token, "")));
    headers.push(make_header("Content-Type", String::from_str("application/json")));
    headers.push(make_header("Content-Length", length_of(payload.as_str())));
    headers.push(make_header("User-Agent", String::from_str("ESP32-Rust")));
    headers.push(make_header("Connection", String::from_str("close")));
    proof {
        reveal_strlit("");
    }
    let r = HttpRequest { method: HttpMethod::Put, url, headers, body: payload };
    assert(r@.headers =~= registration_view(discord_token@, app_id@).headers);
    r
}

/// The interaction response that posts a channel message (`type` 4) whose
/// content is the JSON string literal `quoted`, as `serde_json` writes the
/// object.
pub open spec fn interaction_payload_quoted(quoted: Seq<char>) -> Seq<char> {
    "{\"data\":{\"content\":"@ + quoted + "},\"type\":4}"@
}

/// The interaction response that posts `content` as a channel message.
pub open spec fn interaction_payload(content: Seq<char>) -> Seq<char> {
    interaction_payload_quoted(json_quoted(content))
}

/// The request that answers an interaction with the JSON string literal
/// `quoted`.
pub open spec fn interaction_reply_view_quoted(
    interaction_id: Seq<char>,
    interaction_token: Seq<char>,
    quoted: Seq<char>,
) -> RequestView {
    RequestView {
        method: HttpMethod::Post,
        url: "https://discord.com/api/v10/interactions/"@ + interaction_id + "/"@
            + interaction_token + "/callback"@,
        headers: seq![
            header("Content-Type"@, "application/json"@),
            header("Content-Length"@, content_length(interaction_payload_quoted(quoted))),
            header("Connection"@, "close"@),
        ],
        body: interaction_payload_quoted(quoted),
    }
}

/// The request that answers an interaction with `content`.
pub open spec fn interaction_reply_view(
    interaction_id: Seq<char>,
    interaction_token: Seq<char>,
    content: Seq<char>,
) -> RequestView {
    interaction_reply_view_quoted(interaction_id, interaction_token, json_quoted(content))
}

/// Frames the request that answers an interaction with `content`; its
/// JSON string literal is written by `serde_json`.
pub fn send_interaction_reply(interaction_id: &str, interaction_token: &str, content: &str) -> (r:
    HttpRequest)
    ensures
        r@ == interaction_reply_view(interaction_id@, interaction_token@, content@),
{
    let quoted = quote(content);
    interaction_reply_with(interaction_id, interaction_token, quoted.as_str())
}

/// Frames the request that answers an interaction whose content is given
/// as the JSON string literal `quoted`.
pub fn interaction_reply_with(interaction_id: &str, interaction_token: &str, quoted: &str) -> (r:
    HttpRequest)
    ensures
        r@ == interaction_reply_view_quoted(interaction_id@, interaction_token@, quoted@),
{
    let payload = join3("{\"data\":{\"content\":", quoted, "},\"type\":4}");
    let mut url = join3("https://discord.com/api/v10/interactions/", interaction_id, "/");
    url.append(interaction_token);
    url.append("/callback");
    let mut headers: Vec<(String, String)> = Vec::new();
    headers.push(make_header("Content-Type", String::from_str("application/json")));
    headers.push(make_header("Content-Length", length_of(payload.as_str())));
    headers.push(make_header("Connection", String::from_str("close")));
    let r = HttpRequest { method: HttpMethod::Post, url, headers, body: payload };
    assert(r@.headers =~= interaction_reply_view_quoted(interaction_id@, interaction_token@, quoted@).headers);
    assert(r@.url =~= interaction_reply_view_quoted(interaction_id@, interaction_token@, quoted@).url);
    r
}

/// Answers a slash command: the request that posts `response_for` the
/// command name back to the interaction. `free_heap` is the free heap in
/// bytes.
pub fn handle_interaction(
    command_name: &str,
    interaction_id: &str,
    interaction_token: &str,
    free_heap: u32,
) -> (r: HttpRequest)
    ensures
        r@ == interaction_reply_view(
            interaction_id@,
            interaction_token@,
            response_for(command_name@, free_heap),
        ),
        is_ascii_text(trim(strip_bang(command_name@))) ==> r@ == interaction_reply_view(
            interaction_id@,
            interaction_token@,
            response_for_key(ascii_lower(trim(strip_bang(command_name@))), free_heap),
        ),
{
    let response_text = get_response_for(command_name, free_heap);
    send_interaction_reply(interaction_id, interaction_token, response_text.as_str())
}

/// The content of an interaction reply is carried as one JSON string
/// literal (its escaped form between quotes) that reads back as exactly the
/// content; the `Content-Length` header counts the body's UTF-8 bytes.
pub proof fn interaction_content_round_trips(
    interaction_id: Seq<char>,
    interaction_token: Seq<char>,
    content: Seq<char>,
)
    ensures
        interaction_reply_view(interaction_id, interaction_token, content).body
            == "{\"data\":{\"content\":\""@ + escape_chars(content) + "\"},\"type\":4}"@,
        unescape(escape_chars(content)) == Some(content),
        interaction_reply_view(interaction_id, interaction_token, content).headers[1] == header(
            "Content-Length"@,
            content_length(interaction_reply_view(interaction_id, interaction_token, content).body),
        ),
{
    reveal_strlit("{\"data\":{\"content\":");
    reveal_strlit("{\"data\":{\"content\":\"");
    reveal_strlit("},\"type\":4}");
    reveal_strlit("\"},\"type\":4}");
    let e = escape_chars(content);
    assert("{\"data\":{\"content\":"@ + (seq!['"'] + e + seq!['"']) + "},\"type\":4}"@
        =~= "{\"data\":{\"content\":\""@ + e + "\"},\"type\":4}"@);
    escape_round_trips(content);
}

} // verus!
