//! Chat commands (`!ping`, `!status`, `!help`) and the replies they post.

use vstd::prelude::*;
use vstd::string::*;

use crate::discord::logic::response_for_key;
use crate::discord::send::{reply_request, reply_request_view};
use crate::http::HttpRequest;
use crate::text::{
    all_space, ascii_lower, is_ascii_text, decimal, lowercase, push_decimal, str_eq, to_lowercase, trim,
    trim_ignores_surrounding_space, trim_str,
};

verus! {

/// What a chat command does.
#[derive(PartialEq, Eq, Structural, Clone, Copy, Debug)]
pub enum CommandAction {
    /// Answer with a pong.
    Ping,
    /// Report the free heap.
    Status,
    /// List the commands.
    Help,
}

/// A chat command: the text that invokes it, its help line, its action.
#[derive(Debug)]
pub struct BotCommand {
    pub name: &'static str,
    pub description: &'static str,
    pub action: CommandAction,
}

/// A `BotCommand` with its strings taken as character sequences.
pub struct CommandView {
    pub name: Seq<char>,
    pub description: Seq<char>,
    pub action: CommandAction,
}

impl View for BotCommand {
    type V = CommandView;

    open spec fn view(&self) -> CommandView {
        CommandView { name: self.name@, description: self.description@, action: self.action }
    }
}

impl DeepView for BotCommand {
    type V = CommandView;

    open spec fn deep_view(&self) -> CommandView {
        self.view()
    }
}

/// The command table, in the order `!help` lists it.
pub open spec fn command_table() -> Seq<CommandView> {
    seq![
        CommandView {
            name: "!ping"@,
            description: "Responde con un Pong y verifica la conexión."@,
            action: CommandAction::Ping,
        },
        CommandView {
            name: "!status"@,
            description: "Muestra el estado de la memoria RAM del ESP32."@,
            action: CommandAction::Status,
        },
        CommandView {
            name: "!help"@,
            description: "Muestra esta lista de comandos."@,
            action: CommandAction::Help,
        },
    ]
}

/// The command table.
pub fn commands() -> (r: Vec<BotCommand>)
    ensures
        r.deep_view() == command_table(),
{
    let mut r: Vec<BotCommand> = Vec::new();
    r.push(
        BotCommand {
            name: "!ping",
            description: "Responde con un Pong y verifica la conexión.",
            action: CommandAction::Ping,
        },
    );
    r.push(
        BotCommand {
            name: "!status",
            description: "Muestra el estado de la memoria RAM del ESP32.",
            action: CommandAction::Status,
        },
    );
    r.push(
        BotCommand {
            name: "!help",
            description: "Muestra esta lista de comandos.",
            action: CommandAction::Help,
        },
    );
    assert(r.deep_view() =~= command_table());
    r
}

/// The action of the first command in `table` named exactly `name`.
pub open spec fn find_command(table: Seq<CommandView>, name: Seq<char>) -> Option<CommandAction>
    decreases table.len(),
{
    if table.len() == 0 {
        None
    } else if table[0].name == name {
        Some(table[0].action)
    } else {
        find_command(table.drop_first(), name)
    }
}

/// The help line of one command (`\n` is written as a JSON escape).
pub open spec fn help_line(c: CommandView) -> Seq<char> {
    "**"@ + c.name + "**: "@ + c.description + "\\n"@
}

/// The help lines of a table, in order.
pub open spec fn help_lines(table: Seq<CommandView>) -> Seq<char>
    decreases table.len(),
{
    if table.len() == 0 {
        seq![]
    } else {
        help_lines(table.drop_last()) + help_line(table.last())
    }
}

/// The text `!help` posts.
pub open spec fn help_text(table: Seq<CommandView>) -> Seq<char> {
    "--- 🤖 Comandos Disponibles ---\\n"@ + help_lines(table)
}

/// The JSON message object a command posts; `free_heap` is the free heap in
/// bytes at the time of the command.
pub open spec fn command_payload(action: CommandAction, free_heap: u32) -> Seq<char> {
    match action {
        CommandAction::Ping => "{\"content\":\"🏓 ¡Pong desde el ESP32!\"}"@,
        CommandAction::Status => "{\"content\":\"📊 RAM Libre: "@ + decimal(free_heap as nat)
            + " bytes\"}"@,
        CommandAction::Help => "{\"content\":\""@ + help_text(command_table()) + "\"}"@,
    }
}

/// The normalized form of a chat message: trimmed, then lower-cased.
pub open spec fn normalized(content: Seq<char>) -> Seq<char> {
    lowercase(trim(content))
}

/// The reply to a command name: the named command's payload, posted to
/// `channel_id` with `token`; nothing when no command has that name.
pub open spec fn reply_to_name(
    name: Seq<char>,
    token: Seq<char>,
    channel_id: Seq<char>,
    free_heap: u32,
) -> Option<crate::http::RequestView> {
    match find_command(command_table(), name) {
        Some(a) => Some(reply_request_view(token, channel_id, command_payload(a, free_heap))),
        None => None,
    }
}

/// The reply to a chat message: that to its normalized form.
pub open spec fn command_reply(
    content: Seq<char>,
    token: Seq<char>,
    channel_id: Seq<char>,
    free_heap: u32,
) -> Option<crate::http::RequestView> {
    reply_to_name(normalized(content), token, channel_id, free_heap)
}

/// Looks up the command named exactly `name`.
pub fn lookup_command(table: &Vec<BotCommand>, name: &str) -> (r: Option<CommandAction>)
    ensures
        r == find_command(table.deep_view(), name@),
{
    let ghost t = table.deep_view();
    let n = table.len();
    let mut i: usize = 0;
    assert(t.skip(0) =~= t);
    while i < n
        invariant
            n == table@.len(),
            t == table.deep_view(),
            t.len() == n,
            i <= n,
            find_command(t, name@) == find_command(t.skip(i as int), name@),
        decreases n - i,
    {
        assert(t.skip(i as int)[0] == table@[i as int].deep_view());
        if str_eq(table[i].name, name) {
            return Some(table[i].action);
        }
        assert(t.skip(i as int).drop_first() =~= t.skip(i + 1));
        i = i + 1;
    }
    assert(t.skip(n as int) =~= Seq::<CommandView>::empty());
    None
}

/// Builds the text `!help` posts from a command table.
pub fn help_message(table: &Vec<BotCommand>) -> (r: String)
    ensures
        r@ == help_text(table.deep_view()),
{
    let ghost t = table.deep_view();
    let mut s = String::from_str("--- 🤖 Comandos Disponibles ---\\n");
    let n = table.len();
    let mut i: usize = 0;
    assert(t.take(0) =~= Seq::<CommandView>::empty());
    while i < n
        invariant
            n == table@.len(),
            t == table.deep_view(),
            t.len() == n,
            i <= n,
            s@ == "--- 🤖 Comandos Disponibles ---\\n"@ + help_lines(t.take(i as int)),
        decreases n - i,
    {
        let c = &table[i];
        s.append("**");
        s.append(c.name);
        s.append("**: ");
        s.append(c.description);
        s.append("\\n");
        assert(t.take(i + 1).drop_last() =~= t.take(i as int));
        assert(t.take(i + 1).last() == c.deep_view());
        i = i + 1;
    }
    assert(t.take(n as int) =~= t);
    s
}

/// Builds the JSON message object a command posts.
pub fn command_payload_text(action: CommandAction, free_heap: u32) -> (r: String)
    ensures
        r@ == command_payload(action, free_heap),
{
    match action {
        CommandAction::Ping => String::from_str("{\"content\":\"🏓 ¡Pong desde el ESP32!\"}"),
        CommandAction::Status => {
            let mut s = String::from_str("{\"content\":\"📊 RAM Libre: ");
            push_decimal(&mut s, free_heap as u64);
            s.append(" bytes\"}");
            s
        },
        CommandAction::Help => {
            let table = commands();
            let h = help_message(&table);
            let mut s = String::from_str("{\"content\":\"");
            s.append(h.as_str());
            s.append("\"}");
            s
        },
    }
}

/// Answers an already normalized chat message (see `reply_to_name`).
pub fn reply_to_command(name: &str, token: &str, channel_id: &str, free_heap: u32) -> (r: Option<
    HttpRequest,
>)
    ensures
        r.deep_view() == reply_to_name(name@, token@, channel_id@, free_heap),
{
    let table = commands();
    match lookup_command(&table, name) {
        Some(action) => {
            let payload = command_payload_text(action, free_heap);
            Some(reply_request(token, channel_id, payload.as_str()))
        },
        None => None,
    }
}

/// Answers a chat message: when the trimmed, lower-cased message is the
/// name of a command, the request that posts that command's reply to
/// `channel_id`; otherwise nothing. `free_heap` is the free heap in bytes.
pub fn handle_command(content: &str, token: &str, channel_id: &str, free_heap: u32) -> (r: Option<
    HttpRequest,
>)
    ensures
        r.deep_view() == command_reply(content@, token@, channel_id@, free_heap),
        is_ascii_text(trim(content@)) ==> r.deep_view() == reply_to_name(
            ascii_lower(trim(content@)),
            token@,
            channel_id@,
            free_heap,
        ),
{
    let trimmed = trim_str(content);
    let content = to_lowercase(trimmed.as_str());
    reply_to_command(content.as_str(), token, channel_id, free_heap)
}

/// Exactly the three table names are commands: `!ping` pings, `!status`
/// reports the heap, `!help` lists the commands; any other text is none.
pub proof fn known_commands(name: Seq<char>)
    ensures
        find_command(command_table(), name) == (if name == "!ping"@ {
            Some(CommandAction::Ping)
        } else if name == "!status"@ {
            Some(CommandAction::Status)
        } else if name == "!help"@ {
            Some(CommandAction::Help)
        } else {
            None::<CommandAction>
        }),
{
    reveal_with_fuel(find_command, 4);
    reveal_strlit("!ping");
    reveal_strlit("!status");
    reveal_strlit("!help");
    let t = command_table();
    assert(t.drop_first().drop_first().drop_first() =~= Seq::<CommandView>::empty());
    assert(t.drop_first()[0] == t[1]);
    assert(t.drop_first().drop_first()[0] == t[2]);
}

/// `!ping` and `!status` post the same text that `/ping` and `/status`
/// answer with, wrapped in a message object.
pub proof fn chat_and_slash_answers_agree(free_heap: u32)
    ensures
        command_payload(CommandAction::Ping, free_heap) == "{\"content\":\""@ + response_for_key(
            "ping"@,
            free_heap,
        ) + "\"}"@,
        command_payload(CommandAction::Status, free_heap) == "{\"content\":\""@ + response_for_key(
            "status"@,
            free_heap,
        ) + "\"}"@,
{
    reveal_strlit("ping");
    reveal_strlit("status");
    reveal_strlit("{\"content\":\"");
    reveal_strlit("\"}");
    reveal_strlit("🏓 ¡Pong desde el ESP32!");
    reveal_strlit("{\"content\":\"🏓 ¡Pong desde el ESP32!\"}");
    reveal_strlit("{\"content\":\"📊 RAM Libre: ");
    reveal_strlit("📊 RAM Libre: ");
    reveal_strlit(" bytes\"}");
    reveal_strlit(" bytes");
    assert("status"@.len() != "ping"@.len());
    assert("{\"content\":\"🏓 ¡Pong desde el ESP32!\"}"@ =~= "{\"content\":\""@
        + "🏓 ¡Pong desde el ESP32!"@ + "\"}"@);
    let d = decimal(free_heap as nat);
    assert("{\"content\":\"📊 RAM Libre: "@ + d + " bytes\"}"@ =~= "{\"content\":\""@ + (
    "📊 RAM Libre: "@ + d + " bytes"@) + "\"}"@);
}

/// Whitespace around a chat message does not change the reply.
pub proof fn reply_ignores_surrounding_space(
    a: Seq<char>,
    content: Seq<char>,
    b: Seq<char>,
    token: Seq<char>,
    channel_id: Seq<char>,
    free_heap: u32,
)
    requires
        all_space(a),
        all_space(b),
    ensures
        command_reply(a + content + b, token, channel_id, free_heap) == command_reply(
            content,
            token,
            channel_id,
            free_heap,
        ),
{
    trim_ignores_surrounding_space(a, content, b);
}

/// The help text lists every command of the table, in table order.
pub proof fn help_lists_every_command()
    ensures
        help_text(command_table()) == "--- 🤖 Comandos Disponibles ---\\n"@ + help_line(
            command_table()[0],
        ) + help_line(command_table()[1]) + help_line(command_table()[2]),
{
    reveal_with_fuel(help_lines, 4);
    let t = command_table();
    assert(t.drop_last().drop_last().drop_last() =~= Seq::<CommandView>::empty());
    assert(t.drop_last().last() == t[1]);
    assert(t.drop_last().drop_last().last() == t[0]);
    assert(help_lines(t) =~= help_line(t[0]) + help_line(t[1]) + help_line(t[2]));
}

} // verus!
