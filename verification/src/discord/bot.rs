//! The Discord gateway side of the bot: reassembling text frames into JSON
//! documents, classifying gateway events, and choosing what the bot loop
//! does next.

use vstd::prelude::*;
use vstd::string::*;
use vstd::utf8::encode_utf8;

use crate::json::{
    escape_chars, escape_round_trips, unescape,
    bool_at, json_bool_at, json_quoted, json_str_at, json_u64_at, json_valid, parses_as_json, quote,
    str_at, u64_at,
};
use crate::text::str_eq;

verus! {

/// Bytes the frame buffer may hold before an unparsable prefix is dropped.
pub const MAX_BUFFERED_BYTES: usize = 32768;

/// Seconds between DNS checks while the bot waits for Internet access.
pub const DNS_RETRY_SECS: u64 = 3;

/// Seconds without a gateway event after which a heartbeat is sent.
pub const QUIET_PERIOD_SECS: u64 = 30;

/// Gateway opcode of a dispatched event.
pub const OP_DISPATCH: u64 = 0;

/// Gateway opcode of the `Hello` greeting.
pub const OP_HELLO: u64 = 10;

/// Interaction type of an application (slash) command.
pub const APPLICATION_COMMAND: u64 = 2;

/// What the gateway listener reports to the bot loop.
#[derive(Debug)]
pub enum BotEvent {
    /// The gateway greeted us; we must identify.
    Op10Hello,
    /// A user message: content, bot token, channel id.
    Message(String, String, String),
    /// A slash command: command name, interaction id, interaction token.
    Interaction(String, String, String),
}

/// A `BotEvent` with its strings taken as character sequences.
pub enum EventView {
    Op10Hello,
    Message(Seq<char>, Seq<char>, Seq<char>),
    Interaction(Seq<char>, Seq<char>, Seq<char>),
}

impl View for BotEvent {
    type V = EventView;

    open spec fn view(&self) -> EventView {
        match self {
            BotEvent::Op10Hello => EventView::Op10Hello,
            BotEvent::Message(a, b, c) => EventView::Message(a@, b@, c@),
            BotEvent::Interaction(a, b, c) => EventView::Interaction(a@, b@, c@),
        }
    }
}

impl DeepView for BotEvent {
    type V = EventView;

    open spec fn deep_view(&self) -> EventView {
        self.view()
    }
}

/// The fields of a gateway payload that the bot reads.
pub struct GatewayFields {
    /// `op`
    pub op: Option<u64>,
    /// `t`
    pub event_name: Option<String>,
    /// `d.author.bot`
    pub author_is_bot: Option<bool>,
    /// `d.content`
    pub content: Option<String>,
    /// `d.channel_id`
    pub channel_id: Option<String>,
    /// `d.type`
    pub interaction_type: Option<u64>,
    /// `d.data.name`
    pub command_name: Option<String>,
    /// `d.id`
    pub interaction_id: Option<String>,
    /// `d.token`
    pub interaction_token: Option<String>,
}

/// `GatewayFields` with its strings taken as character sequences.
pub struct FieldsView {
    pub op: Option<u64>,
    pub event_name: Option<Seq<char>>,
    pub author_is_bot: Option<bool>,
    pub content: Option<Seq<char>>,
    pub channel_id: Option<Seq<char>>,
    pub interaction_type: Option<u64>,
    pub command_name: Option<Seq<char>>,
    pub interaction_id: Option<Seq<char>>,
    pub interaction_token: Option<Seq<char>>,
}

impl View for GatewayFields {
    type V = FieldsView;

    open spec fn view(&self) -> FieldsView {
        FieldsView {
            op: self.op,
            event_name: self.event_name.deep_view(),
            author_is_bot: self.author_is_bot,
            content: self.content.deep_view(),
            channel_id: self.channel_id.deep_view(),
            interaction_type: self.interaction_type,
            command_name: self.command_name.deep_view(),
            interaction_id: self.interaction_id.deep_view(),
            interaction_token: self.interaction_token.deep_view(),
        }
    }
}

/// The string held, or `default` when there is none.
pub open spec fn or_else(o: Option<Seq<char>>, default: Seq<char>) -> Seq<char> {
    match o {
        Some(s) => s,
        None => default,
    }
}

/// The fields that `serde_json` finds in a gateway payload.
pub open spec fn fields_of(text: Seq<char>) -> FieldsView {
    FieldsView {
        op: json_u64_at(text, "/op"@),
        event_name: json_str_at(text, "/t"@),
        author_is_bot: json_bool_at(text, "/d/author/bot"@),
        content: json_str_at(text, "/d/content"@),
        channel_id: json_str_at(text, "/d/channel_id"@),
        interaction_type: json_u64_at(text, "/d/type"@),
        command_name: json_str_at(text, "/d/data/name"@),
        interaction_id: json_str_at(text, "/d/id"@),
        interaction_token: json_str_at(text, "/d/token"@),
    }
}

/// What a gateway payload means to the bot. A `Hello` asks for identify;
/// a dispatched `MESSAGE_CREATE` not written by a bot becomes a message
/// (missing content is empty, a missing channel is `default_channel`); a
/// dispatched `INTERACTION_CREATE` of an application command becomes an
/// interaction (missing strings are empty). Everything else is ignored.
pub open spec fn classify(f: FieldsView, token: Seq<char>, default_channel: Seq<char>) -> Option<
    EventView,
> {
    if f.op == Some(OP_HELLO) {
        Some(EventView::Op10Hello)
    } else if f.op == Some(OP_DISPATCH) {
        let t = or_else(f.event_name, seq![]);
        if t == "MESSAGE_CREATE"@ && f.author_is_bot != Some(true) {
            Some(
                EventView::Message(
                    or_else(f.content, seq![]),
                    token,
                    or_else(f.channel_id, default_channel),
                ),
            )
        } else if t == "INTERACTION_CREATE"@ && f.interaction_type == Some(APPLICATION_COMMAND) {
            Some(
                EventView::Interaction(
                    or_else(f.command_name, seq![]),
                    or_else(f.interaction_id, seq![]),
                    or_else(f.interaction_token, seq![]),
                ),
            )
        } else {
            None
        }
    } else {
        None
    }
}

fn string_or(o: Option<String>, default: &str) -> (r: String)
    ensures
        r@ == or_else(o.deep_view(), default@),
{
    match o {
        Some(s) => s,
        None => String::from_str(default),
    }
}

/// Decides what a parsed gateway payload means (see `classify`).
pub fn classify_event(fields: GatewayFields, token: &str, default_channel: &str) -> (r: Option<
    BotEvent,
>)
    ensures
        r.deep_view() == classify(fields@, token@, default_channel@),
{
    let ghost f = fields@;
    let is_hello = match fields.op {
        Some(op) => op == OP_HELLO,
        None => false,
    };
    if is_hello {
        return Some(BotEvent::Op10Hello);
    }
    let is_dispatch = match fields.op {
        Some(op) => op == OP_DISPATCH,
        None => false,
    };
    if !is_dispatch {
        return None;
    }
    let from_bot = match fields.author_is_bot {
        Some(b) => b,
        None => false,
    };
    let is_command = match fields.interaction_type {
        Some(k) => k == APPLICATION_COMMAND,
        None => false,
    };
    let t = string_or(fields.event_name, "");
    proof {
        reveal_strlit("");
    }
    assert(""@ =~= Seq::<char>::empty());
    assert(t@ == or_else(f.event_name, seq![]));
    if str_eq(t.as_str(), "MESSAGE_CREATE") && !from_bot {
        Some(
            BotEvent::Message(
                string_or(fields.content, ""),
                String::from_str(token),
                string_or(fields.channel_id, default_channel),
            ),
        )
    } else if str_eq(t.as_str(), "INTERACTION_CREATE") && is_command {
        Some(
            BotEvent::Interaction(
                string_or(fields.command_name, ""),
                string_or(fields.interaction_id, ""),
                string_or(fields.interaction_token, ""),
            ),
        )
    } else {
        None
    }
}

/// Reads the fields of a gateway payload and decides what it means. The
/// payload's JSON is read by `serde_json`; what follows is `classify_event`.
pub fn process_discord_event(text: &str, token: &str, default_channel: &str) -> (r: Option<
    BotEvent,
>)
    ensures
        r.deep_view() == classify(fields_of(text@), token@, default_channel@),
{
    let fields = GatewayFields {
        op: u64_at(text, "/op"),
        event_name: str_at(text, "/t"),
        author_is_bot: bool_at(text, "/d/author/bot"),
        content: str_at(text, "/d/content"),
        channel_id: str_at(text, "/d/channel_id"),
        interaction_type: u64_at(text, "/d/type"),
        command_name: str_at(text, "/d/data/name"),
        interaction_id: str_at(text, "/d/id"),
        interaction_token: str_at(text, "/d/token"),
    };
    assert(fields@ == fields_of(text@));
    classify_event(fields, token, default_channel)
}

/// One step of frame reassembly: the buffer after appending `fragment`,
/// and the complete document handed on, if any. A buffer that parses as
/// JSON is handed on and emptied; one that does not, and has grown past
/// `MAX_BUFFERED_BYTES` bytes of UTF-8, is dropped.
pub open spec fn feed_step(buffer: Seq<char>, fragment: Seq<char>) -> (Seq<char>, Option<
    Seq<char>,
>) {
    let joined = buffer + fragment;
    settle_step(joined, json_valid(joined))
}

/// What becomes of the buffered text once it is known whether it parses
/// (`complete`): handed on whole and emptied; dropped when it has grown past
/// `MAX_BUFFERED_BYTES` bytes of UTF-8; otherwise kept.
pub open spec fn settle_step(buffer: Seq<char>, complete: bool) -> (Seq<char>, Option<Seq<char>>) {
    if complete {
        (seq![], Some(buffer))
    } else if encode_utf8(buffer).len() > MAX_BUFFERED_BYTES {
        (seq![], None)
    } else {
        (buffer, None)
    }
}

/// Accumulates gateway text frames until they form one JSON document.
pub struct GatewayBuffer {
    buffer: String,
}

impl View for GatewayBuffer {
    type V = Seq<char>;

    closed spec fn view(&self) -> Seq<char> {
        self.buffer@
    }
}

impl GatewayBuffer {
    /// An empty buffer.
    pub fn new() -> (r: GatewayBuffer)
        ensures
            r@ == Seq::<char>::empty(),
    {
        GatewayBuffer { buffer: String::new() }
    }

    /// Appends a text frame; returns the buffered document once it parses.
    pub fn feed(&mut self, fragment: &str) -> (r: Option<String>)
        ensures
            final(self)@ == feed_step(old(self)@, fragment@).0,
            r.deep_view() == feed_step(old(self)@, fragment@).1,
    {
        self.buffer.append(fragment);
        let complete = parses_as_json(self.buffer.as_str());
        self.settle(complete)
    }

    /// Hands on or drops the buffered text, given whether it parses as JSON
    /// (see `settle_step`).
    pub fn settle(&mut self, complete: bool) -> (r: Option<String>)
        ensures
            final(self)@ == settle_step(old(self)@, complete).0,
            r.deep_view() == settle_step(old(self)@, complete).1,
    {
        if complete {
            let mut doc = String::new();
            std::mem::swap(&mut doc, &mut self.buffer);
            assert(self.buffer@ =~= seq![]);
            Some(doc)
        } else if self.buffer.as_str().as_bytes().len() > MAX_BUFFERED_BYTES {
            self.buffer = String::new();
            assert(self.buffer@ =~= seq![]);
            None
        } else {
            None
        }
    }
}

/// The buffer never holds more than `MAX_BUFFERED_BYTES` bytes after a
/// frame is fed.
pub proof fn buffer_stays_bounded(buffer: Seq<char>, fragment: Seq<char>)
    ensures
        encode_utf8(feed_step(buffer, fragment).0).len() <= MAX_BUFFERED_BYTES,
{
    assert(encode_utf8(Seq::<char>::empty()) =~= Seq::<u8>::empty());
}

/// A document that arrives in one frame is handed on whole, and the buffer
/// is left empty.
pub proof fn whole_document_passes(fragment: Seq<char>)
    requires
        json_valid(fragment),
    ensures
        feed_step(seq![], fragment) == (Seq::<char>::empty(), Some(fragment)),
{
    assert(Seq::<char>::empty() + fragment =~= fragment);
}

/// A document split over two frames is reassembled and handed on whole,
/// provided its first part fits the buffer.
pub proof fn split_document_is_reassembled(first: Seq<char>, second: Seq<char>)
    requires
        !json_valid(first),
        encode_utf8(first).len() <= MAX_BUFFERED_BYTES,
        json_valid(first + second),
    ensures
        feed_step(seq![], first).1 is None,
        feed_step(feed_step(seq![], first).0, second) == (Seq::<char>::empty(), Some(first + second)),
{
    assert(Seq::<char>::empty() + first =~= first);
}

/// Feeding a frame never loses text that may still become a document: when
/// the buffered text followed by the frame does not parse and fits the
/// limit, all of it is kept and nothing is handed on. When it parses, it is
/// handed on whole and the buffer empties; when it neither parses nor fits,
/// it is dropped.
pub proof fn feed_keeps_or_hands_on(buffer: Seq<char>, fragment: Seq<char>)
    ensures
        !json_valid(buffer + fragment) && encode_utf8(buffer + fragment).len() <= MAX_BUFFERED_BYTES
            ==> feed_step(buffer, fragment) == (buffer + fragment, None::<Seq<char>>),
        json_valid(buffer + fragment) ==> feed_step(buffer, fragment) == (
            Seq::<char>::empty(),
            Some(buffer + fragment),
        ),
        !json_valid(buffer + fragment) && encode_utf8(buffer + fragment).len() > MAX_BUFFERED_BYTES
            ==> feed_step(buffer, fragment) == (Seq::<char>::empty(), None::<Seq<char>>),
{
}

/// A document split over three frames, none of whose proper prefixes
/// parses and which fits the buffer, is handed on whole by the third feed.
pub proof fn three_frames_are_reassembled(a: Seq<char>, b: Seq<char>, c: Seq<char>)
    requires
        !json_valid(a),
        !json_valid(a + b),
        json_valid(a + b + c),
        encode_utf8(a + b).len() <= MAX_BUFFERED_BYTES,
    ensures
        feed_step(feed_step(feed_step(seq![], a).0, b).0, c) == (
            Seq::<char>::empty(),
            Some(a + b + c),
        ),
{
    assert(Seq::<char>::empty() + a =~= a);
    lemma_utf8_prefix_len(a, b);
}

/// The UTF-8 encoding of a prefix is no longer than that of the whole.
pub proof fn lemma_utf8_prefix_len(a: Seq<char>, b: Seq<char>)
    ensures
        encode_utf8(a).len() <= encode_utf8(a + b).len(),
    decreases a.len(),
{
    if a.len() > 0 {
        assert((a + b).drop_first() =~= a.drop_first() + b);
        assert((a + b)[0] == a[0]);
        lemma_utf8_prefix_len(a.drop_first(), b);
    } else {
        assert(a + b =~= b);
    }
}

/// Settling hands the text on exactly when it parses, and otherwise keeps
/// it unless it is too long.
pub proof fn settle_keeps_or_hands_on(buffer: Seq<char>, complete: bool)
    ensures
        complete ==> settle_step(buffer, complete) == (Seq::<char>::empty(), Some(buffer)),
        !complete && encode_utf8(buffer).len() <= MAX_BUFFERED_BYTES ==> settle_step(
            buffer,
            complete,
        ) == (buffer, None::<Seq<char>>),
        !complete && encode_utf8(buffer).len() > MAX_BUFFERED_BYTES ==> settle_step(
            buffer,
            complete,
        ) == (Seq::<char>::empty(), None::<Seq<char>>),
{
}

/// What each gateway payload is taken for. `Hello` always asks for
/// identify. A dispatched `INTERACTION_CREATE` of an application command is
/// that interaction, whatever else the payload holds (channel, content,
/// author); missing strings are empty. A dispatched `MESSAGE_CREATE` not
/// written by a bot is that message, with the bot's token, in its channel
/// or the default one. Any other opcode is ignored.
pub proof fn classification_by_event(f: FieldsView, token: Seq<char>, default_channel: Seq<char>)
    ensures
        f.op == Some(10u64) ==> classify(f, token, default_channel) == Some(EventView::Op10Hello),
        f.op == Some(0u64) && f.event_name == Some("INTERACTION_CREATE"@) && f.interaction_type
            == Some(2u64) ==> classify(f, token, default_channel) == Some(
            EventView::Interaction(
                match f.command_name {
                    Some(n) => n,
                    None => seq![],
                },
                match f.interaction_id {
                    Some(i) => i,
                    None => seq![],
                },
                match f.interaction_token {
                    Some(k) => k,
                    None => seq![],
                },
            ),
        ),
        f.op == Some(0u64) && f.event_name == Some("MESSAGE_CREATE"@) && f.author_is_bot != Some(
            true,
        ) ==> classify(f, token, default_channel) == Some(
            EventView::Message(
                match f.content {
                    Some(c) => c,
                    None => seq![],
                },
                token,
                match f.channel_id {
                    Some(c) => c,
                    None => default_channel,
                },
            ),
        ),
        f.op != Some(0u64) && f.op != Some(10u64) ==> classify(f, token, default_channel) is None,
{
    reveal_strlit("MESSAGE_CREATE");
    reveal_strlit("INTERACTION_CREATE");
    assert("MESSAGE_CREATE"@.len() != "INTERACTION_CREATE"@.len());
}

/// Messages written by bots (this one included) are never relayed as
/// commands.
pub proof fn bot_messages_are_ignored(f: FieldsView, token: Seq<char>, default_channel: Seq<char>)
    requires
        f.author_is_bot == Some(true),
    ensures
        !(classify(f, token, default_channel) matches Some(EventView::Message(_, _, _))),
{
    reveal_strlit("MESSAGE_CREATE");
    reveal_strlit("INTERACTION_CREATE");
}

/// The gateway intents the bot subscribes to.
pub const INTENTS: u64 = 37377;

/// The IDENTIFY payload carrying the JSON string literal `quoted_token`, as
/// `serde_json` writes the object (keys in sorted order).
pub open spec fn identify_payload_quoted(quoted_token: Seq<char>) -> Seq<char> {
    "{\"d\":{\"intents\":37377,\"properties\":{\"browser\":\"esp-bot\",\"device\":\"esp32\",\"os\":\"esp32\"},\"token\":"@
        + quoted_token + "},\"op\":2}"@
}

/// The IDENTIFY payload for `token`.
pub open spec fn identify_payload(token: Seq<char>) -> Seq<char> {
    identify_payload_quoted(json_quoted(token))
}

/// The IDENTIFY payload carries the token as one JSON string literal that
/// reads back as exactly the token.
pub proof fn identify_token_round_trips(token: Seq<char>)
    ensures
        identify_payload(token)
            == "{\"d\":{\"intents\":37377,\"properties\":{\"browser\":\"esp-bot\",\"device\":\"esp32\",\"os\":\"esp32\"},\"token\":\""@
            + escape_chars(token) + "\"},\"op\":2}"@,
        unescape(escape_chars(token)) == Some(token),
{
    reveal_strlit(
        "{\"d\":{\"intents\":37377,\"properties\":{\"browser\":\"esp-bot\",\"device\":\"esp32\",\"os\":\"esp32\"},\"token\":",
    );
    reveal_strlit(
        "{\"d\":{\"intents\":37377,\"properties\":{\"browser\":\"esp-bot\",\"device\":\"esp32\",\"os\":\"esp32\"},\"token\":\"",
    );
    reveal_strlit("},\"op\":2}");
    reveal_strlit("\"},\"op\":2}");
    let e = escape_chars(token);
    assert("{\"d\":{\"intents\":37377,\"properties\":{\"browser\":\"esp-bot\",\"device\":\"esp32\",\"os\":\"esp32\"},\"token\":"@
        + (seq!['"'] + e + seq!['"']) + "},\"op\":2}"@
        =~= "{\"d\":{\"intents\":37377,\"properties\":{\"browser\":\"esp-bot\",\"device\":\"esp32\",\"os\":\"esp32\"},\"token\":\""@
        + e + "\"},\"op\":2}"@);
    escape_round_trips(token);
}

/// The heartbeat payload.
pub open spec fn heartbeat_payload() -> Seq<char> {
    "{\"d\":null,\"op\":1}"@
}

/// Builds the IDENTIFY payload; the token's JSON string literal is written
/// by `serde_json`.
pub fn identify(token: &str) -> (r: String)
    ensures
        r@ == identify_payload(token@),
{
    let q = quote(token);
    identify_with(q.as_str())
}

/// Builds the IDENTIFY payload from the token's JSON string literal.
pub fn identify_with(quoted_token: &str) -> (r: String)
    ensures
        r@ == identify_payload_quoted(quoted_token@),
{
    let mut s = String::from_str(
        "{\"d\":{\"intents\":37377,\"properties\":{\"browser\":\"esp-bot\",\"device\":\"esp32\",\"os\":\"esp32\"},\"token\":",
    );
    s.append(quoted_token);
    s.append("},\"op\":2}");
    s
}

/// Builds the heartbeat payload.
pub fn heartbeat() -> (r: String)
    ensures
        r@ == heartbeat_payload(),
{
    String::from_str("{\"d\":null,\"op\":1}")
}

/// What the bot loop receives: a gateway event, a quiet period, or the end
/// of the event stream.
#[derive(Debug)]
pub enum LoopInput {
    Event(BotEvent),
    Timeout,
    Closed,
}

/// What the bot loop does next.
#[derive(Debug)]
pub enum BotAction {
    /// Send this text frame on the gateway socket.
    Send(String),
    /// Run a chat command: content, token, channel id.
    RunCommand(String, String, String),
    /// Answer a slash command: command name, interaction id, interaction token.
    RunInteraction(String, String, String),
    /// Leave the loop.
    Stop,
}

/// A `BotAction` with its strings taken as character sequences.
pub enum ActionView {
    Send(Seq<char>),
    RunCommand(Seq<char>, Seq<char>, Seq<char>),
    RunInteraction(Seq<char>, Seq<char>, Seq<char>),
    Stop,
}

impl View for BotAction {
    type V = ActionView;

    open spec fn view(&self) -> ActionView {
        match self {
            BotAction::Send(s) => ActionView::Send(s@),
            BotAction::RunCommand(a, b, c) => ActionView::RunCommand(a@, b@, c@),
            BotAction::RunInteraction(a, b, c) => ActionView::RunInteraction(a@, b@, c@),
            BotAction::Stop => ActionView::Stop,
        }
    }
}

/// The bot loop's rule: identify on `Hello`, run commands and interactions
/// as they come, send a heartbeat after a quiet period, stop when the event
/// stream ends.
pub open spec fn loop_rule(input: Option<EventView>, closed: bool, token: Seq<char>) -> ActionView {
    if closed {
        ActionView::Stop
    } else {
        match input {
            None => ActionView::Send(heartbeat_payload()),
            Some(EventView::Op10Hello) => ActionView::Send(identify_payload(token)),
            Some(EventView::Message(c, t, ch)) => ActionView::RunCommand(c, t, ch),
            Some(EventView::Interaction(n, i, k)) => ActionView::RunInteraction(n, i, k),
        }
    }
}

/// The view of a loop input: the event, if any, and whether the stream ended.
pub open spec fn input_view(input: LoopInput) -> (Option<EventView>, bool) {
    match input {
        LoopInput::Event(e) => (Some(e@), false),
        LoopInput::Timeout => (None, false),
        LoopInput::Closed => (None, true),
    }
}

/// The loop stops exactly when the event stream has ended; every message,
/// whatever its content, is run as a command with its own content, token
/// and channel; every interaction is answered with its own name, id and
/// token; a quiet period sends a heartbeat and `Hello` sends IDENTIFY.
pub proof fn loop_actions(input: LoopInput, token: Seq<char>)
    ensures
        (loop_rule(input_view(input).0, input_view(input).1, token) == ActionView::Stop) <==> (
        input is Closed),
        input matches LoopInput::Event(BotEvent::Message(c, t, ch)) ==> loop_rule(
            input_view(input).0,
            input_view(input).1,
            token,
        ) == ActionView::RunCommand(c@, t@, ch@),
        input matches LoopInput::Event(BotEvent::Interaction(n, i, k)) ==> loop_rule(
            input_view(input).0,
            input_view(input).1,
            token,
        ) == ActionView::RunInteraction(n@, i@, k@),
        input is Timeout ==> loop_rule(input_view(input).0, input_view(input).1, token)
            == ActionView::Send(heartbeat_payload()),
        input matches LoopInput::Event(BotEvent::Op10Hello) ==> loop_rule(
            input_view(input).0,
            input_view(input).1,
            token,
        ) == ActionView::Send(identify_payload(token)),
{
}

/// Decides the bot loop's next action (see `loop_rule`).
pub fn next_action(input: LoopInput, token: &str) -> (r: BotAction)
    ensures
        r@ == loop_rule(input_view(input).0, input_view(input).1, token@),
{
    match input {
        LoopInput::Closed => BotAction::Stop,
        LoopInput::Timeout => BotAction::Send(heartbeat()),
        LoopInput::Event(BotEvent::Op10Hello) => BotAction::Send(identify(token)),
        LoopInput::Event(BotEvent::Message(c, t, ch)) => BotAction::RunCommand(c, t, ch),
        LoopInput::Event(BotEvent::Interaction(n, i, k)) => BotAction::RunInteraction(n, i, k),
    }
}

} // verus!
