//! Messages as the Discord REST API returns them.

use vstd::prelude::*;

verus! {

/// A channel message: its id and its text.
#[derive(Debug)]
pub struct DiscordMessage {
    pub id: String,
    pub content: String,
}

/// A `DiscordMessage` with its strings taken as character sequences.
pub struct MessageView {
    pub id: Seq<char>,
    pub content: Seq<char>,
}

impl View for DiscordMessage {
    type V = MessageView;

    open spec fn view(&self) -> MessageView {
        MessageView { id: self.id@, content: self.content@ }
    }
}

impl DeepView for DiscordMessage {
    type V = MessageView;

    open spec fn deep_view(&self) -> MessageView {
        self.view()
    }
}

} // verus!
