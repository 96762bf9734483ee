//! The text a slash command answers with.

use vstd::prelude::*;
use vstd::string::*;

use crate::text::{ascii_lower, is_ascii_text, decimal, lowercase, push_decimal, str_eq, to_lowercase, trim, trim_str};

verus! {

/// `s` without one leading `!`, if it has one.
pub open spec fn strip_bang(s: Seq<char>) -> Seq<char> {
    if s.len() > 0 && s[0] == '!' {
        s.drop_first()
    } else {
        s
    }
}

/// The normalized command name: one leading `!` dropped, then trimmed, then
/// lower-cased.
pub open spec fn command_key(command: Seq<char>) -> Seq<char> {
    lowercase(trim(strip_bang(command)))
}

/// The answer to a normalized command name; `free_heap` is the free heap
/// in bytes.
pub open spec fn response_for_key(key: Seq<char>, free_heap: u32) -> Seq<char> {
    if key == "ping"@ {
        "🏓 ¡Pong desde el ESP32!"@
    } else if key == "status"@ {
        "📊 RAM Libre: "@ + decimal(free_heap as nat) + " bytes"@
    } else {
        "Comando no reconocido"@
    }
}

/// The answer to a command name.
pub open spec fn response_for(command: Seq<char>, free_heap: u32) -> Seq<char> {
    response_for_key(command_key(command), free_heap)
}

/// `command` without one leading `!`.
pub fn strip_command_prefix(command: &str) -> (r: &str)
    ensures
        r@ == strip_bang(command@),
{
    let n = command.unicode_len();
    if n > 0 && command.get_char(0) == '!' {
        let r = command.substring_char(1, n);
        assert(r@ =~= command@.drop_first());
        r
    } else {
        command
    }
}

/// The answer to a slash command (see `response_for`).
pub fn get_response_for(command: &str, free_heap: u32) -> (r: String)
    ensures
        r@ == response_for(command@, free_heap),
        is_ascii_text(trim(strip_bang(command@))) ==> r@ == response_for_key(
            ascii_lower(trim(strip_bang(command@))),
            free_heap,
        ),
{
    let stripped = strip_command_prefix(command);
    let trimmed = trim_str(stripped);
    let cmd = to_lowercase(trimmed.as_str());
    response_for_name(cmd.as_str(), free_heap)
}

/// The answer to a normalized command name (see `response_for_key`).
pub fn response_for_name(cmd: &str, free_heap: u32) -> (r: String)
    ensures
        r@ == response_for_key(cmd@, free_heap),
{
    if str_eq(cmd, "ping") {
        String::from_str("🏓 ¡Pong desde el ESP32!")
    } else if str_eq(cmd, "status") {
        let mut s = String::from_str("📊 RAM Libre: ");
        push_decimal(&mut s, free_heap as u64);
        s.append(" bytes");
        s
    } else {
        String::from_str("Comando no reconocido")
    }
}

/// A slash command may be written with or without one leading `!`: both
/// get the same answer (unless the name itself starts with `!`).
pub proof fn bang_prefix_is_optional(command: Seq<char>, free_heap: u32)
    requires
        command.len() == 0 || command[0] != '!',
    ensures
        response_for(seq!['!'] + command, free_heap) == response_for(command, free_heap),
{
    assert((seq!['!'] + command).drop_first() =~= command);
}

} // verus!
