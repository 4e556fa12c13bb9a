//! Decoding schema-level wire payloads into commands.
//!
//! The transport collaborator parses the wire encoding and hands the
//! payload fields over as plain values; the mapping from those values to
//! commands — the schema of the two supported payload families — is
//! decided here. A payload that fits neither family is a decode failure
//! local to that one message: the caller logs it, skips the message, and
//! keeps the connection open.

use vstd::prelude::*;

use crate::command::{Command, HorizontalIntent};

verus! {

/// Which command a movement tag of the tagged payload family stands for:
/// each of the eight known tags maps to its command, any other tag to
/// `None`.
pub open spec fn tagged_command(player: String, tag: Seq<char>) -> Option<Command> {
    if tag == "Join"@ {
        Some(Command::Join(player))
    } else if tag == "Leave"@ {
        Some(Command::Leave(player))
    } else if tag == "Left"@ {
        Some(Command::MoveLeft(player))
    } else if tag == "Right"@ {
        Some(Command::MoveRight(player))
    } else if tag == "None"@ {
        Some(Command::MoveNone(player))
    } else if tag == "Jump"@ {
        Some(Command::Jump(player))
    } else if tag == "Dive"@ {
        Some(Command::Dive(player))
    } else if tag == "EndDive"@ {
        Some(Command::EndDive(player))
    } else {
        None
    }
}

/// Maps a movement tag of the tagged payload family onto its command.
/// Returns `None` exactly for an unknown tag, which is a decode failure
/// for that single message.
pub fn decode_tagged(player: String, movement: &String) -> (r: Option<Command>)
    ensures
        r == tagged_command(player, movement@),
{
    if *movement == "Join".to_owned() {
        Some(Command::Join(player))
    } else if *movement == "Leave".to_owned() {
        Some(Command::Leave(player))
    } else if *movement == "Left".to_owned() {
        Some(Command::MoveLeft(player))
    } else if *movement == "Right".to_owned() {
        Some(Command::MoveRight(player))
    } else if *movement == "None".to_owned() {
        Some(Command::MoveNone(player))
    } else if *movement == "Jump".to_owned() {
        Some(Command::Jump(player))
    } else if *movement == "Dive".to_owned() {
        Some(Command::Dive(player))
    } else if *movement == "EndDive".to_owned() {
        Some(Command::EndDive(player))
    } else {
        None
    }
}

/// What the continuous-axis payload family decodes to: presence is
/// implied, so a `Join` comes first — the fold makes it a no-op for a
/// player already present — then the held direction, then a `Jump` when
/// the flag is set; the fold's debounce discards it while a jump is
/// already active.
pub open spec fn axis_commands(player: String, x: HorizontalIntent, jump: bool) -> Seq<Command> {
    let mv = match x {
        HorizontalIntent::Left => Command::MoveLeft(player),
        HorizontalIntent::Right => Command::MoveRight(player),
        HorizontalIntent::Still => Command::MoveNone(player),
    };
    if jump {
        seq![Command::Join(player), mv, Command::Jump(player)]
    } else {
        seq![Command::Join(player), mv]
    }
}

/// Decodes one continuous-axis payload, already reduced to the held
/// direction and the jump flag, into the commands it stands for.
pub fn decode_axis(player: String, x: HorizontalIntent, jump: bool) -> (cmds: Vec<Command>)
    ensures
        cmds@ == axis_commands(player, x, jump),
{
    let mut cmds: Vec<Command> = Vec::new();
    cmds.push(Command::Join(player.clone()));
    match x {
        HorizontalIntent::Left => cmds.push(Command::MoveLeft(player.clone())),
        HorizontalIntent::Right => cmds.push(Command::MoveRight(player.clone())),
        HorizontalIntent::Still => cmds.push(Command::MoveNone(player.clone())),
    }
    if jump {
        cmds.push(Command::Jump(player));
    }
    proof {
        assert(cmds@ =~= axis_commands(player, x, jump));
    }
    cmds
}

} // verus!
