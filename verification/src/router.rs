//! Interaction routing: a flat mapping from a command name or a modal
//! identifier to the handler it selects, with an explicit unknown route
//! instead of a silent fall-through.
//!
//! An unknown route is only logged by the caller; no response is sent for
//! it, so the remote service shows such an interaction as unacknowledged.
//! That is a latent usability gap kept as it stands, not a design choice.

use vstd::prelude::*;

use crate::text::str_eq;

verus! {

/// The slash commands the bot serves, plus the unrecognized case.
#[derive(Debug, Clone, Copy, PartialEq, Eq, Structural)]
pub enum CommandRoute {
    Ping,
    SubmitFlag,
    AddChallenge,
    BotMsg,
    Unknown,
}

/// The modal identifiers the bot serves, plus the unrecognized case.
#[derive(Debug, Clone, Copy, PartialEq, Eq, Structural)]
pub enum ModalRoute {
    FlagSubmit,
    ChalAdd,
    BotMsgSend,
    BotMsgEdit,
    Unknown,
}

/// The route a command name selects.
pub open spec fn command_route_of(name: Seq<char>) -> CommandRoute {
    if name == "ping"@ {
        CommandRoute::Ping
    } else if name == "submitflag"@ {
        CommandRoute::SubmitFlag
    } else if name == "addchallenge"@ {
        CommandRoute::AddChallenge
    } else if name == "botmsg"@ {
        CommandRoute::BotMsg
    } else {
        CommandRoute::Unknown
    }
}

/// The route a modal identifier selects.
pub open spec fn modal_route_of(custom_id: Seq<char>) -> ModalRoute {
    if custom_id == "modal_flag_submit"@ {
        ModalRoute::FlagSubmit
    } else if custom_id == "modal_chal_add"@ {
        ModalRoute::ChalAdd
    } else if custom_id == "modal_botmsg_send"@ {
        ModalRoute::BotMsgSend
    } else if custom_id == "modal_botmsg_edit"@ {
        ModalRoute::BotMsgEdit
    } else {
        ModalRoute::Unknown
    }
}

/// Decodes a slash-command name.
pub fn route_command(name: &str) -> (r: CommandRoute)
    ensures
        r == command_route_of(name@),
{
    if str_eq(name, "ping") {
        CommandRoute::Ping
    } else if str_eq(name, "submitflag") {
        CommandRoute::SubmitFlag
    } else if str_eq(name, "addchallenge") {
        CommandRoute::AddChallenge
    } else if str_eq(name, "botmsg") {
        CommandRoute::BotMsg
    } else {
        CommandRoute::Unknown
    }
}

/// Decodes a modal submission's identifier.
pub fn route_modal(custom_id: &str) -> (r: ModalRoute)
    ensures
        r == modal_route_of(custom_id@),
{
    if str_eq(custom_id, "modal_flag_submit") {
        ModalRoute::FlagSubmit
    } else if str_eq(custom_id, "modal_chal_add") {
        ModalRoute::ChalAdd
    } else if str_eq(custom_id, "modal_botmsg_send") {
        ModalRoute::BotMsgSend
    } else if str_eq(custom_id, "modal_botmsg_edit") {
        ModalRoute::BotMsgEdit
    } else {
        ModalRoute::Unknown
    }
}

/// The fixed acknowledgement the ping command answers with.
pub fn ping_reply() -> (r: String)
    ensures
        r@ == "pong!"@,
{
    "pong!".to_owned()
}

} // verus!
