//! Handlers for the bot-message command: administrators posting and editing
//! bot-authored channel messages through modal forms.
//!
//! As with the challenge handlers, everything decidable stands here: the
//! permission gate, the subcommand dispatch, positional field extraction,
//! decimal identifier parsing, and the choice of follow-up once the remote
//! send, edit or fetch has reported its outcome. The remote calls themselves,
//! and the deferred-acknowledgement dance around them, are the caller's I/O.

use vstd::prelude::*;

use crate::InteractionError;
use crate::interaction::ActionRow;
use crate::interaction::CommandOption;
use crate::interaction::ModalSubmission;
use crate::interaction::option_value;
use crate::interaction::option_value_at;
use crate::interaction::text_at;
use crate::interaction::text_field;
use crate::parse::dec_value;
use crate::parse::is_dec_string;
use crate::parse::parse_u64;
use crate::perm::has_admin_role;
use crate::perm::holds_admin_role;
use crate::perm::roles_view;
use crate::text::str_eq;

verus! {

/// What the bot-message command decides to do next.
#[derive(Debug)]
pub enum BotMsgAction {
    /// Open the send modal, pre-filling its channel-identifier field with
    /// the channel the command named (kept verbatim as a string).
    OpenSendModal { channel_value: String },
    /// Fetch the named message from the remote service, to pre-fill the
    /// edit modal with its current content.
    FetchForEdit { channel_id: u64, msg_id: u64 },
}

/// What the edit flow does once the remote fetch has answered.
#[derive(Debug)]
pub enum EditPrompt {
    /// The fetch succeeded: open the edit modal pre-filled with the current
    /// content and both identifiers.
    OpenEditModal { content: String, channel_id: u64, msg_id: u64 },
    /// The fetch failed: respond directly with a failure notice and show no
    /// modal. A terminal path, not retried.
    FetchFailed { message: String },
}

/// A validated request to send a message: where, and what.
#[derive(Debug)]
pub struct SendRequest {
    pub channel_id: u64,
    pub content: String,
}

/// A validated request to edit a bot-authored message.
#[derive(Debug)]
pub struct EditRequest {
    pub channel_id: u64,
    pub msg_id: u64,
    pub content: String,
}

/// The follow-up that replaces the deferred placeholder: a notice, plus a
/// link-styled button to the message when one exists to link to.
#[derive(Debug)]
pub struct FollowupMessage {
    pub content: String,
    pub link_button: Option<String>,
}

/// The send subcommand is well-shaped: a first option named `send` whose
/// first sub-option carries a string value.
pub open spec fn send_action_ok(options: Seq<CommandOption>) -> bool {
    &&& options.len() > 0
    &&& options[0].name@ == "send"@
    &&& option_value_at(options, 0, 0) is Some
}

/// Both identifiers of the edit subcommand parse as decimal `u64` values.
pub open spec fn edit_ids_ok(options: Seq<CommandOption>) -> bool {
    &&& option_value_at(options, 0, 0) matches Some(c) && is_dec_string(c) && dec_value(c)
        <= u64::MAX
    &&& option_value_at(options, 0, 1) matches Some(m) && is_dec_string(m) && dec_value(m)
        <= u64::MAX
}

/// The edit subcommand is well-shaped: a first option named `edit` with two
/// parseable identifiers.
pub open spec fn edit_action_ok(options: Seq<CommandOption>) -> bool {
    &&& options.len() > 0
    &&& options[0].name@ == "edit"@
    &&& edit_ids_ok(options)
}

/// Decides the bot-message command: administrators only; the first option
/// names the subcommand, `send` or `edit`, and anything else is out of
/// shape.
pub fn cmd_botmsg(
    member_roles: &Option<Vec<u64>>,
    options: &Vec<CommandOption>,
    admin_role_id: u64,
) -> (r: Result<BotMsgAction, InteractionError>)
    ensures
        ({
            let guard = holds_admin_role(roles_view(*member_roles), admin_role_id);
            match r {
                Ok(a) => guard && ({
                    ||| send_action_ok(options@) && (a matches BotMsgAction::OpenSendModal {
                        channel_value,
                    } && Some(channel_value@) == option_value_at(options@, 0, 0))
                    ||| edit_action_ok(options@) && (a matches BotMsgAction::FetchForEdit {
                        channel_id,
                        msg_id,
                    } && channel_id as int == dec_value(option_value_at(options@, 0, 0).unwrap())
                        && msg_id as int == dec_value(option_value_at(options@, 0, 1).unwrap()))
                }),
                Err(e) => if !guard {
                    e matches InteractionError::Permissions
                } else {
                    !send_action_ok(options@) && !edit_action_ok(options@) && e matches
                        InteractionError::UnprocessableRequest
                },
            }
        }),
{
    if !has_admin_role(member_roles, admin_role_id) {
        return Err(InteractionError::Permissions);
    }
    if options.len() == 0 {
        return Err(InteractionError::UnprocessableRequest);
    }
    let subcommand = &options[0].name;
    if str_eq(subcommand.as_str(), "send") {
        cmd_botmsg_send(options)
    } else if str_eq(subcommand.as_str(), "edit") {
        cmd_botmsg_edit(options)
    } else {
        Err(InteractionError::UnprocessableRequest)
    }
}

/// Decides the send subcommand: reads the target channel from the command's
/// first sub-option, to pre-fill the send modal with it.
fn cmd_botmsg_send(options: &Vec<CommandOption>) -> (r: Result<BotMsgAction, InteractionError>)
    ensures
        match r {
            Ok(a) => option_value_at(options@, 0, 0) matches Some(v) && a matches
                BotMsgAction::OpenSendModal { channel_value } && channel_value@ == v,
            Err(e) => option_value_at(options@, 0, 0) is None && e matches
                InteractionError::UnprocessableRequest,
        },
{
    match option_value(options, 0, 0) {
        Some(v) => Ok(BotMsgAction::OpenSendModal { channel_value: v.clone() }),
        None => Err(InteractionError::UnprocessableRequest),
    }
}

/// Decides the edit subcommand: parses the target channel and message
/// identifiers from the command's sub-options; the caller is then to fetch
/// that message.
fn cmd_botmsg_edit(options: &Vec<CommandOption>) -> (r: Result<BotMsgAction, InteractionError>)
    ensures
        match r {
            Ok(a) => edit_ids_ok(options@) && (a matches BotMsgAction::FetchForEdit {
                channel_id,
                msg_id,
            } && channel_id as int == dec_value(option_value_at(options@, 0, 0).unwrap())
                && msg_id as int == dec_value(option_value_at(options@, 0, 1).unwrap())),
            Err(e) => !edit_ids_ok(options@) && e matches InteractionError::UnprocessableRequest,
        },
{
    let channel_id = match option_value(options, 0, 0) {
        Some(s) => match parse_u64(s.as_str()) {
            Some(v) => v,
            None => {
                return Err(InteractionError::UnprocessableRequest);
            },
        },
        None => {
            return Err(InteractionError::UnprocessableRequest);
        },
    };
    let msg_id = match option_value(options, 0, 1) {
        Some(s) => match parse_u64(s.as_str()) {
            Some(v) => v,
            None => {
                return Err(InteractionError::UnprocessableRequest);
            },
        },
        None => {
            return Err(InteractionError::UnprocessableRequest);
        },
    };
    Ok(BotMsgAction::FetchForEdit { channel_id, msg_id })
}

/// Decides the edit flow's second step from the remote fetch's outcome —
/// the fetched content, or nothing when the remote reported failure. Only on
/// success is a modal shown; on failure the reply is a direct notice.
pub fn cmd_botmsg_edit_fetched(channel_id: u64, msg_id: u64, fetched: Option<String>) -> (r:
    EditPrompt)
    ensures
        match fetched {
            Some(content) => r matches EditPrompt::OpenEditModal {
                content: c,
                channel_id: ch,
                msg_id: m,
            } && c@ == content@ && ch == channel_id && m == msg_id,
            None => r matches EditPrompt::FetchFailed { message } && message@
                == "Failed to fetch message!"@,
        },
{
    match fetched {
        Some(content) => EditPrompt::OpenEditModal { content, channel_id, msg_id },
        None => EditPrompt::FetchFailed { message: "Failed to fetch message!".to_owned() },
    }
}

/// The send modal's fields are well-shaped: content text at (0, 0) and a
/// parseable channel identifier at (1, 0).
pub open spec fn send_fields_ok(rows: Seq<ActionRow>) -> bool {
    &&& text_at(rows, 0, 0) is Some
    &&& text_at(rows, 1, 0) matches Some(c) && is_dec_string(c) && dec_value(c) <= u64::MAX
}

/// The edit modal's fields are well-shaped: content at (0, 0), a channel
/// identifier at (1, 0) and a message identifier at (2, 0), both parseable.
pub open spec fn edit_fields_ok(rows: Seq<ActionRow>) -> bool {
    &&& text_at(rows, 0, 0) is Some
    &&& text_at(rows, 1, 0) matches Some(c) && is_dec_string(c) && dec_value(c) <= u64::MAX
    &&& text_at(rows, 2, 0) matches Some(m) && is_dec_string(m) && dec_value(m) <= u64::MAX
}

/// Handles a submitted send modal: re-checks the administrative role, reads
/// the content and channel-identifier fields positionally, and parses the
/// identifier — an unparseable identifier fails the submission and nothing
/// is sent. The returned request is what the caller is to send after
/// deferring its acknowledgement.
pub fn modal_botmsg_send_response(submission: &ModalSubmission, admin_role_id: u64) -> (r: Result<
    SendRequest,
    InteractionError,
>)
    ensures
        ({
            let guard = holds_admin_role(roles_view(submission.member_roles), admin_role_id);
            match r {
                Ok(req) => guard && (text_at(submission.rows@, 0, 0) matches Some(content)
                    && req.content@ == content) && (text_at(submission.rows@, 1, 0) matches Some(
                    chan,
                ) && req.channel_id as int == dec_value(chan)),
                Err(e) => if !guard {
                    e matches InteractionError::Permissions
                } else {
                    !send_fields_ok(submission.rows@) && e matches
                        InteractionError::UnprocessableRequest
                },
            }
        }),
{
    if !has_admin_role(&submission.member_roles, admin_role_id) {
        return Err(InteractionError::Permissions);
    }
    let content = match text_field(&submission.rows, 0, 0) {
        Some(s) => s,
        None => {
            return Err(InteractionError::UnprocessableRequest);
        },
    };
    let channel_id = match text_field(&submission.rows, 1, 0) {
        Some(s) => match parse_u64(s.as_str()) {
            Some(v) => v,
            None => {
                return Err(InteractionError::UnprocessableRequest);
            },
        },
        None => {
            return Err(InteractionError::UnprocessableRequest);
        },
    };
    Ok(SendRequest { channel_id, content: content.clone() })
}

/// Handles a submitted edit modal: the same gate and extraction as the send
/// path, with the message identifier read from the third row.
pub fn modal_botmsg_edit_response(submission: &ModalSubmission, admin_role_id: u64) -> (r: Result<
    EditRequest,
    InteractionError,
>)
    ensures
        ({
            let guard = holds_admin_role(roles_view(submission.member_roles), admin_role_id);
            match r {
                Ok(req) => guard && (text_at(submission.rows@, 0, 0) matches Some(content)
                    && req.content@ == content) && (text_at(submission.rows@, 1, 0) matches Some(
                    chan,
                ) && req.channel_id as int == dec_value(chan)) && (text_at(
                    submission.rows@,
                    2,
                    0,
                ) matches Some(m) && req.msg_id as int == dec_value(m)),
                Err(e) => if !guard {
                    e matches InteractionError::Permissions
                } else {
                    !edit_fields_ok(submission.rows@) && e matches
                        InteractionError::UnprocessableRequest
                },
            }
        }),
{
    if !has_admin_role(&submission.member_roles, admin_role_id) {
        return Err(InteractionError::Permissions);
    }
    let content = match text_field(&submission.rows, 0, 0) {
        Some(s) => s,
        None => {
            return Err(InteractionError::UnprocessableRequest);
        },
    };
    let channel_id = match text_field(&submission.rows, 1, 0) {
        Some(s) => match parse_u64(s.as_str()) {
            Some(v) => v,
            None => {
                return Err(InteractionError::UnprocessableRequest);
            },
        },
        None => {
            return Err(InteractionError::UnprocessableRequest);
        },
    };
    let msg_id = match text_field(&submission.rows, 2, 0) {
        Some(s) => match parse_u64(s.as_str()) {
            Some(v) => v,
            None => {
                return Err(InteractionError::UnprocessableRequest);
            },
        },
        None => {
            return Err(InteractionError::UnprocessableRequest);
        },
    };
    Ok(EditRequest { channel_id, msg_id, content: content.clone() })
}

/// Turns the remote send's outcome — a link to the sent message, or nothing
/// on failure — into the follow-up that replaces the deferred placeholder.
pub fn botmsg_send_followup(sent_link: Option<String>) -> (r: FollowupMessage)
    ensures
        match sent_link {
            Some(link) => r.content@ == "Bot-authored message sent!"@ && (r.link_button matches
                Some(l) && l@ == link@),
            None => r.content@ == "Failed to send bot-authored message!"@ && r.link_button
                is None,
        },
{
    match sent_link {
        Some(link) => FollowupMessage {
            content: "Bot-authored message sent!".to_owned(),
            link_button: Some(link),
        },
        None => FollowupMessage {
            content: "Failed to send bot-authored message!".to_owned(),
            link_button: None,
        },
    }
}

/// Turns the remote edit's outcome into the follow-up that replaces the
/// deferred placeholder, mirroring the send path.
pub fn botmsg_edit_followup(edited_link: Option<String>) -> (r: FollowupMessage)
    ensures
        match edited_link {
            Some(link) => r.content@ == "Bot-authored message edited!"@ && (r.link_button matches
                Some(l) && l@ == link@),
            None => r.content@ == "Failed edit bot-authored message!"@ && r.link_button is None,
        },
{
    match edited_link {
        Some(link) => FollowupMessage {
            content: "Bot-authored message edited!".to_owned(),
            link_button: Some(link),
        },
        None => FollowupMessage {
            content: "Failed edit bot-authored message!".to_owned(),
            link_button: None,
        },
    }
}

} // verus!
