use ctf_bot::InteractionError;
use ctf_bot::interaction::ActionRow;
use ctf_bot::interaction::ActionRowComponent;
use ctf_bot::interaction::CommandOption;
use ctf_bot::interaction::ModalSubmission;
use ctf_bot::interaction::SubOption;
use ctf_bot::messages::BotMsgAction;
use ctf_bot::messages::EditPrompt;
use ctf_bot::messages::botmsg_edit_followup;
use ctf_bot::messages::botmsg_send_followup;
use ctf_bot::messages::cmd_botmsg;
use ctf_bot::messages::cmd_botmsg_edit_fetched;
use ctf_bot::messages::modal_botmsg_edit_response;
use ctf_bot::messages::modal_botmsg_send_response;

const ADMIN: u64 = 42;

fn subcommand(name: &str, values: &[&str]) -> Vec<CommandOption> {
    vec![CommandOption {
        name: name.to_string(),
        options: values
            .iter()
            .map(|v| SubOption { value: Some(v.to_string()) })
            .collect(),
    }]
}

fn text_rows(fields: &[&str]) -> Vec<ActionRow> {
    fields
        .iter()
        .map(|value| ActionRow {
            components: vec![ActionRowComponent::InputText(value.to_string())],
        })
        .collect()
}

#[test]
fn non_admin_botmsg_is_denied() {
    let options = subcommand("send", &["123"]);
    assert!(matches!(
        cmd_botmsg(&Some(vec![7]), &options, ADMIN),
        Err(InteractionError::Permissions)
    ));
    assert!(matches!(
        cmd_botmsg(&None, &options, ADMIN),
        Err(InteractionError::Permissions)
    ));
}

#[test]
fn send_subcommand_opens_send_modal_with_channel_prefill() {
    let options = subcommand("send", &["941763230493786144"]);
    match cmd_botmsg(&Some(vec![ADMIN]), &options, ADMIN).unwrap() {
        BotMsgAction::OpenSendModal { channel_value } => {
            assert_eq!(channel_value, "941763230493786144");
        },
        other => panic!("expected the send modal, got {:?}", other),
    }
}

#[test]
fn edit_subcommand_parses_both_ids_and_fetches() {
    let options = subcommand("edit", &["123", "456"]);
    match cmd_botmsg(&Some(vec![ADMIN]), &options, ADMIN).unwrap() {
        BotMsgAction::FetchForEdit { channel_id, msg_id } => {
            assert_eq!(channel_id, 123);
            assert_eq!(msg_id, 456);
        },
        other => panic!("expected a fetch, got {:?}", other),
    }
}

#[test]
fn malformed_botmsg_invocations_are_unprocessable() {
    assert!(matches!(
        cmd_botmsg(&Some(vec![ADMIN]), &vec![], ADMIN),
        Err(InteractionError::UnprocessableRequest)
    ));
    assert!(matches!(
        cmd_botmsg(&Some(vec![ADMIN]), &subcommand("rename", &["123"]), ADMIN),
        Err(InteractionError::UnprocessableRequest)
    ));
    assert!(matches!(
        cmd_botmsg(&Some(vec![ADMIN]), &subcommand("send", &[]), ADMIN),
        Err(InteractionError::UnprocessableRequest)
    ));
    assert!(matches!(
        cmd_botmsg(&Some(vec![ADMIN]), &subcommand("edit", &["123", "not-a-number"]), ADMIN),
        Err(InteractionError::UnprocessableRequest)
    ));
    assert!(matches!(
        cmd_botmsg(&Some(vec![ADMIN]), &subcommand("edit", &["123"]), ADMIN),
        Err(InteractionError::UnprocessableRequest)
    ));
}

#[test]
fn fetch_failure_yields_direct_notice_and_no_modal() {
    match cmd_botmsg_edit_fetched(123, 456, None) {
        EditPrompt::FetchFailed { message } => {
            assert_eq!(message, "Failed to fetch message!");
        },
        EditPrompt::OpenEditModal { .. } => panic!("no modal may be shown on a failed fetch"),
    }
}

#[test]
fn fetch_success_prefills_edit_modal() {
    match cmd_botmsg_edit_fetched(123, 456, Some("old text".to_string())) {
        EditPrompt::OpenEditModal { content, channel_id, msg_id } => {
            assert_eq!(content, "old text");
            assert_eq!(channel_id, 123);
            assert_eq!(msg_id, 456);
        },
        EditPrompt::FetchFailed { .. } => panic!("fetch succeeded"),
    }
}

#[test]
fn valid_send_modal_submission_yields_request() {
    let submission = ModalSubmission {
        member_roles: Some(vec![ADMIN]),
        rows: text_rows(&["hello channel", "1005"]),
    };
    let req = modal_botmsg_send_response(&submission, ADMIN).unwrap();
    assert_eq!(req.channel_id, 1005);
    assert_eq!(req.content, "hello channel");
}

#[test]
fn non_numeric_channel_id_fails_send_and_sends_nothing() {
    let submission = ModalSubmission {
        member_roles: Some(vec![ADMIN]),
        rows: text_rows(&["hello channel", "general"]),
    };
    assert!(matches!(
        modal_botmsg_send_response(&submission, ADMIN),
        Err(InteractionError::UnprocessableRequest)
    ));
}

#[test]
fn non_admin_send_modal_submission_is_denied() {
    let submission = ModalSubmission {
        member_roles: Some(vec![7]),
        rows: text_rows(&["hello channel", "1005"]),
    };
    assert!(matches!(
        modal_botmsg_send_response(&submission, ADMIN),
        Err(InteractionError::Permissions)
    ));
}

#[test]
fn valid_edit_modal_submission_yields_request() {
    let submission = ModalSubmission {
        member_roles: Some(vec![ADMIN]),
        rows: text_rows(&["new text", "123", "456"]),
    };
    let req = modal_botmsg_edit_response(&submission, ADMIN).unwrap();
    assert_eq!(req.channel_id, 123);
    assert_eq!(req.msg_id, 456);
    assert_eq!(req.content, "new text");
}

#[test]
fn bad_message_id_fails_edit_modal_submission() {
    let submission = ModalSubmission {
        member_roles: Some(vec![ADMIN]),
        rows: text_rows(&["new text", "123", "45 6"]),
    };
    assert!(matches!(
        modal_botmsg_edit_response(&submission, ADMIN),
        Err(InteractionError::UnprocessableRequest)
    ));
}

#[test]
fn send_followup_reports_outcome() {
    let ok = botmsg_send_followup(Some("https://example.invalid/m/1".to_string()));
    assert_eq!(ok.content, "Bot-authored message sent!");
    assert_eq!(ok.link_button.as_deref(), Some("https://example.invalid/m/1"));

    let failed = botmsg_send_followup(None);
    assert_eq!(failed.content, "Failed to send bot-authored message!");
    assert!(failed.link_button.is_none());
}

#[test]
fn edit_followup_reports_outcome() {
    let ok = botmsg_edit_followup(Some("https://example.invalid/m/2".to_string()));
    assert_eq!(ok.content, "Bot-authored message edited!");
    assert_eq!(ok.link_button.as_deref(), Some("https://example.invalid/m/2"));

    let failed = botmsg_edit_followup(None);
    assert_eq!(failed.content, "Failed edit bot-authored message!");
    assert!(failed.link_button.is_none());
}
