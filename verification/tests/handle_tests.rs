use sauce_bot::error::Fail;
use sauce_bot::handle::CallKind;
use sauce_bot::handle::Choice;
use sauce_bot::handle::DeferVisibility;
use sauce_bot::handle::Handle;
use sauce_bot::handle::InteractionKind;
use sauce_bot::handle::PlatformCall;
use sauce_bot::handle::ResponseKind;
use sauce_bot::handle::ResponseState;
use sauce_bot::handle::TextInput;
use sauce_bot::handle::UserError;
use sauce_bot::reply::Embed;
use sauce_bot::reply::Reply;

fn command_handle() -> Handle {
    Handle::new(7, "token".to_string(), InteractionKind::ApplicationCommand, Some(0b1011))
}

fn text(content: &str) -> Reply {
    Reply::new().content(content.to_string())
}

#[test]
fn new_handle_is_unresponded() {
    let handle = command_handle();
    assert!(!handle.responded());
    assert_eq!(handle.last_message_id(), None);
    assert_eq!(handle.state(), ResponseState::Unresponded);
    assert_eq!(handle.id(), 7);
    assert_eq!(handle.token(), "token");
    assert_eq!(handle.kind(), InteractionKind::ApplicationCommand);
}

#[test]
fn first_reply_is_the_first_response() {
    let mut handle = command_handle();
    let call = handle.reply(text("hello").ephemeral());
    assert_eq!(
        call,
        PlatformCall::CreateResponse {
            kind: ResponseKind::ChannelMessageWithSource,
            content: "hello".to_string(),
            embed: None,
            ephemeral: true,
        }
    );
    assert_eq!(call.kind(), CallKind::FirstResponse);
    assert_eq!(handle.record(call.kind(), None), None);
    assert!(handle.responded());
    assert_eq!(handle.last_message_id(), None);
}

#[test]
fn first_reply_with_empty_text_keeps_the_text() {
    let handle = command_handle();
    let call = handle.reply(Reply::new().embed(Embed::new("Card")));
    assert_eq!(
        call,
        PlatformCall::CreateResponse {
            kind: ResponseKind::ChannelMessageWithSource,
            content: String::new(),
            embed: Some(Embed::new("Card")),
            ephemeral: false,
        }
    );
}

#[test]
fn update_on_a_component_edits_its_message() {
    let handle = Handle::new(1, "t".to_string(), InteractionKind::MessageComponent, None);
    let call = handle.reply(text("edited").update_last());
    assert_eq!(
        call,
        PlatformCall::CreateResponse {
            kind: ResponseKind::UpdateMessage,
            content: "edited".to_string(),
            embed: None,
            ephemeral: false,
        }
    );
    // Without the wish to update, a component gets a new message.
    let call = handle.reply(text("fresh"));
    assert!(matches!(
        call,
        PlatformCall::CreateResponse { kind: ResponseKind::ChannelMessageWithSource, .. }
    ));
    // And a command that asks to update gets a new message too.
    let call = command_handle().reply(text("fresh").update_last());
    assert!(matches!(
        call,
        PlatformCall::CreateResponse { kind: ResponseKind::ChannelMessageWithSource, .. }
    ));
}

#[test]
fn second_defer_fails_with_already_responded() {
    let mut handle = command_handle();
    let call = handle.defer(DeferVisibility::Visible).unwrap();
    assert_eq!(call, PlatformCall::Defer { ephemeral: false });
    handle.record(call.kind(), None);
    assert_eq!(handle.defer(DeferVisibility::Visible), Err(Fail::AlreadyResponded));
    assert_eq!(handle.defer(DeferVisibility::Ephemeral), Err(Fail::AlreadyResponded));
}

#[test]
fn defer_that_failed_leaves_the_handle_unresponded() {
    let handle = command_handle();
    let first = handle.defer(DeferVisibility::Ephemeral).unwrap();
    assert_eq!(first, PlatformCall::Defer { ephemeral: true });
    // Nothing was recorded: the call may be asked for again.
    assert!(!handle.responded());
    assert_eq!(handle.defer(DeferVisibility::Ephemeral), Ok(first));
}

#[test]
fn reply_after_defer_is_a_followup_and_tracks_its_message() {
    let mut handle = command_handle();
    let deferral = handle.defer(DeferVisibility::Visible).unwrap();
    handle.record(deferral.kind(), None);
    let call = handle.reply(text("result"));
    assert_eq!(
        call,
        PlatformCall::CreateFollowup {
            content: Some("result".to_string()),
            embed: None,
            ephemeral: false,
        }
    );
    assert_eq!(handle.record(call.kind(), Some(99)), Some(99));
    assert_eq!(handle.last_message_id(), Some(99));
    assert_eq!(handle.state(), ResponseState::Tracking(99));
    // The next followup replaces the message that is tracked.
    let call = handle.reply(text("more"));
    assert_eq!(call.kind(), CallKind::Followup);
    assert_eq!(handle.record(call.kind(), Some(100)), Some(100));
    assert_eq!(handle.last_message_id(), Some(100));
}

#[test]
fn followup_without_text_sends_none() {
    let mut handle = command_handle();
    handle.record(CallKind::FirstResponse, None);
    let call = handle.reply(Reply::new().embed(Embed::new("Card")).ephemeral());
    assert_eq!(
        call,
        PlatformCall::CreateFollowup {
            content: None,
            embed: Some(Embed::new("Card")),
            ephemeral: true,
        }
    );
}

#[test]
fn update_before_any_tracked_message_edits_the_first_response() {
    let mut handle = command_handle();
    let deferral = handle.defer(DeferVisibility::Visible).unwrap();
    handle.record(deferral.kind(), None);
    let call = handle.reply(text("edited").update_last());
    assert_eq!(
        call,
        PlatformCall::UpdateResponse { content: Some("edited".to_string()), embed: None }
    );
    assert_eq!(call.kind(), CallKind::UpdateResponse);
    assert_eq!(handle.record(call.kind(), Some(41)), Some(41));
    assert_eq!(handle.last_message_id(), Some(41));
}

#[test]
fn update_of_a_tracked_message_keeps_its_id() {
    let mut handle = command_handle();
    handle.record(CallKind::FirstResponse, None);
    handle.record(CallKind::Followup, Some(5));
    let call = handle.reply(text("").update_last());
    assert_eq!(call, PlatformCall::UpdateFollowup { message_id: 5, content: None, embed: None });
    assert_eq!(handle.record(call.kind(), None), None);
    assert_eq!(handle.last_message_id(), Some(5));
    let again = handle.reply(text("again").update_last());
    assert_eq!(
        again,
        PlatformCall::UpdateFollowup {
            message_id: 5,
            content: Some("again".to_string()),
            embed: None,
        }
    );
}

#[test]
fn responded_handle_never_goes_back() {
    let mut handle = command_handle();
    handle.record(CallKind::FirstResponse, None);
    for kind in [
        CallKind::FirstResponse,
        CallKind::Followup,
        CallKind::UpdateResponse,
        CallKind::UpdateFollowup,
    ] {
        handle.record(kind, None);
        assert!(handle.responded());
        handle.record(kind, Some(3));
        assert!(handle.responded());
    }
}

#[test]
fn autocomplete_is_a_first_response() {
    let mut handle = command_handle();
    let choices = vec![Choice { name: "One".to_string(), value: "1".to_string() }];
    let call = handle.autocomplete(choices.clone()).unwrap();
    assert_eq!(call, PlatformCall::Autocomplete { choices: choices.clone() });
    assert_eq!(call.kind(), CallKind::FirstResponse);
    handle.record(call.kind(), None);
    assert_eq!(handle.autocomplete(choices), Err(Fail::AlreadyResponded));
}

#[test]
fn modal_puts_each_text_input_in_a_row_of_its_own() {
    let mut handle = command_handle();
    let name = TextInput {
        custom_id: "name".to_string(),
        label: "Name".to_string(),
        paragraph: false,
        required: true,
    };
    let story = TextInput {
        custom_id: "story".to_string(),
        label: "Story".to_string(),
        paragraph: true,
        required: false,
    };
    let call = handle
        .modal("form".to_string(), "A form".to_string(), vec![name.clone(), story.clone()])
        .unwrap();
    assert_eq!(
        call,
        PlatformCall::Modal {
            custom_id: "form".to_string(),
            title: "A form".to_string(),
            rows: vec![vec![name], vec![story]],
        }
    );
    handle.record(call.kind(), None);
    assert_eq!(
        handle.modal("form".to_string(), "A form".to_string(), vec![]),
        Err(Fail::AlreadyResponded)
    );
}

#[test]
fn modal_without_inputs_has_no_rows() {
    let handle = command_handle();
    assert_eq!(
        handle.modal("f".to_string(), "t".to_string(), vec![]),
        Ok(PlatformCall::Modal { custom_id: "f".to_string(), title: "t".to_string(), rows: vec![] })
    );
}

#[test]
fn permissions_that_are_granted_pass() {
    let handle = command_handle();
    assert_eq!(handle.check_permissions(0), Ok(()));
    assert_eq!(handle.check_permissions(0b1011), Ok(()));
    assert_eq!(handle.check_permissions(0b0010), Ok(()));
}

#[test]
fn permissions_that_are_missing_are_named() {
    let handle = command_handle();
    assert_eq!(
        handle.check_permissions(0b0110),
        Err(UserError::MissingPermissions(Some(0b0100)))
    );
    assert_eq!(
        handle.check_permissions(u64::MAX),
        Err(UserError::MissingPermissions(Some(!0b1011)))
    );
}

#[test]
fn interaction_without_permissions_grants_all() {
    let handle = Handle::new(1, "t".to_string(), InteractionKind::ApplicationCommand, None);
    assert_eq!(handle.check_permissions(u64::MAX), Ok(()));
}

#[test]
fn report_of_an_ignored_error_sends_nothing() {
    let handle = command_handle();
    assert_eq!(handle.report_error(text("oops"), UserError::Ignore), None);
}

#[test]
fn report_of_an_error_is_a_reply() {
    let mut handle = command_handle();
    assert_eq!(
        handle.report_error(text("oops"), UserError::Internal),
        Some(handle.reply(text("oops")))
    );
    handle.record(CallKind::FirstResponse, None);
    assert_eq!(
        handle.report_error(text("oops"), UserError::MissingPermissions(None)),
        Some(PlatformCall::CreateFollowup {
            content: Some("oops".to_string()),
            embed: None,
            ephemeral: false,
        })
    );
}

#[test]
fn failures_describe_themselves() {
    assert_eq!(Fail::AlreadyResponded.describe(), "already responded to this interaction");
    assert_eq!(Fail::InvalidLink.describe(), "invalid link provided");
    assert_eq!(Fail::InvalidAttachment.describe(), "invalid attachment provided");
    assert_eq!(Fail::NoReferenceProvided.describe(), "no image was provided");
    assert_eq!(Fail::Transport.describe(), "a call to the platform failed");
    assert_eq!(Fail::UnexpectedEvent.describe(), "the command was not waiting for this");
}
