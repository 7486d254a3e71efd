use sauce_bot::commands::fuzzysearch::FuzzySearch;
use sauce_bot::commands::iqdb::Iqdb;
use sauce_bot::commands::lookup::Action;
use sauce_bot::commands::lookup::Backend;
use sauce_bot::commands::lookup::Event;
use sauce_bot::commands::lookup::Lookup;
use sauce_bot::commands::lookup::Policy;
use sauce_bot::commands::lookup::Stage;
use sauce_bot::commands::saucenao::Cause;
use sauce_bot::commands::saucenao::RateLimits;
use sauce_bot::commands::saucenao::Saucenao;
use sauce_bot::config::Config;
use sauce_bot::error::Fail;
use sauce_bot::handle::CallKind;
use sauce_bot::handle::Handle;
use sauce_bot::handle::InteractionKind;
use sauce_bot::handle::PlatformCall;
use sauce_bot::handle::ResponseKind;
use sauce_bot::reply::EmbedField;
use sauce_bot::sauce_finder::Attachment;
use sauce_bot::sauce_finder::SauceItem;
use sauce_bot::sauce_finder::SauceResult;

const LINK: &str = "http://example.com/x.png";

fn handle() -> Handle {
    Handle::new(11, "token".to_string(), InteractionKind::ApplicationCommand, None)
}

fn saucenao(link: Option<&str>, ephemeral: Option<bool>) -> Lookup {
    Saucenao { link: link.map(str::to_string), attachment: None, ephemeral }.execute(handle())
}

fn fuzzysearch(link: Option<&str>, attachment: Option<Attachment>) -> Lookup {
    FuzzySearch { link: link.map(str::to_string), attachment, ephemeral: None }.execute(handle())
}

fn found() -> SauceResult {
    SauceResult {
        original_url: LINK.to_string(),
        items: vec![
            SauceItem { similarity: 7200, link: "https://a.example".to_string() },
            SauceItem { similarity: 9500, link: "https://b.example".to_string() },
        ],
    }
}

fn followup_text(text: &str) -> Action {
    Action::Call(PlatformCall::CreateFollowup {
        content: Some(text.to_string()),
        embed: None,
        ephemeral: true,
    })
}

#[test]
fn saucenao_with_a_link_defers_searches_and_follows_up() {
    let cfg = Config::default();
    let mut limits = RateLimits::new();
    let mut lookup = saucenao(Some(LINK), None);
    let mut defers = 0;
    let mut searches = 0;
    let mut followups = 0;
    let mut event = Event::Start;
    let end = loop {
        match lookup.step(event, &cfg) {
            Action::Call(PlatformCall::Defer { ephemeral }) => {
                assert!(!ephemeral);
                defers += 1;
                event = Event::Sent(None);
            },
            Action::ConsultLimits => {
                event = Event::Limits(limits.check_at(0));
            },
            Action::Search { backend, link } => {
                assert_eq!(backend, Backend::Saucenao);
                assert_eq!(link, LINK);
                assert!(lookup.handle().responded());
                searches += 1;
                event = Event::Searched(Ok(found()));
            },
            Action::Call(PlatformCall::CreateFollowup { content, embed, ephemeral }) => {
                assert_eq!(content, None);
                assert!(!ephemeral);
                let embed = embed.unwrap();
                assert_eq!(
                    embed.fields[0],
                    EmbedField {
                        name: "Original Link".to_string(),
                        value: LINK.to_string(),
                        inline: false,
                    }
                );
                assert_eq!(embed.fields[1].name, "Similarity: 95.00");
                assert_eq!(embed.fields[1].value, "<https://b.example>");
                assert_eq!(embed.fields[2].name, "Similarity: 72.00");
                assert_eq!(embed.fields.len(), 3);
                followups += 1;
                event = Event::Sent(Some(77));
            },
            Action::Finish(end) => break end,
            other => panic!("unexpected: {:?}", other),
        }
    };
    assert_eq!(end, Ok(()));
    assert_eq!((defers, searches, followups), (1, 1, 1));
    assert_eq!(lookup.stage(), Stage::Finished);
    assert_eq!(lookup.handle().last_message_id(), Some(77));
    assert_eq!(limits.short_remaining(), 5);
    assert_eq!(limits.long_remaining(), 199);
}

#[test]
fn hidden_saucenao_defers_hidden_and_replies_hidden() {
    let cfg = Config::default();
    let mut lookup = saucenao(Some(LINK), Some(true));
    assert_eq!(
        lookup.step(Event::Start, &cfg),
        Action::Call(PlatformCall::Defer { ephemeral: true })
    );
    assert_eq!(lookup.stage(), Stage::Deferring);
    assert_eq!(lookup.step(Event::Sent(None), &cfg), Action::ConsultLimits);
    assert_eq!(lookup.stage(), Stage::Limiting);
    assert_eq!(
        lookup.step(Event::Limits(None), &cfg),
        Action::Search { backend: Backend::Saucenao, link: LINK.to_string() }
    );
    assert_eq!(lookup.stage(), Stage::Searching);
    match lookup.step(Event::Searched(Ok(found())), &cfg) {
        Action::Call(PlatformCall::CreateFollowup { ephemeral, .. }) => assert!(ephemeral),
        other => panic!("unexpected: {:?}", other),
    }
    assert_eq!(lookup.stage(), Stage::Closing(CallKind::Followup));
    assert_eq!(lookup.step(Event::Sent(Some(1)), &cfg), Action::Finish(Ok(())));
}

#[test]
fn denial_by_the_limits_is_passed_on_and_ends_well() {
    let cfg = Config::default();
    for cause in [Cause::Short, Cause::Long] {
        let mut lookup = saucenao(Some(LINK), None);
        lookup.step(Event::Start, &cfg);
        assert_eq!(lookup.step(Event::Sent(None), &cfg), Action::ConsultLimits);
        assert_eq!(
            lookup.step(Event::Limits(Some(cause)), &cfg),
            followup_text(cause.message())
        );
        assert_eq!(lookup.step(Event::Sent(Some(5)), &cfg), Action::Finish(Ok(())));
    }
}

#[test]
fn seventh_saucenao_in_a_row_is_turned_away() {
    let cfg = Config::default();
    let mut limits = RateLimits::new();
    for round in 0..7 {
        let mut lookup = saucenao(Some(LINK), None);
        lookup.step(Event::Start, &cfg);
        assert_eq!(lookup.step(Event::Sent(None), &cfg), Action::ConsultLimits);
        let action = lookup.step(Event::Limits(limits.check_at(1_000_000_000)), &cfg);
        if round < 6 {
            assert!(matches!(action, Action::Search { .. }));
        } else {
            assert_eq!(action, followup_text(Cause::Long.message()));
        }
    }
}

#[test]
fn saucenao_without_a_reference_says_so_after_its_turn() {
    let cfg = Config::default();
    let mut lookup = saucenao(None, None);
    assert_eq!(
        lookup.step(Event::Start, &cfg),
        Action::Call(PlatformCall::Defer { ephemeral: false })
    );
    assert_eq!(lookup.step(Event::Sent(None), &cfg), Action::ConsultLimits);
    assert_eq!(
        lookup.step(Event::Limits(None), &cfg),
        followup_text("No image was provided, whether by link or attachment.")
    );
    assert_eq!(lookup.step(Event::Sent(Some(3)), &cfg), Action::Finish(Ok(())));
}

#[test]
fn saucenao_with_an_invalid_link_notifies_and_fails() {
    let cfg = Config::default();
    let mut lookup = saucenao(Some("not a url"), None);
    lookup.step(Event::Start, &cfg);
    lookup.step(Event::Sent(None), &cfg);
    assert_eq!(lookup.step(Event::Limits(None), &cfg), followup_text("Invalid link provided"));
    assert_eq!(lookup.stage(), Stage::Notifying(CallKind::Followup, Fail::InvalidLink));
    assert_eq!(lookup.step(Event::Sent(Some(3)), &cfg), Action::Finish(Err(Fail::InvalidLink)));
    assert_eq!(lookup.stage(), Stage::Finished);
}

#[test]
fn fuzzysearch_without_a_reference_says_so_after_the_deferral() {
    let cfg = Config::default();
    let mut lookup = fuzzysearch(None, None);
    assert_eq!(
        lookup.step(Event::Start, &cfg),
        Action::Call(PlatformCall::Defer { ephemeral: false })
    );
    assert_eq!(
        lookup.step(Event::Sent(None), &cfg),
        followup_text("No image was provided, whether by link or attachment.")
    );
    assert_eq!(lookup.stage(), Stage::Closing(CallKind::Followup));
    assert_eq!(lookup.step(Event::Sent(Some(2)), &cfg), Action::Finish(Ok(())));
    assert!(lookup.handle().responded());
}

#[test]
fn fuzzysearch_skips_the_limits() {
    let cfg = Config::default();
    let mut lookup = fuzzysearch(Some(LINK), None);
    assert_eq!(
        lookup.step(Event::Start, &cfg),
        Action::Call(PlatformCall::Defer { ephemeral: false })
    );
    assert_eq!(
        lookup.step(Event::Sent(None), &cfg),
        Action::Search { backend: Backend::FuzzySearch, link: LINK.to_string() }
    );
    assert_eq!(
        lookup.step(Event::Searched(Err("no luck".to_string())), &cfg),
        followup_text("Failed to execute command: no luck")
    );
    assert_eq!(lookup.step(Event::Sent(Some(8)), &cfg), Action::Finish(Ok(())));
}

#[test]
fn fuzzysearch_with_a_wrong_attachment_notifies_and_fails() {
    let cfg = Config::default();
    let attachment = Attachment {
        url: "https://cdn.example/a.txt".to_string(),
        content_type: Some("text/plain".to_string()),
    };
    let mut lookup = fuzzysearch(None, Some(attachment));
    lookup.step(Event::Start, &cfg);
    assert_eq!(
        lookup.step(Event::Sent(None), &cfg),
        followup_text("Invalid attachment provided")
    );
    assert_eq!(
        lookup.step(Event::Sent(Some(9)), &cfg),
        Action::Finish(Err(Fail::InvalidAttachment))
    );
}

#[test]
fn fuzzysearch_with_an_image_attachment_searches_its_address() {
    let cfg = Config::default();
    let attachment = Attachment {
        url: "https://cdn.example/a.png".to_string(),
        content_type: Some("image/png".to_string()),
    };
    let mut lookup = fuzzysearch(None, Some(attachment));
    lookup.step(Event::Start, &cfg);
    assert_eq!(
        lookup.step(Event::Sent(None), &cfg),
        Action::Search {
            backend: Backend::FuzzySearch,
            link: "https://cdn.example/a.png".to_string(),
        }
    );
}

#[test]
fn iqdb_is_out_of_service() {
    let cfg = Config::default();
    let mut lookup =
        Iqdb { link: Some(LINK.to_string()), attachment: None, ephemeral: None }.execute(handle());
    assert_eq!(
        lookup.step(Event::Start, &cfg),
        Action::Call(PlatformCall::CreateResponse {
            kind: ResponseKind::ChannelMessageWithSource,
            content: "IQDB is currently broken :/".to_string(),
            embed: None,
            ephemeral: true,
        })
    );
    assert_eq!(lookup.stage(), Stage::Closing(CallKind::FirstResponse));
    assert_eq!(lookup.step(Event::Sent(None), &cfg), Action::Finish(Ok(())));
    assert!(lookup.handle().responded());
}

#[test]
fn backend_in_service_without_limits_runs_like_fuzzysearch() {
    let cfg = Config::default();
    let policy = Policy { available: true, rate_limited: false };
    let mut lookup =
        Lookup::new(Backend::Iqdb, policy, Some(LINK.to_string()), None, None, handle());
    assert_eq!(
        lookup.step(Event::Start, &cfg),
        Action::Call(PlatformCall::Defer { ephemeral: false })
    );
    assert_eq!(
        lookup.step(Event::Sent(None), &cfg),
        Action::Search { backend: Backend::Iqdb, link: LINK.to_string() }
    );
}

#[test]
fn policies_of_the_backends() {
    assert_eq!(Backend::Saucenao.policy(), Policy { available: true, rate_limited: true });
    assert_eq!(Backend::FuzzySearch.policy(), Policy { available: true, rate_limited: false });
    assert_eq!(Backend::Iqdb.policy(), Policy { available: false, rate_limited: false });
}

#[test]
fn failed_platform_call_abandons_the_command() {
    let cfg = Config::default();
    let mut lookup = saucenao(Some(LINK), None);
    lookup.step(Event::Start, &cfg);
    assert_eq!(lookup.step(Event::SendFailed, &cfg), Action::Finish(Err(Fail::Transport)));
    assert_eq!(lookup.stage(), Stage::Finished);
    assert!(!lookup.handle().responded());

    let mut lookup = saucenao(Some(LINK), None);
    lookup.step(Event::Start, &cfg);
    lookup.step(Event::Sent(None), &cfg);
    lookup.step(Event::Limits(None), &cfg);
    lookup.step(Event::Searched(Ok(found())), &cfg);
    assert_eq!(lookup.step(Event::SendFailed, &cfg), Action::Finish(Err(Fail::Transport)));
    assert_eq!(lookup.handle().last_message_id(), None);

    let mut lookup = saucenao(Some("nope"), None);
    lookup.step(Event::Start, &cfg);
    lookup.step(Event::Sent(None), &cfg);
    lookup.step(Event::Limits(None), &cfg);
    assert_eq!(lookup.step(Event::SendFailed, &cfg), Action::Finish(Err(Fail::Transport)));
}

#[test]
fn event_out_of_turn_ends_the_command() {
    let cfg = Config::default();
    let mut lookup = saucenao(Some(LINK), None);
    assert_eq!(
        lookup.step(Event::Sent(None), &cfg),
        Action::Finish(Err(Fail::UnexpectedEvent))
    );
    assert_eq!(lookup.stage(), Stage::Finished);
    assert_eq!(lookup.step(Event::Start, &cfg), Action::Finish(Err(Fail::UnexpectedEvent)));

    let mut lookup = saucenao(Some(LINK), None);
    lookup.step(Event::Start, &cfg);
    lookup.step(Event::Sent(None), &cfg);
    assert_eq!(
        lookup.step(Event::Searched(Ok(found())), &cfg),
        Action::Finish(Err(Fail::UnexpectedEvent))
    );
}

#[test]
fn handle_that_was_answered_cannot_be_deferred() {
    let cfg = Config::default();
    let mut answered = handle();
    answered.record(CallKind::FirstResponse, None);
    let mut lookup =
        Saucenao { link: Some(LINK.to_string()), attachment: None, ephemeral: None }
            .execute(answered);
    assert_eq!(lookup.step(Event::Start, &cfg), Action::Finish(Err(Fail::AlreadyResponded)));
}
