use sauce_bot::config::Config;
use sauce_bot::config::Credentials;
use sauce_bot::config::Settings;
use sauce_bot::error::Fail;
use sauce_bot::ranking::rank;
use sauce_bot::reply::Embed;
use sauce_bot::reply::EmbedField;
use sauce_bot::reply::Reply;
use sauce_bot::reply::EMBED_COLOR;
use sauce_bot::sauce_finder::accept_link;
use sauce_bot::sauce_finder::get_link;
use sauce_bot::sauce_finder::get_link_from_attachment;
use sauce_bot::sauce_finder::get_link_from_link;
use sauce_bot::sauce_finder::render_item;
use sauce_bot::sauce_finder::render_results;
use sauce_bot::sauce_finder::respond;
use sauce_bot::sauce_finder::respond_failure;
use sauce_bot::sauce_finder::Attachment;
use sauce_bot::sauce_finder::NotifyAction;
use sauce_bot::sauce_finder::SauceItem;
use sauce_bot::sauce_finder::SauceResult;
use sauce_bot::text::push_decimal;
use sauce_bot::text::push_hundredths;
use sauce_bot::text::same_text;
use sauce_bot::text::starts_with;

fn item(similarity: i32, link: &str) -> SauceItem {
    SauceItem { similarity, link: link.to_string() }
}

fn result(items: Vec<SauceItem>) -> SauceResult {
    SauceResult { original_url: "http://example.com/x.png".to_string(), items }
}

fn config(top_links: u8) -> Config {
    Config::new(Credentials::default(), Settings::new(top_links))
}

fn field(name: &str, value: &str) -> EmbedField {
    EmbedField { name: name.to_string(), value: value.to_string(), inline: false }
}

fn header() -> EmbedField {
    field("Original Link", "http://example.com/x.png")
}

fn invalid_link() -> (Fail, NotifyAction) {
    (Fail::InvalidLink, NotifyAction::Send(Reply::notice("Invalid link provided")))
}

fn invalid_attachment() -> (Fail, NotifyAction) {
    (Fail::InvalidAttachment, NotifyAction::Send(Reply::notice("Invalid attachment provided")))
}

#[test]
fn ranking_lists_the_best_two() {
    let found = result(vec![item(72, "a"), item(95, "b"), item(81, "c")]);
    let embed = render_results(&found, 2);
    assert_eq!(
        embed.fields,
        vec![header(), field("Similarity: 0.95", "<b>"), field("Similarity: 0.81", "<c>")]
    );
    assert_eq!(embed.title, "Results");
    assert_eq!(embed.description, None);
    assert_eq!(embed.color, 0x8B_D8C6);
    assert_eq!(EMBED_COLOR, 0x8B_D8C6);
}

#[test]
fn ranking_breaks_ties_by_the_order_given() {
    let found = result(vec![
        item(50, "first"),
        item(90, "top"),
        item(50, "second"),
        item(90, "runner-up"),
        item(50, "third"),
    ]);
    let embed = render_results(&found, 5);
    let links: Vec<&str> = embed.fields.iter().skip(1).map(|f| f.value.as_str()).collect();
    assert_eq!(links, vec!["<top>", "<runner-up>", "<first>", "<second>", "<third>"]);
}

#[test]
fn rank_orders_indices_by_falling_score() {
    assert_eq!(rank(&vec![72, 95, 81]), vec![1, 2, 0]);
    assert_eq!(rank(&vec![1, 1, 1]), vec![0, 1, 2]);
    assert_eq!(rank(&vec![1, 2, 3, 4]), vec![3, 2, 1, 0]);
    assert_eq!(rank(&vec![5, 9, 5, 9, 0]), vec![1, 3, 0, 2, 4]);
    assert_eq!(rank(&vec![]), Vec::<usize>::new());
    assert_eq!(rank(&vec![i32::MAX, 0]), vec![0, 1]);
    assert_eq!(rank(&vec![-100, 0, i32::MIN, 7]), vec![3, 1, 0, 2]);
}

#[test]
fn similarity_that_could_not_be_told_ranks_last() {
    let found = result(vec![item(-100, "unknown"), item(3, "low"), item(9000, "high")]);
    let embed = render_results(&found, 3);
    assert_eq!(
        embed.fields,
        vec![
            header(),
            field("Similarity: 90.00", "<high>"),
            field("Similarity: 0.03", "<low>"),
            field("Similarity: -1.00", "<unknown>"),
        ]
    );
}

#[test]
fn limit_above_the_number_of_items_lists_them_all() {
    let found = result(vec![item(10, "a"), item(20, "b")]);
    let embed = render_results(&found, 200);
    assert_eq!(
        embed.fields,
        vec![header(), field("Similarity: 0.20", "<b>"), field("Similarity: 0.10", "<a>")]
    );
}

#[test]
fn limit_of_zero_lists_the_header_alone() {
    let found = result(vec![item(10, "a"), item(20, "b")]);
    assert_eq!(render_results(&found, 0).fields, vec![header()]);
}

#[test]
fn empty_result_renders_one_field_that_says_so() {
    let embed = render_results(&result(vec![]), 5);
    assert_eq!(
        embed.fields,
        vec![
            header(),
            field("Found zero results", "Unable to find any results for the given link."),
        ]
    );
    assert!(embed.fields.iter().all(|f| !f.name.starts_with("Similarity")));
}

#[test]
fn similarity_is_written_with_two_decimals() {
    assert_eq!(render_item(&item(9532, "x")), field("Similarity: 95.32", "<x>"));
    assert_eq!(render_item(&item(5, "x")), field("Similarity: 0.05", "<x>"));
    assert_eq!(render_item(&item(0, "x")), field("Similarity: 0.00", "<x>"));
    assert_eq!(render_item(&item(100, "x")), field("Similarity: 1.00", "<x>"));
    assert_eq!(render_item(&item(10000, "x")), field("Similarity: 100.00", "<x>"));
    assert_eq!(
        render_item(&item(i32::MAX, "https://e.org/a?b=c")),
        field("Similarity: 21474836.47", "<https://e.org/a?b=c>")
    );
    assert_eq!(render_item(&item(-100, "x")), field("Similarity: -1.00", "<x>"));
    assert_eq!(render_item(&item(-5, "x")), field("Similarity: -0.05", "<x>"));
    assert_eq!(render_item(&item(i32::MIN, "x")), field("Similarity: -21474836.48", "<x>"));
}

#[test]
fn numerals_are_decimal() {
    let mut out = String::from("n=");
    push_decimal(&mut out, 0);
    out.push(' ');
    push_decimal(&mut out, 7);
    out.push(' ');
    push_decimal(&mut out, 10);
    out.push(' ');
    push_decimal(&mut out, 1905);
    out.push(' ');
    push_decimal(&mut out, u64::MAX);
    assert_eq!(out, "n=0 7 10 1905 18446744073709551615");
    let mut out = String::new();
    push_hundredths(&mut out, 123456);
    assert_eq!(out, "1234.56");
    let mut out = String::new();
    push_hundredths(&mut out, 909);
    assert_eq!(out, "9.09");
}

#[test]
fn texts_compare_by_their_characters() {
    assert!(same_text("", ""));
    assert!(same_text("help", "help"));
    assert!(!same_text("help", "helps"));
    assert!(!same_text("help", "hel"));
    assert!(!same_text("help", "helq"));
    assert!(same_text("größe", "größe"));
    assert!(starts_with("image/png", "image/"));
    assert!(starts_with("image/", "image/"));
    assert!(starts_with("anything", ""));
    assert!(!starts_with("image", "image/"));
    assert!(!starts_with("video/mp4", "image/"));
    assert!(!starts_with("Image/png", "image/"));
    assert!(!starts_with("", "image/"));
    assert!(starts_with("ümlaut/x", "ümlaut"));
}

#[test]
fn visible_reply_to_results() {
    let found = result(vec![item(72, "a")]);
    let reply = respond(Ok(found.clone()), &config(5), None);
    assert_eq!(reply, Reply::new().embed(render_results(&found, 5)));
    assert!(!reply.ephemeral);
    assert!(!reply.update_last);
    assert_eq!(reply.content, "");
    assert_eq!(respond(Ok(found.clone()), &config(5), Some(false)), reply);
}

#[test]
fn hidden_reply_to_results() {
    let found = result(vec![item(72, "a"), item(73, "b")]);
    let reply = respond(Ok(found), &config(1), Some(true));
    assert!(reply.ephemeral);
    assert_eq!(
        reply.embed,
        Some(Embed::new("Results").field(header()).field(field("Similarity: 0.73", "<b>")))
    );
}

#[test]
fn default_settings_list_five() {
    let found = result((0..8).map(|i| item(i, "x")).collect());
    let reply = respond(Ok(found), &Config::default(), None);
    assert_eq!(reply.embed.unwrap().fields.len(), 6);
}

#[test]
fn backend_failure_is_told_to_the_user_alone() {
    let reply = respond(Err("connection refused".to_string()), &config(5), Some(false));
    assert_eq!(reply, Reply::notice("Failed to execute command: connection refused"));
    assert!(reply.ephemeral);
    assert_eq!(reply.embed, None);
}

#[test]
fn missing_reference_reply() {
    let reply = respond_failure();
    assert_eq!(reply.content, "No image was provided, whether by link or attachment.");
    assert!(reply.ephemeral);
    assert_eq!(reply.embed, None);
}

#[test]
fn text_that_is_no_url_is_an_invalid_link() {
    assert_eq!(get_link(&Some("not a url".to_string()), &None), Err(invalid_link()));
    assert_eq!(get_link_from_link("not a url".to_string()), Err(invalid_link()));
    assert_eq!(get_link_from_link(String::new()), Err(invalid_link()));
    assert_eq!(get_link_from_link("/relative/path.png".to_string()), Err(invalid_link()));
    assert_eq!(get_link_from_link("http://".to_string()), Err(invalid_link()));
}

#[test]
fn invalid_link_asks_for_one_hidden_notice() {
    match get_link(&Some("not a url".to_string()), &None) {
        Err((Fail::InvalidLink, NotifyAction::Send(notice))) => {
            assert!(notice.ephemeral);
            assert_eq!(notice.content, "Invalid link provided");
            assert_eq!(notice.embed, None);
            assert!(!notice.update_last);
        },
        other => panic!("unexpected: {:?}", other),
    }
}

#[test]
fn absolute_url_is_taken_as_it_is() {
    assert_eq!(
        get_link_from_link("http://example.com/x.png".to_string()),
        Ok("http://example.com/x.png".to_string())
    );
    assert_eq!(
        get_link(&Some("HTTPS://Example.com/a b".to_string()), &None),
        Ok("HTTPS://Example.com/a b".to_string())
    );
    assert_eq!(
        get_link_from_link("data:text/plain,hello".to_string()),
        Ok("data:text/plain,hello".to_string())
    );
}

#[test]
fn verdict_on_a_link_decides() {
    assert_eq!(accept_link("anything".to_string(), true), Ok("anything".to_string()));
    assert_eq!(accept_link("http://example.com".to_string(), false), Err(invalid_link()));
}

#[test]
fn link_goes_before_the_attachment() {
    let attachment =
        Attachment { url: "https://cdn.example/a.png".to_string(), content_type: None };
    assert_eq!(
        get_link(&Some("http://example.com/x.png".to_string()), &Some(attachment.clone())),
        Ok("http://example.com/x.png".to_string())
    );
    assert_eq!(get_link(&Some("nope".to_string()), &Some(attachment)), Err(invalid_link()));
}

#[test]
fn image_attachment_gives_its_address() {
    let attachment = Attachment {
        url: "https://cdn.example/a.png".to_string(),
        content_type: Some("image/png".to_string()),
    };
    assert_eq!(
        get_link_from_attachment(attachment.clone()),
        Ok("https://cdn.example/a.png".to_string())
    );
    assert_eq!(get_link(&None, &Some(attachment)), Ok("https://cdn.example/a.png".to_string()));
}

#[test]
fn attachment_without_content_type_is_accepted() {
    let attachment = Attachment { url: "not even a url".to_string(), content_type: None };
    assert_eq!(get_link_from_attachment(attachment), Ok("not even a url".to_string()));
}

#[test]
fn attachment_that_is_no_image_is_refused() {
    let attachment = Attachment {
        url: "https://cdn.example/a.mp4".to_string(),
        content_type: Some("video/mp4".to_string()),
    };
    assert_eq!(get_link_from_attachment(attachment.clone()), Err(invalid_attachment()));
    assert_eq!(get_link(&None, &Some(attachment)), Err(invalid_attachment()));
    let bare = Attachment { url: "u".to_string(), content_type: Some("image".to_string()) };
    assert_eq!(get_link_from_attachment(bare), Err(invalid_attachment()));
}

#[test]
fn no_reference_is_no_notice() {
    assert_eq!(get_link(&None, &None), Err((Fail::NoReferenceProvided, NotifyAction::Nothing)));
}
