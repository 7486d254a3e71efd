//! The lookup: which image a command refers to, and how the results of a
//! search are shown.

use crate::config::Config;
use crate::error::Fail;
use crate::ranking::as_ints;
use crate::ranking::is_ranking;
use crate::ranking::rank;
use crate::ranking::ranking;
use crate::reply::block_field;
use crate::reply::titled;
use crate::reply::Embed;
use crate::reply::EmbedField;
use crate::reply::EmbedFieldView;
use crate::reply::EmbedView;
use crate::reply::Reply;
use crate::reply::ReplyView;
use crate::text::push_signed_hundredths;
use crate::text::signed_hundredths;
use crate::text::starts_with;
use url::Url;
use vstd::prelude::*;

verus! {

/// What the user is told of a link that is no absolute URL.
pub const INVALID_LINK_NOTICE: &'static str = "Invalid link provided";

/// What the user is told of an attachment that is no image.
pub const INVALID_ATTACHMENT_NOTICE: &'static str = "Invalid attachment provided";

/// What the user is told of a command that names no image.
pub const MISSING_REFERENCE_NOTICE: &'static str =
    "No image was provided, whether by link or attachment.";

/// How the content type of an image begins.
pub const IMAGE_TYPE_PREFIX: &'static str = "image/";

pub const RESULTS_TITLE: &'static str = "Results";

pub const ORIGINAL_LINK: &'static str = "Original Link";

pub const NO_RESULTS: &'static str = "Found zero results";

pub const NO_RESULTS_TEXT: &'static str = "Unable to find any results for the given link.";

pub const SIMILARITY_LABEL: &'static str = "Similarity: ";

pub const FAILURE_PREFIX: &'static str = "Failed to execute command: ";

/// A file that the user attached to the command.
#[derive(Debug, PartialEq, Eq)]
pub struct Attachment {
    pub url: String,
    pub content_type: Option<String>,
}

pub struct AttachmentView {
    pub url: Seq<char>,
    pub content_type: Option<Seq<char>>,
}

impl View for Attachment {
    type V = AttachmentView;

    open spec fn view(&self) -> AttachmentView {
        AttachmentView { url: self.url@, content_type: self.content_type.deep_view() }
    }
}

impl DeepView for Attachment {
    type V = AttachmentView;

    open spec fn deep_view(&self) -> AttachmentView {
        self@
    }
}

impl Clone for Attachment {
    fn clone(&self) -> (copy: Self)
        ensures
            copy@ == self@,
    {
        Attachment {
            url: self.url.clone(),
            content_type: match &self.content_type {
                Some(content_type) => Some(content_type.clone()),
                None => None,
            },
        }
    }
}

/// One match of a search. The similarity is counted in hundredths, so that
/// 9532 stands for 95.32. A provider that could not tell the similarity
/// gives one below zero.
#[derive(Debug, Clone, PartialEq, Eq)]
pub struct SauceItem {
    pub similarity: i32,
    pub link: String,
}

pub struct SauceItemView {
    pub similarity: i32,
    pub link: Seq<char>,
}

impl View for SauceItem {
    type V = SauceItemView;

    open spec fn view(&self) -> SauceItemView {
        SauceItemView { similarity: self.similarity, link: self.link@ }
    }
}

impl DeepView for SauceItem {
    type V = SauceItemView;

    open spec fn deep_view(&self) -> SauceItemView {
        self@
    }
}

/// What a search came to: the link that was searched for, and the matches
/// in the order in which the provider gave them.
#[derive(Debug, Clone, PartialEq, Eq)]
pub struct SauceResult {
    pub original_url: String,
    pub items: Vec<SauceItem>,
}

pub struct SauceResultView {
    pub original_url: Seq<char>,
    pub items: Seq<SauceItemView>,
}

impl View for SauceResult {
    type V = SauceResultView;

    open spec fn view(&self) -> SauceResultView {
        SauceResultView { original_url: self.original_url@, items: self.items.deep_view() }
    }
}

impl DeepView for SauceResult {
    type V = SauceResultView;

    open spec fn deep_view(&self) -> SauceResultView {
        self@
    }
}

/// What the user is to be told when a reference is refused.
#[derive(Debug, Clone, PartialEq, Eq)]
pub enum NotifyAction {
    /// Nothing: the caller has told the user, or will.
    Nothing,
    /// This notice, once.
    Send(Reply),
}

pub enum NotifyActionView {
    Nothing,
    Send(ReplyView),
}

impl View for NotifyAction {
    type V = NotifyActionView;

    open spec fn view(&self) -> NotifyActionView {
        match self {
            NotifyAction::Nothing => NotifyActionView::Nothing,
            NotifyAction::Send(reply) => NotifyActionView::Send(reply@),
        }
    }
}

/// A link, or why there is none and what to tell the user.
pub type Resolved = Result<String, (Fail, NotifyAction)>;

pub type ResolvedView = Result<Seq<char>, (Fail, NotifyActionView)>;

pub open spec fn resolved_view(resolved: Resolved) -> ResolvedView {
    match resolved {
        Ok(link) => Ok(link@),
        Err((fail, notify)) => Err((fail, notify@)),
    }
}

/// Whether `url::Url::parse` accepts a text as an absolute URL.
pub uninterp spec fn parses_as_url(text: Seq<char>) -> bool;

/// Calls `url::Url::parse` and says whether it accepted `link`. The parser
/// reads nothing but its argument, so the verdict on a text is always the
/// same; what the verdict is on a given text is not stated here.
#[verifier::external_body]
fn parse_url(link: &str) -> (accepted: bool)
    ensures
        accepted == parses_as_url(link@),
{
    Url::parse(link).is_ok()
}

/// What becomes of a link once it is known whether it is well formed.
pub open spec fn checked_link(link: Seq<char>, well_formed: bool) -> ResolvedView {
    if well_formed {
        Ok(link)
    } else {
        Err(
            (
                Fail::InvalidLink,
                NotifyActionView::Send(ReplyView::notice(INVALID_LINK_NOTICE@)),
            ),
        )
    }
}

/// What becomes of an attachment: its address, unless it declares a content
/// type that is no image.
pub open spec fn checked_attachment(attachment: AttachmentView) -> ResolvedView {
    match attachment.content_type {
        Some(content_type) if !IMAGE_TYPE_PREFIX@.is_prefix_of(content_type) => Err(
            (
                Fail::InvalidAttachment,
                NotifyActionView::Send(ReplyView::notice(INVALID_ATTACHMENT_NOTICE@)),
            ),
        ),
        _ => Ok(attachment.url),
    }
}

/// The image that a command refers to. A link goes before an attachment.
pub open spec fn resolved(
    link: Option<Seq<char>>,
    attachment: Option<AttachmentView>,
) -> ResolvedView {
    match link {
        Some(link) => checked_link(link, parses_as_url(link)),
        None => match attachment {
            Some(attachment) => checked_attachment(attachment),
            None => Err((Fail::NoReferenceProvided, NotifyActionView::Nothing)),
        },
    }
}

/// The link itself where it is well formed; else `InvalidLink`, with the
/// notice for the user.
pub fn accept_link(link: String, well_formed: bool) -> (resolved: Resolved)
    ensures
        resolved_view(resolved) == checked_link(link@, well_formed),
{
    if !well_formed {
        return Err((Fail::InvalidLink, NotifyAction::Send(Reply::notice(INVALID_LINK_NOTICE))));
    }
    Ok(link)
}

/// The link itself where it parses as an absolute URL; else `InvalidLink`,
/// with the notice for the user.
pub fn get_link_from_link(link: String) -> (resolved: Resolved)
    ensures
        resolved_view(resolved) == checked_link(link@, parses_as_url(link@)),
{
    let well_formed = parse_url(link.as_str());
    accept_link(link, well_formed)
}

/// The address of the attachment, unless it declares a content type that
/// does not begin with `image/`; then `InvalidAttachment`, with the notice
/// for the user.
pub fn get_link_from_attachment(attachment: Attachment) -> (resolved: Resolved)
    ensures
        resolved_view(resolved) == checked_attachment(attachment@),
{
    let Attachment { url, content_type } = attachment;
    if let Some(content_type) = content_type {
        if !starts_with(content_type.as_str(), IMAGE_TYPE_PREFIX) {
            return Err(
                (
                    Fail::InvalidAttachment,
                    NotifyAction::Send(Reply::notice(INVALID_ATTACHMENT_NOTICE)),
                ),
            );
        }
    }
    Ok(url)
}

/// The image that a command refers to: the link where one was given, else
/// the attachment. Where neither was given the result is
/// `NoReferenceProvided` without a notice: telling the user of that is
/// the caller's part.
pub fn get_link(link: &Option<String>, attachment: &Option<Attachment>) -> (found: Resolved)
    ensures
        resolved_view(found) == resolved(link.deep_view(), attachment.deep_view()),
{
    if let Some(link) = link {
        get_link_from_link(link.clone())
    } else if let Some(attachment) = attachment {
        get_link_from_attachment(attachment.clone())
    } else {
        Err((Fail::NoReferenceProvided, NotifyAction::Nothing))
    }
}

/// The reply to a command that names no image.
pub fn respond_failure() -> (reply: Reply)
    ensures
        reply@ == ReplyView::notice(MISSING_REFERENCE_NOTICE@),
{
    Reply::notice(MISSING_REFERENCE_NOTICE)
}

/// The similarities of the items, in their order.
pub open spec fn scores(items: Seq<SauceItemView>) -> Seq<i32> {
    items.map_values(|item: SauceItemView| item.similarity)
}

/// The field that shows one match.
pub open spec fn similarity_field(item: SauceItemView) -> EmbedFieldView {
    block_field(
        SIMILARITY_LABEL@ + signed_hundredths(item.similarity as int),
        "<"@ + item.link + ">"@,
    )
}

/// The fields of the first `count` items along `order`.
pub open spec fn listed(items: Seq<SauceItemView>, order: Seq<int>, count: int) -> Seq<
    EmbedFieldView,
> {
    Seq::new(count as nat, |k: int| similarity_field(items[order[k]]))
}

/// How many matches a reply lists: all of them, up to the limit.
pub open spec fn shown(items: Seq<SauceItemView>, limit: nat) -> int {
    if limit <= items.len() {
        limit as int
    } else {
        items.len() as int
    }
}

/// The fields of the reply to a search: the link that was searched for, and
/// then either the one field that says that nothing was found, or the best
/// matches up to the limit, by falling similarity and among equals in the
/// provider's order.
pub open spec fn result_fields(result: SauceResultView, limit: nat) -> Seq<EmbedFieldView> {
    let header = block_field(ORIGINAL_LINK@, result.original_url);
    if result.items.len() == 0 {
        seq![
            header,
            block_field(
                NO_RESULTS@,
                NO_RESULTS_TEXT@,
            ),
        ]
    } else {
        seq![header] + listed(
            result.items,
            ranking(scores(result.items)),
            shown(result.items, limit),
        )
    }
}

/// The reply to a search that the backend answered.
pub open spec fn results_reply(
    result: SauceResultView,
    limit: nat,
    ephemeral: Option<bool>,
) -> ReplyView {
    ReplyView {
        embed: Some(EmbedView { fields: result_fields(result, limit), ..titled(RESULTS_TITLE@) }),
        ephemeral: ephemeral == Some(true),
        ..ReplyView::empty()
    }
}

/// The reply to a search that the backend failed, with the backend's words.
pub open spec fn failure_reply(message: Seq<char>) -> ReplyView {
    ReplyView::notice(FAILURE_PREFIX@ + message)
}

/// The reply to a search, whatever it came to.
pub open spec fn response(
    outcome: Result<SauceResultView, Seq<char>>,
    limit: nat,
    ephemeral: Option<bool>,
) -> ReplyView {
    match outcome {
        Ok(result) => results_reply(result, limit, ephemeral),
        Err(message) => failure_reply(message),
    }
}

pub open spec fn outcome_view(outcome: Result<SauceResult, String>) -> Result<
    SauceResultView,
    Seq<char>,
> {
    match outcome {
        Ok(result) => Ok(result@),
        Err(message) => Err(message@),
    }
}

/// The field that shows one match: its similarity with two decimals, and its
/// link between angle brackets.
pub fn render_item(item: &SauceItem) -> (field: EmbedField)
    ensures
        field@ == similarity_field(item@),
{
    let mut name = String::from_str(SIMILARITY_LABEL);
    push_signed_hundredths(&mut name, item.similarity);
    let mut value = String::from_str("<");
    value.append(item.link.as_str());
    value.append(">");
    EmbedField { name, value, inline: false }
}

/// The similarities of the items, in their order.
fn similarities(items: &Vec<SauceItem>) -> (found: Vec<i32>)
    ensures
        found@ == scores(items.deep_view()),
{
    let mut found: Vec<i32> = Vec::new();
    let mut i: usize = 0;
    while i < items.len()
        invariant
            i <= items.len(),
            found.len() == i,
            forall|j: int| 0 <= j < i ==> found[j] == items[j].similarity,
        decreases items.len() - i,
    {
        found.push(items[i].similarity);
        i += 1;
    }
    assert(found@ =~= scores(items.deep_view()));
    found
}

/// The embed that shows what a search found, with at most `limit` matches.
pub fn render_results(result: &SauceResult, limit: u8) -> (embed: Embed)
    ensures
        embed@ == (EmbedView { fields: result_fields(result@, limit as nat), ..titled(RESULTS_TITLE@) }),
{
    let mut embed = Embed::new(RESULTS_TITLE).field(
        EmbedField::new(ORIGINAL_LINK, result.original_url.as_str()),
    );
    let ghost header = block_field(ORIGINAL_LINK@, result.original_url@);
    assert(embed@.fields =~= seq![header]);
    if result.items.len() == 0 {
        embed = embed.field(
            EmbedField::new(
                NO_RESULTS,
                NO_RESULTS_TEXT,
            ),
        );
        assert(embed@.fields =~= result_fields(result@, limit as nat));
        return embed;
    }
    let found = similarities(&result.items);
    let order = rank(&found);
    let ghost items = result@.items;
    let ghost numbers = as_ints(order@);
    let count: usize = if (limit as usize) <= result.items.len() {
        limit as usize
    } else {
        result.items.len()
    };
    let mut k: usize = 0;
    while k < count
        invariant
            k <= count,
            count <= result.items.len(),
            order.len() == result.items.len(),
            items == result@.items,
            numbers == as_ints(order@),
            is_ranking(scores(items), numbers),
            embed@ == (EmbedView {
                fields: seq![header] + listed(items, numbers, k as int),
                ..titled(RESULTS_TITLE@)
            }),
        decreases count - k,
    {
        assert(numbers[k as int] == order[k as int] as int);
        assert(0 <= numbers[k as int] < items.len());
        let item = &result.items[order[k]];
        let ghost shown_before = seq![header] + listed(items, numbers, k as int);
        embed = embed.field(render_item(item));
        assert(item@ == items[numbers[k as int]]);
        assert(shown_before.push(similarity_field(item@)) =~= seq![header] + listed(
            items,
            numbers,
            k + 1,
        ));
        k += 1;
    }
    embed
}

/// The reply to a search. Where the backend answered, an embed that names the
/// link searched for and lists the best matches, as many as the settings
/// allow, or says that there are none; it is visible to all unless
/// `ephemeral` asks otherwise. Where the backend failed, a notice for the user
/// alone that carries the backend's message.
pub fn respond(outcome: Result<SauceResult, String>, cfg: &Config, ephemeral: Option<bool>) -> (reply:
    Reply)
    ensures
        reply@ == response(outcome_view(outcome), cfg@.settings.top_links, ephemeral),
{
    match outcome {
        Ok(result) => {
            let embed = render_results(&result, cfg.settings().top_links());
            let mut reply = Reply::new().embed(embed);
            if let Some(hidden) = ephemeral {
                if hidden {
                    reply = reply.ephemeral();
                }
            }
            reply
        },
        Err(message) => {
            let mut content = String::from_str(FAILURE_PREFIX);
            content.append(message.as_str());
            Reply::new().ephemeral().content(content)
        },
    }
}

} // verus!
