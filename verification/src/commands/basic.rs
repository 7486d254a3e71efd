//! The commands that only tell the user something: `help`, `issue`,
//! `support` and `invite`. Each answers with one message for the user alone.

use crate::commands::ApplicationCommandData;
use crate::commands::CommandKind;
use crate::config::Config;
use crate::reply::block_field;
use crate::reply::titled;
use crate::reply::Embed;
use crate::reply::EmbedField;
use crate::reply::EmbedFieldView;
use crate::reply::EmbedView;
use crate::reply::Reply;
use crate::reply::ReplyView;
use crate::text::decimal;
use crate::text::push_decimal;
use vstd::prelude::*;

verus! {

pub const HELP_TITLE: &'static str = "Help";

pub const HELP_INTRODUCTION: &'static str =
    "All commands are now slash command based. Some commands might take a few seconds due to calling a potentially slow web service.\nSettings:\n- Links Displayed: up to ";

pub const HELP_SAUCENAO: &'static str = "/saucenao <link>";

pub const HELP_SAUCENAO_TEXT: &'static str =
    "Takes a link and uses the saucenao backend to get results. Fast, but has rate limits. Checks more locations.\n\nRate limits:\n- 6 searches in 30 seconds\n- 200 searches in 24 hours\nThese apply globally across the bot.";

pub const HELP_IQDB: &'static str = "/iqdb <link>";

pub const HELP_IQDB_TEXT: &'static str =
    "Takes a link and uses the iqdb backend to get results. Slower, without any rate limits, checks more locations.";

pub const HELP_FUZZYSEARCH: &'static str = "/fuzzysearch <link>";

pub const HELP_FUZZYSEARCH_TEXT: &'static str =
    "Takes a link and uses the fuzzysearch backend to get results. Fast, has rate limits\nBetter for furry/brony art than anything else.";

pub const HELP_INVITE: &'static str = "/invite";

pub const HELP_INVITE_TEXT: &'static str = "Provides an invite link for the bot.";

pub const HELP_ISSUE: &'static str = "/issue";

pub const HELP_ISSUE_TEXT: &'static str =
    "Provides a link to the github to report issues with the bot.";

pub const HELP_SUPPORT: &'static str = "/support";

pub const HELP_SUPPORT_TEXT: &'static str =
    "Provides a link to ways to support the bot.\nThis will help keep the VPS up and running, as well as increase SauceNao rate limits.";

pub const HELP_HELP: &'static str = "/help";

pub const HELP_HELP_TEXT: &'static str = "Provides help about the bot.";

pub const ISSUE_TEXT: &'static str =
    "To report an issue, please go to <https://github.com/lyssieth/sauce-bot/issues>";

pub const SUPPORT_TITLE: &'static str = "Support";

pub const SUPPORT_INTRODUCTION: &'static str =
    "All the ways to support SauceBot.\n\nAny money gained through this will first go towards the VPS and SauceNao rate limits, after which it will go into my pocket.";

pub const SUPPORT_PATREON: &'static str = "Patreon";

pub const SUPPORT_PATREON_TEXT: &'static str = "Monthly only. [Link](https://patreon.com/lyssieth)";

pub const SUPPORT_GITHUB: &'static str = "Github Sponsor";

pub const SUPPORT_GITHUB_TEXT: &'static str =
    "Both one-time and monthly. [Link](https://github.com/sponsors/lyssieth)";

pub const INVITE_TEXT: &'static str =
    "To invite the bot to your server, please go to <https://discord.com/oauth2/authorize?client_id=778822593293058051&scope=bot%20applications.commands&permissions=19456>";

/// The declarations of the four commands.
pub fn get() -> (declared: Vec<ApplicationCommandData>)
    ensures
        declared.deep_view() == seq![
            CommandKind::Help.declared(),
            CommandKind::Issue.declared(),
            CommandKind::Support.declared(),
            CommandKind::Invite.declared(),
        ],
{
    let mut declared: Vec<ApplicationCommandData> = Vec::new();
    declared.push(HelpCommand::create_command());
    declared.push(IssueCommand::create_command());
    declared.push(SupportCommand::create_command());
    declared.push(InviteCommand::create_command());
    assert(declared.deep_view() =~= seq![
        CommandKind::Help.declared(),
        CommandKind::Issue.declared(),
        CommandKind::Support.declared(),
        CommandKind::Invite.declared(),
    ]);
    declared
}

/// The fields of the help: one for each command.
pub open spec fn help_fields() -> Seq<EmbedFieldView> {
    seq![
        block_field(HELP_SAUCENAO@, HELP_SAUCENAO_TEXT@),
        block_field(HELP_IQDB@, HELP_IQDB_TEXT@),
        block_field(HELP_FUZZYSEARCH@, HELP_FUZZYSEARCH_TEXT@),
        block_field(HELP_INVITE@, HELP_INVITE_TEXT@),
        block_field(HELP_ISSUE@, HELP_ISSUE_TEXT@),
        block_field(HELP_SUPPORT@, HELP_SUPPORT_TEXT@),
        block_field(HELP_HELP@, HELP_HELP_TEXT@),
    ]
}

/// A reply that is one embed, for the user alone.
pub open spec fn card(embed: EmbedView) -> ReplyView {
    ReplyView { embed: Some(embed), ephemeral: true, ..ReplyView::empty() }
}

/// The help, where replies list up to `top_links` matches.
pub open spec fn help(top_links: nat) -> ReplyView {
    card(
        EmbedView {
            description: Some(HELP_INTRODUCTION@ + decimal(top_links)),
            fields: help_fields(),
            ..titled(HELP_TITLE@)
        },
    )
}

/// The ways to support the bot.
pub open spec fn support() -> ReplyView {
    card(
        EmbedView {
            description: Some(SUPPORT_INTRODUCTION@),
            fields: seq![
                block_field(SUPPORT_PATREON@, SUPPORT_PATREON_TEXT@),
                block_field(SUPPORT_GITHUB@, SUPPORT_GITHUB_TEXT@),
            ],
            ..titled(SUPPORT_TITLE@)
        },
    )
}

/// The `help` command.
#[derive(Debug, Clone, Copy)]
pub struct HelpCommand;

impl HelpCommand {
    /// The command as it is declared to the platform.
    pub fn create_command() -> (data: ApplicationCommandData)
        ensures
            data@ == CommandKind::Help.declared(),
    {
        CommandKind::Help.create_command()
    }

    /// The help: what the bot is about, how many matches the settings let a
    /// reply list, and a field for each command.
    pub fn execute(&self, cfg: &Config) -> (reply: Reply)
        ensures
            reply@ == help(cfg@.settings.top_links),
    {
        let mut introduction = String::from_str(HELP_INTRODUCTION);
        push_decimal(&mut introduction, cfg.settings().top_links() as u64);
        let embed = Embed::new(HELP_TITLE).description(introduction).field(
            EmbedField::new(HELP_SAUCENAO, HELP_SAUCENAO_TEXT),
        ).field(EmbedField::new(HELP_IQDB, HELP_IQDB_TEXT)).field(
            EmbedField::new(HELP_FUZZYSEARCH, HELP_FUZZYSEARCH_TEXT),
        ).field(EmbedField::new(HELP_INVITE, HELP_INVITE_TEXT)).field(
            EmbedField::new(HELP_ISSUE, HELP_ISSUE_TEXT),
        ).field(EmbedField::new(HELP_SUPPORT, HELP_SUPPORT_TEXT)).field(
            EmbedField::new(HELP_HELP, HELP_HELP_TEXT),
        );
        assert(embed@.fields =~= help_fields());
        Reply::new().embed(embed).ephemeral()
    }
}

/// The `issue` command.
#[derive(Debug, Clone, Copy)]
pub struct IssueCommand;

impl IssueCommand {
    /// The command as it is declared to the platform.
    pub fn create_command() -> (data: ApplicationCommandData)
        ensures
            data@ == CommandKind::Issue.declared(),
    {
        CommandKind::Issue.create_command()
    }

    /// Where to report an issue.
    pub fn execute(&self) -> (reply: Reply)
        ensures
            reply@ == ReplyView::notice(ISSUE_TEXT@),
    {
        Reply::notice(ISSUE_TEXT)
    }
}

/// The `support` command.
#[derive(Debug, Clone, Copy)]
pub struct SupportCommand;

impl SupportCommand {
    /// The command as it is declared to the platform.
    pub fn create_command() -> (data: ApplicationCommandData)
        ensures
            data@ == CommandKind::Support.declared(),
    {
        CommandKind::Support.create_command()
    }

    /// The ways to support the bot.
    pub fn execute(&self) -> (reply: Reply)
        ensures
            reply@ == support(),
    {
        let embed = Embed::new(SUPPORT_TITLE).description(
            String::from_str(SUPPORT_INTRODUCTION),
        ).field(EmbedField::new(SUPPORT_PATREON, SUPPORT_PATREON_TEXT)).field(
            EmbedField::new(SUPPORT_GITHUB, SUPPORT_GITHUB_TEXT),
        );
        assert(embed@.fields =~= support()
            .embed->0.fields);
        Reply::new().embed(embed).ephemeral()
    }
}

/// The `invite` command.
#[derive(Debug, Clone, Copy)]
pub struct InviteCommand;

impl InviteCommand {
    /// The command as it is declared to the platform.
    pub fn create_command() -> (data: ApplicationCommandData)
        ensures
            data@ == CommandKind::Invite.declared(),
    {
        CommandKind::Invite.create_command()
    }

    /// Where to invite the bot from.
    pub fn execute(&self) -> (reply: Reply)
        ensures
            reply@ == ReplyView::notice(INVITE_TEXT@),
    {
        Reply::notice(INVITE_TEXT)
    }
}

} // verus!
