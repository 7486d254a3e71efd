//! The commands of the bot: what each is called, what it takes, and which
//! name stands for which.

pub mod basic;
pub mod fuzzysearch;
pub mod iqdb;
pub mod lookup;
pub mod saucenao;

use crate::text::same_text;
use vstd::prelude::*;

verus! {

pub const HELP_DESCRIPTION: &'static str =
    "Provides help for SauceBot";

pub const ISSUE_DESCRIPTION: &'static str =
    "Provides information about how to report an issue";

pub const SUPPORT_DESCRIPTION: &'static str =
    "Provides information about how to support the continued work of SauceBot";

pub const INVITE_DESCRIPTION: &'static str =
    "Provides an invite link for the bot";

pub const IQDB_DESCRIPTION: &'static str =
    "Takes a link or attachment, and uses the iqdb backend to get results.";

pub const SAUCENAO_DESCRIPTION: &'static str =
    "Takes a link or attachment, and uses the saucenao backend to get results.";

pub const FUZZYSEARCH_DESCRIPTION: &'static str =
    "Takes a link or attachment, and uses the fuzzysearch backend to get results.";

pub const LINK_OPTION: &'static str = "link";

pub const LINK_OPTION_DESCRIPTION: &'static str = "The link to search for.";

pub const ATTACHMENT_OPTION: &'static str = "attachment";

pub const ATTACHMENT_OPTION_DESCRIPTION: &'static str = "An attachment to search for";

pub const EPHEMERAL_OPTION: &'static str = "ephemeral";

pub const EPHEMERAL_OPTION_DESCRIPTION: &'static str = "Whether the message should be hidden";

/// What kind of value an option takes.
#[derive(Debug, Clone, Copy, PartialEq, Eq, Structural)]
pub enum OptionKind {
    Text,
    Attachment,
    Boolean,
}

/// One option of a command, as it is declared to the platform.
#[derive(Debug, Clone, PartialEq, Eq)]
pub struct CommandOption {
    pub name: String,
    pub description: String,
    pub kind: OptionKind,
    pub required: bool,
}

pub struct CommandOptionView {
    pub name: Seq<char>,
    pub description: Seq<char>,
    pub kind: OptionKind,
    pub required: bool,
}

impl View for CommandOption {
    type V = CommandOptionView;

    open spec fn view(&self) -> CommandOptionView {
        CommandOptionView {
            name: self.name@,
            description: self.description@,
            kind: self.kind,
            required: self.required,
        }
    }
}

impl DeepView for CommandOption {
    type V = CommandOptionView;

    open spec fn deep_view(&self) -> CommandOptionView {
        self@
    }
}

/// A command, as it is declared to the platform.
#[derive(Debug, Clone, PartialEq, Eq)]
pub struct ApplicationCommandData {
    pub name: String,
    pub description: String,
    pub options: Vec<CommandOption>,
}

pub struct ApplicationCommandDataView {
    pub name: Seq<char>,
    pub description: Seq<char>,
    pub options: Seq<CommandOptionView>,
}

impl View for ApplicationCommandData {
    type V = ApplicationCommandDataView;

    open spec fn view(&self) -> ApplicationCommandDataView {
        ApplicationCommandDataView {
            name: self.name@,
            description: self.description@,
            options: self.options.deep_view(),
        }
    }
}

impl DeepView for ApplicationCommandData {
    type V = ApplicationCommandDataView;

    open spec fn deep_view(&self) -> ApplicationCommandDataView {
        self@
    }
}

/// An option that may be left out.
pub open spec fn optional(
    name: Seq<char>,
    description: Seq<char>,
    kind: OptionKind,
) -> CommandOptionView {
    CommandOptionView { name, description, kind, required: false }
}

/// The options of a command that looks an image up.
pub open spec fn reference_options() -> Seq<CommandOptionView> {
    seq![
        optional(LINK_OPTION@, LINK_OPTION_DESCRIPTION@, OptionKind::Text),
        optional(ATTACHMENT_OPTION@, ATTACHMENT_OPTION_DESCRIPTION@, OptionKind::Attachment),
        optional(EPHEMERAL_OPTION@, EPHEMERAL_OPTION_DESCRIPTION@, OptionKind::Boolean),
    ]
}

/// The commands that the bot knows.
#[derive(Debug, Clone, Copy, PartialEq, Eq, Structural)]
pub enum CommandKind {
    Help,
    Issue,
    Support,
    Invite,
    Iqdb,
    Saucenao,
    FuzzySearch,
}

/// The commands in the order in which they are declared.
pub open spec fn table() -> Seq<CommandKind> {
    seq![
        CommandKind::Help,
        CommandKind::Issue,
        CommandKind::Support,
        CommandKind::Invite,
        CommandKind::Iqdb,
        CommandKind::Saucenao,
        CommandKind::FuzzySearch,
    ]
}

/// The command that a name stands for, if any: names match as a whole and
/// to the letter.
pub open spec fn named(name: Seq<char>) -> Option<CommandKind> {
    if name == "help"@ {
        Some(CommandKind::Help)
    } else if name == "issue"@ {
        Some(CommandKind::Issue)
    } else if name == "support"@ {
        Some(CommandKind::Support)
    } else if name == "invite"@ {
        Some(CommandKind::Invite)
    } else if name == "iqdb"@ {
        Some(CommandKind::Iqdb)
    } else if name == "saucenao"@ {
        Some(CommandKind::Saucenao)
    } else if name == "fuzzysearch"@ {
        Some(CommandKind::FuzzySearch)
    } else {
        None
    }
}

impl CommandKind {
    pub open spec fn spec_name(self) -> Seq<char> {
        match self {
            CommandKind::Help => "help"@,
            CommandKind::Issue => "issue"@,
            CommandKind::Support => "support"@,
            CommandKind::Invite => "invite"@,
            CommandKind::Iqdb => "iqdb"@,
            CommandKind::Saucenao => "saucenao"@,
            CommandKind::FuzzySearch => "fuzzysearch"@,
        }
    }

    pub open spec fn spec_description(self) -> Seq<char> {
        match self {
            CommandKind::Help => HELP_DESCRIPTION@,
            CommandKind::Issue => ISSUE_DESCRIPTION@,
            CommandKind::Support => SUPPORT_DESCRIPTION@,
            CommandKind::Invite => INVITE_DESCRIPTION@,
            CommandKind::Iqdb => IQDB_DESCRIPTION@,
            CommandKind::Saucenao => SAUCENAO_DESCRIPTION@,
            CommandKind::FuzzySearch => FUZZYSEARCH_DESCRIPTION@,
        }
    }

    /// Whether the command looks an image up, and so takes a reference to
    /// one.
    pub open spec fn spec_takes_reference(self) -> bool {
        self == CommandKind::Iqdb || self == CommandKind::Saucenao || self
            == CommandKind::FuzzySearch
    }

    /// The command as it is declared to the platform.
    pub open spec fn declared(self) -> ApplicationCommandDataView {
        ApplicationCommandDataView {
            name: self.spec_name(),
            description: self.spec_description(),
            options: if self.spec_takes_reference() {
                reference_options()
            } else {
                Seq::empty()
            },
        }
    }

    /// The name by which the command is invoked.
    pub fn name(self) -> (name: &'static str)
        ensures
            name@ == self.spec_name(),
    {
        match self {
            CommandKind::Help => "help",
            CommandKind::Issue => "issue",
            CommandKind::Support => "support",
            CommandKind::Invite => "invite",
            CommandKind::Iqdb => "iqdb",
            CommandKind::Saucenao => "saucenao",
            CommandKind::FuzzySearch => "fuzzysearch",
        }
    }

    /// What the command says of itself.
    pub fn description(self) -> (description: &'static str)
        ensures
            description@ == self.spec_description(),
    {
        match self {
            CommandKind::Help => HELP_DESCRIPTION,
            CommandKind::Issue => ISSUE_DESCRIPTION,
            CommandKind::Support => SUPPORT_DESCRIPTION,
            CommandKind::Invite => INVITE_DESCRIPTION,
            CommandKind::Iqdb => IQDB_DESCRIPTION,
            CommandKind::Saucenao => SAUCENAO_DESCRIPTION,
            CommandKind::FuzzySearch => FUZZYSEARCH_DESCRIPTION,
        }
    }

    /// Whether the command looks an image up, and so takes a reference to
    /// one.
    #[verifier::when_used_as_spec(spec_takes_reference)]
    pub fn takes_reference(self) -> (takes: bool)
        ensures
            takes == self.spec_takes_reference(),
    {
        match self {
            CommandKind::Iqdb | CommandKind::Saucenao | CommandKind::FuzzySearch => true,
            _ => false,
        }
    }

    /// The command that `name` stands for, if any.
    pub fn from_name(name: &str) -> (kind: Option<CommandKind>)
        ensures
            kind == named(name@),
    {
        if same_text(name, "help") {
            Some(CommandKind::Help)
        } else if same_text(name, "issue") {
            Some(CommandKind::Issue)
        } else if same_text(name, "support") {
            Some(CommandKind::Support)
        } else if same_text(name, "invite") {
            Some(CommandKind::Invite)
        } else if same_text(name, "iqdb") {
            Some(CommandKind::Iqdb)
        } else if same_text(name, "saucenao") {
            Some(CommandKind::Saucenao)
        } else if same_text(name, "fuzzysearch") {
            Some(CommandKind::FuzzySearch)
        } else {
            None
        }
    }

    /// The command as it is declared to the platform: its name, what it
    /// says of itself, and the three options of a lookup where it is one.
    pub fn create_command(self) -> (data: ApplicationCommandData)
        ensures
            data@ == self.declared(),
    {
        let mut options: Vec<CommandOption> = Vec::new();
        if self.takes_reference() {
            options.push(
                CommandOption {
                    name: String::from_str(LINK_OPTION),
                    description: String::from_str(LINK_OPTION_DESCRIPTION),
                    kind: OptionKind::Text,
                    required: false,
                },
            );
            options.push(
                CommandOption {
                    name: String::from_str(ATTACHMENT_OPTION),
                    description: String::from_str(ATTACHMENT_OPTION_DESCRIPTION),
                    kind: OptionKind::Attachment,
                    required: false,
                },
            );
            options.push(
                CommandOption {
                    name: String::from_str(EPHEMERAL_OPTION),
                    description: String::from_str(EPHEMERAL_OPTION_DESCRIPTION),
                    kind: OptionKind::Boolean,
                    required: false,
                },
            );
            assert(options.deep_view() =~= reference_options());
        } else {
            assert(options.deep_view() =~= Seq::empty());
        }
        ApplicationCommandData {
            name: String::from_str(self.name()),
            description: String::from_str(self.description()),
            options,
        }
    }
}

/// No two commands share a name, and a name stands for the one command
/// that bears it: the table cannot hand an invocation to the wrong command,
/// nor to two.
pub proof fn lemma_names_tell_commands_apart(a: CommandKind, b: CommandKind, name: Seq<char>)
    ensures
        a.spec_name() == b.spec_name() ==> a == b,
        named(a.spec_name()) == Some(a),
        named(name) == Some(a) <==> name == a.spec_name(),
        named(name) is None <==> forall|kind: CommandKind| name != #[trigger] kind.spec_name(),
        exists|i: int| 0 <= i < table().len() && table()[i] == a,
{
    reveal_strlit("help");
    reveal_strlit("issue");
    reveal_strlit("support");
    reveal_strlit("invite");
    reveal_strlit("iqdb");
    reveal_strlit("saucenao");
    reveal_strlit("fuzzysearch");
    assert("help"@.len() == 4 && "issue"@.len() == 5 && "support"@.len() == 7 && "invite"@.len()
        == 6 && "iqdb"@.len() == 4 && "saucenao"@.len() == 8 && "fuzzysearch"@.len() == 11);
    assert("help"@[0] == 'h' && "iqdb"@[0] == 'i');
    if named(name) is None {
        assert forall|kind: CommandKind| name != #[trigger] kind.spec_name() by {}
    } else {
        assert(name == named(name)->0.spec_name());
    }
    match a {
        CommandKind::Help => assert(table()[0] == a),
        CommandKind::Issue => assert(table()[1] == a),
        CommandKind::Support => assert(table()[2] == a),
        CommandKind::Invite => assert(table()[3] == a),
        CommandKind::Iqdb => assert(table()[4] == a),
        CommandKind::Saucenao => assert(table()[5] == a),
        CommandKind::FuzzySearch => assert(table()[6] == a),
    }
}

/// The declarations of all commands, in the order of the table.
pub fn get() -> (declared: Vec<ApplicationCommandData>)
    ensures
        declared.deep_view() == table().map_values(|kind: CommandKind| kind.declared()),
{
    let mut res: Vec<ApplicationCommandData> = Vec::new();
    let mut basic = basic::get();
    let mut iqdb = iqdb::get();
    let mut saucenao = saucenao::get();
    let mut fuzzysearch = fuzzysearch::get();
    let ghost first = basic@;
    let ghost second = iqdb@;
    let ghost third = saucenao@;
    let ghost fourth = fuzzysearch@;
    assert(first.len() == basic.deep_view().len() && second.len() == iqdb.deep_view().len()
        && third.len() == saucenao.deep_view().len() && fourth.len()
        == fuzzysearch.deep_view().len());
    assert(forall|i: int| 0 <= i < 4 ==> (#[trigger] first[i])@ == basic.deep_view()[i]);
    assert(second[0]@ == iqdb.deep_view()[0]);
    assert(third[0]@ == saucenao.deep_view()[0]);
    assert(fourth[0]@ == fuzzysearch.deep_view()[0]);
    res.append(&mut basic);
    res.append(&mut iqdb);
    res.append(&mut saucenao);
    res.append(&mut fuzzysearch);
    proof {
        let all = res.deep_view();
        let wanted = table().map_values(|kind: CommandKind| kind.declared());
        assert(res@ =~= first + second + third + fourth);
        assert(all.len() == 7);
        assert forall|i: int| 0 <= i < 7 implies all[i] == wanted[i] by {
            if i < 4 {
                assert(res@[i] == first[i]);
            } else if i == 4 {
                assert(res@[i] == second[0]);
            } else if i == 5 {
                assert(res@[i] == third[0]);
            } else {
                assert(res@[i] == fourth[0]);
            }
        }
        assert(all =~= wanted);
    }
    res
}

} // verus!
