//! What comes in from the platform, and which command it is for.

use crate::commands::named;
use crate::commands::CommandKind;
use crate::error::Fail;
use crate::handle::Handle;
use crate::handle::HandleView;
use crate::handle::InteractionKind;
use vstd::prelude::*;

verus! {

/// How a command was invoked.
#[derive(Debug, Clone, Copy, PartialEq, Eq)]
pub enum CommandType {
    /// Typed as a slash command.
    ChatInput,
    /// Picked from the menu of a user.
    User,
    /// Picked from the menu of a message.
    Message,
    /// Invoked in a way that has no name here; the number is the platform's.
    Unknown(u8),
}

/// What an interaction carries.
#[derive(Debug, Clone, PartialEq, Eq)]
pub enum InteractionData {
    /// The invocation of a command: its id, how it was invoked, its name.
    ApplicationCommand { id: u64, kind: CommandType, name: String },
    /// The use of a component of a message.
    MessageComponent,
    /// The submission of a modal.
    ModalSubmit,
}

pub enum InteractionDataView {
    ApplicationCommand { id: u64, kind: CommandType, name: Seq<char> },
    MessageComponent,
    ModalSubmit,
}

impl View for InteractionData {
    type V = InteractionDataView;

    open spec fn view(&self) -> InteractionDataView {
        match self {
            InteractionData::ApplicationCommand { id, kind, name } => {
                InteractionDataView::ApplicationCommand { id: *id, kind: *kind, name: name@ }
            },
            InteractionData::MessageComponent => InteractionDataView::MessageComponent,
            InteractionData::ModalSubmit => InteractionDataView::ModalSubmit,
        }
    }
}

impl DeepView for InteractionData {
    type V = InteractionDataView;

    open spec fn deep_view(&self) -> InteractionDataView {
        self@
    }
}

/// One interaction, as the platform delivered it.
#[derive(Debug, Clone, PartialEq, Eq)]
pub struct Interaction {
    pub id: u64,
    pub token: String,
    pub kind: InteractionKind,
    /// The permissions of the bot where the interaction happened, if the
    /// platform said.
    pub app_permissions: Option<u64>,
    pub data: Option<InteractionData>,
}

pub struct InteractionView {
    pub id: u64,
    pub token: Seq<char>,
    pub kind: InteractionKind,
    pub app_permissions: Option<u64>,
    pub data: Option<InteractionDataView>,
}

impl View for Interaction {
    type V = InteractionView;

    open spec fn view(&self) -> InteractionView {
        InteractionView {
            id: self.id,
            token: self.token@,
            kind: self.kind,
            app_permissions: self.app_permissions,
            data: self.data.deep_view(),
        }
    }
}

impl Interaction {
    /// A handle for this interaction, which nothing has answered yet.
    pub fn handle(&self) -> (handle: Handle)
        ensures
            handle@ == HandleView::fresh(self.id, self.token@, self.kind, self.app_permissions),
    {
        Handle::new(self.id, self.token.clone(), self.kind, self.app_permissions)
    }
}

/// One invocation of a command.
#[derive(Debug, Clone, PartialEq, Eq)]
pub struct Command {
    /// The id of the command.
    pub id: u64,
    pub interaction: Interaction,
    pub interaction_id: u64,
    pub name: String,
    pub token: String,
}

pub struct CommandView {
    pub id: u64,
    pub interaction: InteractionView,
    pub interaction_id: u64,
    pub name: Seq<char>,
    pub token: Seq<char>,
}

impl View for Command {
    type V = CommandView;

    open spec fn view(&self) -> CommandView {
        CommandView {
            id: self.id,
            interaction: self.interaction@,
            interaction_id: self.interaction_id,
            name: self.name@,
            token: self.token@,
        }
    }
}

/// What is to be done about an interaction.
#[derive(Debug, Clone, PartialEq, Eq)]
pub enum Dispatch {
    /// Nothing: it is no command, or one picked from a menu.
    Ignored,
    /// Nothing but a note in the log: no command bears the name.
    Unhandled(Command),
    /// The command is to run.
    Run(CommandKind, Command),
}

pub enum DispatchView {
    Ignored,
    Unhandled(CommandView),
    Run(CommandKind, CommandView),
}

impl View for Dispatch {
    type V = DispatchView;

    open spec fn view(&self) -> DispatchView {
        match self {
            Dispatch::Ignored => DispatchView::Ignored,
            Dispatch::Unhandled(command) => DispatchView::Unhandled(command@),
            Dispatch::Run(kind, command) => DispatchView::Run(*kind, command@),
        }
    }
}

/// The invocation that an interaction carries, if it is a command and was
/// not picked from a menu.
pub open spec fn invoked(interaction: InteractionView) -> Option<CommandView> {
    if interaction.kind != InteractionKind::ApplicationCommand {
        None
    } else {
        match interaction.data {
            Some(InteractionDataView::ApplicationCommand { id, kind, name }) => {
                if kind is User || kind is Message {
                    None
                } else {
                    Some(
                        CommandView {
                            id,
                            interaction,
                            interaction_id: interaction.id,
                            name,
                            token: interaction.token,
                        },
                    )
                }
            },
            _ => None,
        }
    }
}

/// What is to be done about an interaction: the command of its name is to
/// run; one whose name no command bears is dropped; anything that is no
/// command, or was picked from a menu, is ignored.
pub open spec fn dispatched(interaction: InteractionView) -> DispatchView {
    match invoked(interaction) {
        None => DispatchView::Ignored,
        Some(command) => match named(command.name) {
            Some(kind) => DispatchView::Run(kind, command),
            None => DispatchView::Unhandled(command),
        },
    }
}

/// Finds the command that an interaction is for.
pub fn interaction_create(interaction: Interaction) -> (dispatch: Dispatch)
    ensures
        dispatch@ == dispatched(interaction@),
{
    match interaction.kind {
        InteractionKind::ApplicationCommand => {},
        _ => {
            return Dispatch::Ignored;
        },
    }
    let (id, name) = match &interaction.data {
        Some(InteractionData::ApplicationCommand { id, kind, name }) => {
            match kind {
                CommandType::User | CommandType::Message => {
                    return Dispatch::Ignored;
                },
                _ => {},
            }
            (*id, name.clone())
        },
        _ => {
            return Dispatch::Ignored;
        },
    };
    let token = interaction.token.clone();
    let interaction_id = interaction.id;
    let found = CommandKind::from_name(name.as_str());
    let command = Command { id, interaction, interaction_id, name, token };
    match found {
        Some(kind) => Dispatch::Run(kind, command),
        None => Dispatch::Unhandled(command),
    }
}

/// How loud a line of the log is.
#[derive(Debug, Clone, Copy, PartialEq, Eq, Structural)]
pub enum Level {
    Debug,
    Info,
    Error,
}

/// A line for the log.
#[derive(Debug, Clone, PartialEq, Eq)]
pub struct LogLine {
    pub level: Level,
    pub message: String,
    /// The failure that the line is about, if it is about one.
    pub failure: Option<Fail>,
}

pub struct LogLineView {
    pub level: Level,
    pub message: Seq<char>,
    pub failure: Option<Fail>,
}

impl View for LogLine {
    type V = LogLineView;

    open spec fn view(&self) -> LogLineView {
        LogLineView { level: self.level, message: self.message@, failure: self.failure }
    }
}

/// The line that goes to the log before a command runs.
pub open spec fn announced(name: Seq<char>) -> LogLineView {
    LogLineView { level: Level::Info, message: "Executing command "@ + name, failure: None }
}

/// The line that goes to the log after a command ran, however it ended.
pub open spec fn concluded(name: Seq<char>, end: Result<(), Fail>) -> LogLineView {
    match end {
        Ok(_) => LogLineView {
            level: Level::Info,
            message: "Successfully executed "@ + name,
            failure: None,
        },
        Err(fail) => LogLineView {
            level: Level::Error,
            message: "Failed to execute "@ + name,
            failure: Some(fail),
        },
    }
}

/// The line that goes to the log when no command bears the name invoked.
pub open spec fn dropped(name: Seq<char>) -> LogLineView {
    LogLineView { level: Level::Debug, message: "Unhandled interaction: "@ + name, failure: None }
}

/// The line that goes to the log before a command runs. There is one for
/// every command, and making it cannot fail.
pub fn before(cmd: &Command) -> (line: LogLine)
    ensures
        line@ == announced(cmd@.name),
{
    let mut message = String::from_str("Executing command ");
    message.append(cmd.name.as_str());
    LogLine { level: Level::Info, message, failure: None }
}

/// The line that goes to the log after a command ran. There is one for a
/// command that failed as for one that succeeded, and making it cannot fail.
pub fn after(cmd: &Command, res: Result<(), Fail>) -> (line: LogLine)
    ensures
        line@ == concluded(cmd@.name, res),
{
    match res {
        Err(fail) => {
            let mut message = String::from_str("Failed to execute ");
            message.append(cmd.name.as_str());
            LogLine { level: Level::Error, message, failure: Some(fail) }
        },
        Ok(_) => {
            let mut message = String::from_str("Successfully executed ");
            message.append(cmd.name.as_str());
            LogLine { level: Level::Info, message, failure: None }
        },
    }
}

/// The line that goes to the log when no command bears the name invoked.
pub fn unhandled(cmd: &Command) -> (line: LogLine)
    ensures
        line@ == dropped(cmd@.name),
{
    let mut message = String::from_str("Unhandled interaction: ");
    message.append(cmd.name.as_str());
    LogLine { level: Level::Debug, message, failure: None }
}

} // verus!
