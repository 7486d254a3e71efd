//! The response state machine of one interaction.
//!
//! The platform takes exactly one first response to an interaction (a
//! message, a deferral, autocomplete choices or a modal) and after it any
//! number of followups and updates. A `Handle` keeps track of where an
//! interaction stands. Each operation names the platform call that is due;
//! the caller makes the call and, when it succeeded, hands its kind and its
//! outcome to `Handle::record`.

use crate::error::Fail;
use crate::reply::Embed;
use crate::reply::EmbedView;
use crate::reply::Reply;
use crate::reply::ReplyView;
use vstd::prelude::*;

verus! {

/// Permissions of a handle whose interaction did not say which it has: all.
pub const ALL_PERMISSIONS: u64 = 0xffff_ffff_ffff_ffff;

/// What kind of interaction the platform delivered.
#[derive(Debug, Clone, Copy, PartialEq, Eq, Structural)]
pub enum InteractionKind {
    Ping,
    ApplicationCommand,
    MessageComponent,
    ApplicationCommandAutocomplete,
    ModalSubmit,
}

/// Where an interaction stands.
#[derive(Debug, Clone, Copy, PartialEq, Eq)]
pub enum ResponseState {
    /// No first response has been made.
    Unresponded,
    /// The first response has been made; no later message is known.
    Responded,
    /// The first response has been made, and this is the id of the last
    /// message that a reply created or fetched.
    Tracking(u64),
}

/// An error to show to the user.
#[derive(Debug, Clone, Copy, PartialEq, Eq)]
pub enum UserError {
    /// Nothing is to be shown.
    Ignore,
    /// A fault of the bot.
    Internal,
    /// The bot lacks these permissions, where they are known.
    MissingPermissions(Option<u64>),
}

/// Who sees the message that follows a deferral.
#[derive(Debug, Clone, Copy, PartialEq, Eq, Structural)]
pub enum DeferVisibility {
    Ephemeral,
    Visible,
}

/// The two kinds of first response that carry a message.
#[derive(Debug, Clone, Copy, PartialEq, Eq, Structural)]
pub enum ResponseKind {
    /// A new message in the channel.
    ChannelMessageWithSource,
    /// An edit of the message that the component belongs to.
    UpdateMessage,
}

/// What a platform call is to the state of an interaction.
#[derive(Debug, Clone, Copy, PartialEq, Eq, Structural)]
pub enum CallKind {
    /// The first response: a message, a deferral, choices or a modal.
    FirstResponse,
    /// A new message after the first response.
    Followup,
    /// An edit of the first response.
    UpdateResponse,
    /// An edit of an earlier followup.
    UpdateFollowup,
}

/// One choice offered while the user types an option.
#[derive(Debug, Clone, PartialEq, Eq)]
pub struct Choice {
    pub name: String,
    pub value: String,
}

pub struct ChoiceView {
    pub name: Seq<char>,
    pub value: Seq<char>,
}

impl View for Choice {
    type V = ChoiceView;

    open spec fn view(&self) -> ChoiceView {
        ChoiceView { name: self.name@, value: self.value@ }
    }
}

impl DeepView for Choice {
    type V = ChoiceView;

    open spec fn deep_view(&self) -> ChoiceView {
        self@
    }
}

/// A text box of a modal.
#[derive(Debug, Clone, PartialEq, Eq)]
pub struct TextInput {
    pub custom_id: String,
    pub label: String,
    pub paragraph: bool,
    pub required: bool,
}

pub struct TextInputView {
    pub custom_id: Seq<char>,
    pub label: Seq<char>,
    pub paragraph: bool,
    pub required: bool,
}

impl View for TextInput {
    type V = TextInputView;

    open spec fn view(&self) -> TextInputView {
        TextInputView {
            custom_id: self.custom_id@,
            label: self.label@,
            paragraph: self.paragraph,
            required: self.required,
        }
    }
}

impl DeepView for TextInput {
    type V = TextInputView;

    open spec fn deep_view(&self) -> TextInputView {
        self@
    }
}

/// A call to the platform's interaction API, with what it carries.
#[allow(inconsistent_fields)]
#[derive(Debug, Clone, PartialEq, Eq)]
pub enum PlatformCall {
    /// The first response, as a message.
    CreateResponse { kind: ResponseKind, content: String, embed: Option<Embed>, ephemeral: bool },
    /// The first response, as a promise of a message to come.
    Defer { ephemeral: bool },
    /// The first response, as choices for an option being typed.
    Autocomplete { choices: Vec<Choice> },
    /// The first response, as a modal. Each row holds text boxes.
    Modal { custom_id: String, title: String, rows: Vec<Vec<TextInput>> },
    /// A new message after the first response.
    CreateFollowup { content: Option<String>, embed: Option<Embed>, ephemeral: bool },
    /// An edit of the first response.
    UpdateResponse { content: Option<String>, embed: Option<Embed> },
    /// An edit of an earlier followup.
    UpdateFollowup { message_id: u64, content: Option<String>, embed: Option<Embed> },
}

#[allow(inconsistent_fields)]
pub enum PlatformCallView {
    CreateResponse {
        kind: ResponseKind,
        content: Seq<char>,
        embed: Option<EmbedView>,
        ephemeral: bool,
    },
    Defer { ephemeral: bool },
    Autocomplete { choices: Seq<ChoiceView> },
    Modal { custom_id: Seq<char>, title: Seq<char>, rows: Seq<Seq<TextInputView>> },
    CreateFollowup { content: Option<Seq<char>>, embed: Option<EmbedView>, ephemeral: bool },
    UpdateResponse { content: Option<Seq<char>>, embed: Option<EmbedView> },
    UpdateFollowup { message_id: u64, content: Option<Seq<char>>, embed: Option<EmbedView> },
}

impl View for PlatformCall {
    type V = PlatformCallView;

    open spec fn view(&self) -> PlatformCallView {
        match self {
            PlatformCall::CreateResponse { kind, content, embed, ephemeral } => {
                PlatformCallView::CreateResponse {
                    kind: *kind,
                    content: content@,
                    embed: embed.deep_view(),
                    ephemeral: *ephemeral,
                }
            },
            PlatformCall::Defer { ephemeral } => PlatformCallView::Defer { ephemeral: *ephemeral },
            PlatformCall::Autocomplete { choices } => PlatformCallView::Autocomplete {
                choices: choices.deep_view(),
            },
            PlatformCall::Modal { custom_id, title, rows } => PlatformCallView::Modal {
                custom_id: custom_id@,
                title: title@,
                rows: rows.deep_view(),
            },
            PlatformCall::CreateFollowup { content, embed, ephemeral } => {
                PlatformCallView::CreateFollowup {
                    content: content.deep_view(),
                    embed: embed.deep_view(),
                    ephemeral: *ephemeral,
                }
            },
            PlatformCall::UpdateResponse { content, embed } => PlatformCallView::UpdateResponse {
                content: content.deep_view(),
                embed: embed.deep_view(),
            },
            PlatformCall::UpdateFollowup { message_id, content, embed } => {
                PlatformCallView::UpdateFollowup {
                    message_id: *message_id,
                    content: content.deep_view(),
                    embed: embed.deep_view(),
                }
            },
        }
    }
}

impl DeepView for PlatformCall {
    type V = PlatformCallView;

    open spec fn deep_view(&self) -> PlatformCallView {
        self@
    }
}

/// What an operation that may refuse came to, with the call seen as its view.
pub open spec fn outcome_view(outcome: Result<PlatformCall, Fail>) -> Result<PlatformCallView, Fail> {
    match outcome {
        Ok(call) => Ok(call@),
        Err(fail) => Err(fail),
    }
}

impl PlatformCallView {
    pub open spec fn kind(self) -> CallKind {
        match self {
            PlatformCallView::CreateFollowup { .. } => CallKind::Followup,
            PlatformCallView::UpdateResponse { .. } => CallKind::UpdateResponse,
            PlatformCallView::UpdateFollowup { .. } => CallKind::UpdateFollowup,
            _ => CallKind::FirstResponse,
        }
    }

    /// The call is one of the four first responses.
    pub open spec fn is_first_response(self) -> bool {
        self.kind() == CallKind::FirstResponse
    }
}

impl PlatformCall {
    /// What the call is to the state of its interaction.
    pub fn kind(&self) -> (kind: CallKind)
        ensures
            kind == self@.kind(),
    {
        match self {
            PlatformCall::CreateFollowup { .. } => CallKind::Followup,
            PlatformCall::UpdateResponse { .. } => CallKind::UpdateResponse,
            PlatformCall::UpdateFollowup { .. } => CallKind::UpdateFollowup,
            _ => CallKind::FirstResponse,
        }
    }
}

/// The text of a message, where there is any.
pub open spec fn text_if_any(content: Seq<char>) -> Option<Seq<char>> {
    if content.len() == 0 {
        None
    } else {
        Some(content)
    }
}

/// The permissions of `required` that `granted` lacks.
pub open spec fn missing_permissions(required: u64, granted: u64) -> u64 {
    required & !granted
}

/// What a handle is, mathematically.
pub struct HandleView {
    pub id: u64,
    pub token: Seq<char>,
    pub kind: InteractionKind,
    pub permissions: u64,
    pub state: ResponseState,
}

impl HandleView {
    /// The handle of an interaction that nothing has answered yet.
    pub open spec fn fresh(
        id: u64,
        token: Seq<char>,
        kind: InteractionKind,
        permissions: Option<u64>,
    ) -> HandleView {
        HandleView {
            id,
            token,
            kind,
            permissions: match permissions {
                Some(granted) => granted,
                None => ALL_PERMISSIONS,
            },
            state: ResponseState::Unresponded,
        }
    }

    pub open spec fn responded(self) -> bool {
        !(self.state is Unresponded)
    }

    pub open spec fn last_message_id(self) -> Option<u64> {
        match self.state {
            ResponseState::Tracking(id) => Some(id),
            _ => None,
        }
    }

    /// The call by which `reply` travels.
    pub open spec fn reply(self, reply: ReplyView) -> PlatformCallView {
        match self.state {
            ResponseState::Unresponded => PlatformCallView::CreateResponse {
                kind: if reply.update_last && self.kind == InteractionKind::MessageComponent {
                    ResponseKind::UpdateMessage
                } else {
                    ResponseKind::ChannelMessageWithSource
                },
                content: reply.content,
                embed: reply.embed,
                ephemeral: reply.ephemeral,
            },
            ResponseState::Responded => if reply.update_last {
                PlatformCallView::UpdateResponse {
                    content: text_if_any(reply.content),
                    embed: reply.embed,
                }
            } else {
                PlatformCallView::CreateFollowup {
                    content: text_if_any(reply.content),
                    embed: reply.embed,
                    ephemeral: reply.ephemeral,
                }
            },
            ResponseState::Tracking(id) => if reply.update_last {
                PlatformCallView::UpdateFollowup {
                    message_id: id,
                    content: text_if_any(reply.content),
                    embed: reply.embed,
                }
            } else {
                PlatformCallView::CreateFollowup {
                    content: text_if_any(reply.content),
                    embed: reply.embed,
                    ephemeral: reply.ephemeral,
                }
            },
        }
    }

    /// The call that a first response other than a message makes, or the
    /// refusal where the interaction has been responded to.
    pub open spec fn first_response(self, call: PlatformCallView) -> Result<
        PlatformCallView,
        Fail,
    > {
        if self.responded() {
            Err(Fail::AlreadyResponded)
        } else {
            Ok(call)
        }
    }

    pub open spec fn defer(self, visibility: DeferVisibility) -> Result<PlatformCallView, Fail> {
        self.first_response(
            PlatformCallView::Defer { ephemeral: visibility == DeferVisibility::Ephemeral },
        )
    }

    pub open spec fn autocomplete(self, choices: Seq<ChoiceView>) -> Result<
        PlatformCallView,
        Fail,
    > {
        self.first_response(PlatformCallView::Autocomplete { choices })
    }

    pub open spec fn modal(
        self,
        custom_id: Seq<char>,
        title: Seq<char>,
        text_inputs: Seq<TextInputView>,
    ) -> Result<PlatformCallView, Fail> {
        self.first_response(
            PlatformCallView::Modal {
                custom_id,
                title,
                rows: Seq::new(text_inputs.len(), |i: int| seq![text_inputs[i]]),
            },
        )
    }

    pub open spec fn check_permissions(self, required: u64) -> Result<(), UserError> {
        let missing = missing_permissions(required, self.permissions);
        if missing != 0 {
            Err(UserError::MissingPermissions(Some(missing)))
        } else {
            Ok(())
        }
    }

    /// The state after a call of kind `call` succeeded. `message` is the id
    /// of the message that the platform handed back, where the call hands
    /// one back.
    pub open spec fn after(self, call: CallKind, message: Option<u64>) -> HandleView {
        HandleView {
            state: match call {
                CallKind::Followup | CallKind::UpdateResponse => match message {
                    Some(id) => ResponseState::Tracking(id),
                    None => self.state,
                },
                CallKind::UpdateFollowup => self.state,
                CallKind::FirstResponse => match self.state {
                    ResponseState::Unresponded => ResponseState::Responded,
                    _ => self.state,
                },
            },
            ..self
        }
    }

    /// The message that a reply hands to its caller once its call succeeded.
    pub open spec fn handed_back(call: CallKind, message: Option<u64>) -> Option<u64> {
        match call {
            CallKind::Followup | CallKind::UpdateResponse => message,
            _ => None,
        }
    }
}

/// Once an interaction has been responded to, no call that succeeds takes
/// that back.
pub proof fn lemma_responded_for_good(h: HandleView, call: CallKind, message: Option<u64>)
    requires
        h.responded(),
    ensures
        h.after(call, message).responded(),
{
}

/// An interaction has one first response. Until it is made, a reply is a
/// first response and a deferral, choices and a modal are granted, and any of
/// these, once it succeeded, leaves the interaction responded to. From then on
/// a reply is a followup or an edit, and the other three are refused with
/// `AlreadyResponded`.
pub proof fn lemma_single_first_response(
    h: HandleView,
    reply: ReplyView,
    visibility: DeferVisibility,
    choices: Seq<ChoiceView>,
    custom_id: Seq<char>,
    title: Seq<char>,
    text_inputs: Seq<TextInputView>,
    message: Option<u64>,
)
    ensures
        !h.responded() ==> h.reply(reply).is_first_response(),
        !h.responded() ==> h.defer(visibility) is Ok && h.autocomplete(choices) is Ok && h.modal(
            custom_id,
            title,
            text_inputs,
        ) is Ok,
        h.after(CallKind::FirstResponse, message).responded(),
        h.responded() ==> !h.reply(reply).is_first_response(),
        h.responded() ==> h.defer(visibility) == Err::<PlatformCallView, Fail>(
            Fail::AlreadyResponded,
        ),
        h.responded() ==> h.autocomplete(choices) == Err::<PlatformCallView, Fail>(
            Fail::AlreadyResponded,
        ),
        h.responded() ==> h.modal(custom_id, title, text_inputs) == Err::<PlatformCallView, Fail>(
            Fail::AlreadyResponded,
        ),
{
}

/// After a deferral that succeeded, a second deferral is refused with
/// `AlreadyResponded`; a reply that does not ask to update is a followup,
/// whose message becomes the last one known and is handed back; and a reply
/// that asks to update, while no message is known, edits the first response
/// instead of following it.
pub proof fn lemma_defer_then_reply(
    h: HandleView,
    first: DeferVisibility,
    second: DeferVisibility,
    reply: ReplyView,
    message: u64,
)
    requires
        !h.responded(),
    ensures
        ({
            let deferral = PlatformCallView::Defer {
                ephemeral: first == DeferVisibility::Ephemeral,
            };
            let deferred = h.after(deferral.kind(), None);
            let call = deferred.reply(reply);
            &&& h.defer(first) == Ok::<PlatformCallView, Fail>(deferral)
            &&& deferred.defer(second) == Err::<PlatformCallView, Fail>(Fail::AlreadyResponded)
            &&& !reply.update_last ==> {
                &&& call is CreateFollowup
                &&& deferred.after(call.kind(), Some(message)).state == ResponseState::Tracking(
                    message,
                )
                &&& HandleView::handed_back(call.kind(), Some(message)) == Some(message)
            }
            &&& reply.update_last ==> {
                &&& call is UpdateResponse
                &&& deferred.after(call.kind(), Some(message)).state == ResponseState::Tracking(
                    message,
                )
            }
        }),
{
}

/// An edit of a followup leaves the message that is known as it is, and
/// each later reply that asks to update edits that same message.
pub proof fn lemma_update_keeps_message(h: HandleView, reply: ReplyView, message: Option<u64>)
    requires
        h.state is Tracking,
        reply.update_last,
    ensures
        h.reply(reply) is UpdateFollowup,
        h.reply(reply)->UpdateFollowup_message_id == h.state->Tracking_0,
        h.after(h.reply(reply).kind(), message) == h,
{
}

/// The handle of one interaction. It belongs to the handler that serves the
/// interaction, and only `record` changes it.
#[derive(Debug, Clone, PartialEq, Eq)]
pub struct Handle {
    id: u64,
    token: String,
    kind: InteractionKind,
    app_permissions: u64,
    state: ResponseState,
}

impl View for Handle {
    type V = HandleView;

    closed spec fn view(&self) -> HandleView {
        HandleView {
            id: self.id,
            token: self.token@,
            kind: self.kind,
            permissions: self.app_permissions,
            state: self.state,
        }
    }
}

/// The text of a message for a call that goes without text where there is
/// none.
fn optional_text(content: String) -> (text: Option<String>)
    ensures
        text.deep_view() == text_if_any(content@),
{
    if content.as_str().is_empty() {
        None
    } else {
        Some(content)
    }
}

impl Handle {
    /// The handle of an interaction that nothing has answered yet. An
    /// interaction that does not say which permissions the bot has is
    /// taken to grant all of them.
    pub fn new(id: u64, token: String, kind: InteractionKind, app_permissions: Option<u64>) -> (handle:
        Self)
        ensures
            handle@ == HandleView::fresh(id, token@, kind, app_permissions),
    {
        Handle {
            id,
            token,
            kind,
            app_permissions: match app_permissions {
                Some(granted) => granted,
                None => ALL_PERMISSIONS,
            },
            state: ResponseState::Unresponded,
        }
    }

    /// Whether the bot has all of `required_permissions`; if not, the ones
    /// that it lacks.
    pub fn check_permissions(&self, required_permissions: u64) -> (checked: Result<(), UserError>)
        ensures
            checked == self@.check_permissions(required_permissions),
    {
        let missing: u64 = required_permissions & !self.app_permissions;
        if missing != 0 {
            return Err(UserError::MissingPermissions(Some(missing)));
        }
        Ok(())
    }

    /// The call that shows `reply` to the user on account of `error`: none
    /// where the error is to be ignored, else the call of `Handle::reply`.
    pub fn report_error(&self, reply: Reply, error: UserError) -> (call: Option<PlatformCall>)
        ensures
            call.deep_view() == if error is Ignore {
                None
            } else {
                Some(self@.reply(reply@))
            },
    {
        if let UserError::Ignore = error {
            return None;
        }
        Some(self.reply(reply))
    }

    /// The call by which `reply` travels. Before the first response it is
    /// that response: an edit of the component's message where the reply
    /// asks to update and the interaction came from a component, else a
    /// new message. After it, a reply that asks to update edits the last
    /// followup that is known, or the first response where none is; any
    /// other reply is a new followup.
    pub fn reply(&self, reply: Reply) -> (call: PlatformCall)
        ensures
            call@ == self@.reply(reply@),
    {
        let Reply { content, embed, ephemeral, update_last } = reply;
        match self.state {
            ResponseState::Unresponded => {
                let kind = if update_last && self.kind == InteractionKind::MessageComponent {
                    ResponseKind::UpdateMessage
                } else {
                    ResponseKind::ChannelMessageWithSource
                };
                PlatformCall::CreateResponse { kind, content, embed, ephemeral }
            },
            ResponseState::Responded => {
                if update_last {
                    PlatformCall::UpdateResponse { content: optional_text(content), embed }
                } else {
                    PlatformCall::CreateFollowup { content: optional_text(content), embed, ephemeral }
                }
            },
            ResponseState::Tracking(message_id) => {
                if update_last {
                    PlatformCall::UpdateFollowup {
                        message_id,
                        content: optional_text(content),
                        embed,
                    }
                } else {
                    PlatformCall::CreateFollowup { content: optional_text(content), embed, ephemeral }
                }
            },
        }
    }

    /// The call that defers the interaction, or `AlreadyResponded`.
    pub fn defer(&self, visibility: DeferVisibility) -> (call: Result<PlatformCall, Fail>)
        ensures
            outcome_view(call) == self@.defer(visibility),
    {
        if self.responded() {
            return Err(Fail::AlreadyResponded);
        }
        Ok(PlatformCall::Defer { ephemeral: visibility == DeferVisibility::Ephemeral })
    }

    /// The call that offers `choices`, or `AlreadyResponded`.
    pub fn autocomplete(&self, choices: Vec<Choice>) -> (call: Result<PlatformCall, Fail>)
        ensures
            outcome_view(call) == self@.autocomplete(choices.deep_view()),
    {
        if self.responded() {
            return Err(Fail::AlreadyResponded);
        }
        Ok(PlatformCall::Autocomplete { choices })
    }

    /// The call that shows a modal with one row for each of `text_inputs`, or
    /// `AlreadyResponded`.
    pub fn modal(&self, custom_id: String, title: String, text_inputs: Vec<TextInput>) -> (call:
        Result<PlatformCall, Fail>)
        ensures
            outcome_view(call) == self@.modal(custom_id@, title@, text_inputs.deep_view()),
    {
        if self.responded() {
            return Err(Fail::AlreadyResponded);
        }
        let mut rows: Vec<Vec<TextInput>> = Vec::new();
        let mut i: usize = 0;
        while i < text_inputs.len()
            invariant
                i <= text_inputs.len(),
                rows.len() == i,
                forall|j: int|
                    0 <= j < i ==> (#[trigger] rows[j]).deep_view() == seq![text_inputs[j]@],
            decreases text_inputs.len() - i,
        {
            let input = &text_inputs[i];
            let mut row: Vec<TextInput> = Vec::new();
            row.push(
                TextInput {
                    custom_id: input.custom_id.clone(),
                    label: input.label.clone(),
                    paragraph: input.paragraph,
                    required: input.required,
                },
            );
            assert(row.deep_view() =~= seq![text_inputs[i as int]@]);
            rows.push(row);
            i += 1;
        }
        assert(rows.deep_view() =~= Seq::new(
            text_inputs.deep_view().len(),
            |k: int| seq![text_inputs.deep_view()[k]],
        ));
        Ok(PlatformCall::Modal { custom_id, title, rows })
    }

    /// Takes note that a call of kind `call` succeeded. `message` is the id
    /// of the message that the platform handed back, where the call hands
    /// one back. A first response marks the interaction as responded to. A
    /// followup, and an edit of the first response, make their message the
    /// last one known and hand its id back. An edit of a followup changes
    /// nothing.
    pub fn record(&mut self, call: CallKind, message: Option<u64>) -> (handed_back: Option<u64>)
        ensures
            final(self)@ == old(self)@.after(call, message),
            handed_back == HandleView::handed_back(call, message),
    {
        match call {
            CallKind::Followup | CallKind::UpdateResponse => {
                if let Some(id) = message {
                    self.state = ResponseState::Tracking(id);
                }
                message
            },
            CallKind::UpdateFollowup => None,
            CallKind::FirstResponse => {
                if let ResponseState::Unresponded = self.state {
                    self.state = ResponseState::Responded;
                }
                None
            },
        }
    }

    /// Whether the first response has been made.
    pub fn responded(&self) -> (responded: bool)
        ensures
            responded == self@.responded(),
    {
        match self.state {
            ResponseState::Unresponded => false,
            _ => true,
        }
    }

    /// The id of the last message that a reply created or fetched.
    pub fn last_message_id(&self) -> (id: Option<u64>)
        ensures
            id == self@.last_message_id(),
    {
        match self.state {
            ResponseState::Tracking(id) => Some(id),
            _ => None,
        }
    }

    /// Where the interaction stands.
    pub fn state(&self) -> (state: ResponseState)
        ensures
            state == self@.state,
    {
        self.state
    }

    /// The id of the interaction.
    pub fn id(&self) -> (id: u64)
        ensures
            id == self@.id,
    {
        self.id
    }

    /// The token that the platform calls of this interaction carry.
    pub fn token(&self) -> (token: &String)
        ensures
            token@ == self@.token,
    {
        &self.token
    }

    /// The kind of the interaction.
    pub fn kind(&self) -> (kind: InteractionKind)
        ensures
            kind == self@.kind,
    {
        self.kind
    }
}

} // verus!
