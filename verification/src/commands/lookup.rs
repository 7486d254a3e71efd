//! The course of a command that looks an image up.
//!
//! A lookup alternates between decisions, which are made here, and work that
//! only the caller can do: calls to the platform, a turn at the shared rate limits,
//! the search itself. `Lookup::step` takes what happened last and answers
//! with what is to be done next.

use crate::commands::saucenao::Cause;
use crate::config::Config;
use crate::error::Fail;
use crate::handle::CallKind;
use crate::handle::DeferVisibility;
use crate::handle::Handle;
use crate::handle::HandleView;
use crate::handle::PlatformCall;
use crate::handle::text_if_any;
use crate::handle::PlatformCallView;
use crate::reply::Reply;
use crate::reply::ReplyView;
use crate::sauce_finder::get_link;
use crate::sauce_finder::outcome_view;
use crate::sauce_finder::resolved;
use crate::sauce_finder::respond;
use crate::sauce_finder::respond_failure;
use crate::sauce_finder::response;
use crate::sauce_finder::Attachment;
use crate::sauce_finder::AttachmentView;
use crate::sauce_finder::NotifyAction;
use crate::sauce_finder::NotifyActionView;
use crate::sauce_finder::SauceResult;
use crate::sauce_finder::SauceResultView;
use crate::sauce_finder::MISSING_REFERENCE_NOTICE;
use vstd::prelude::*;

verus! {

/// A provider of reverse image search.
#[derive(Debug, Clone, Copy, PartialEq, Eq, Structural)]
pub enum Backend {
    Saucenao,
    Iqdb,
    FuzzySearch,
}

/// How the command of a backend is run.
#[derive(Debug, Clone, Copy, PartialEq, Eq, Structural)]
pub struct Policy {
    /// Whether the backend is in service. The command of one that is not
    /// answers with a notice and does nothing else.
    pub available: bool,
    /// Whether each invocation takes a turn at the shared rate limits.
    pub rate_limited: bool,
}

/// What the user is told by the command of a backend that is out of
/// service.
pub const UNAVAILABLE_NOTICE: &'static str = "IQDB is currently broken :/";

impl Backend {
    pub open spec fn spec_policy(self) -> Policy {
        match self {
            Backend::Saucenao => Policy { available: true, rate_limited: true },
            Backend::Iqdb => Policy { available: false, rate_limited: false },
            Backend::FuzzySearch => Policy { available: true, rate_limited: false },
        }
    }

    /// How the command of this backend is run: `saucenao` is rate limited,
    /// `fuzzysearch` is not, and `iqdb` is out of service.
    #[verifier::when_used_as_spec(spec_policy)]
    pub fn policy(self) -> (policy: Policy)
        ensures
            policy == self.spec_policy(),
    {
        match self {
            Backend::Saucenao => Policy { available: true, rate_limited: true },
            Backend::Iqdb => Policy { available: false, rate_limited: false },
            Backend::FuzzySearch => Policy { available: true, rate_limited: false },
        }
    }
}

/// How far a lookup has come.
#[derive(Debug, Clone, Copy, PartialEq, Eq, Structural)]
pub enum Stage {
    /// Nothing has happened yet.
    Fresh,
    /// The deferral is on its way to the platform.
    Deferring,
    /// The rate limits have been asked for a turn.
    Limiting,
    /// The backend has been asked.
    Searching,
    /// The last message is on its way; the command succeeds when it
    /// arrives.
    Closing(CallKind),
    /// A notice of a failure is on its way; the command fails when it
    /// arrives.
    Notifying(CallKind, Fail),
    /// The command is over.
    Finished,
}

/// What happened last.
#[derive(Debug, PartialEq, Eq)]
pub enum Event {
    /// The command was invoked.
    Start,
    /// The platform call that was due succeeded. The id is that of the
    /// message that the platform handed back, where it handed one back.
    Sent(Option<u64>),
    /// The platform call that was due failed.
    SendFailed,
    /// The rate limits answered: with the cause of a denial, or with none.
    Limits(Option<Cause>),
    /// The backend answered, or failed with this message.
    Searched(Result<SauceResult, String>),
}

pub enum EventView {
    Start,
    Sent(Option<u64>),
    SendFailed,
    Limits(Option<Cause>),
    Searched(Result<SauceResultView, Seq<char>>),
}

impl View for Event {
    type V = EventView;

    open spec fn view(&self) -> EventView {
        match self {
            Event::Start => EventView::Start,
            Event::Sent(message) => EventView::Sent(*message),
            Event::SendFailed => EventView::SendFailed,
            Event::Limits(verdict) => EventView::Limits(*verdict),
            Event::Searched(outcome) => EventView::Searched(outcome_view(*outcome)),
        }
    }
}

/// What is to be done next.
#[derive(Debug, PartialEq, Eq)]
pub enum Action {
    /// Make this call to the platform, and report `Sent` or `SendFailed`.
    Call(PlatformCall),
    /// Take a turn at the shared rate limits, and report `Limits`.
    ConsultLimits,
    /// Ask the backend for this link, and report `Searched`.
    Search { backend: Backend, link: String },
    /// Nothing: the command is over, and this is how it ended.
    Finish(Result<(), Fail>),
}

pub enum ActionView {
    Call(PlatformCallView),
    ConsultLimits,
    Search { backend: Backend, link: Seq<char> },
    Finish(Result<(), Fail>),
}

impl View for Action {
    type V = ActionView;

    open spec fn view(&self) -> ActionView {
        match self {
            Action::Call(call) => ActionView::Call(call@),
            Action::ConsultLimits => ActionView::ConsultLimits,
            Action::Search { backend, link } => ActionView::Search { backend: *backend, link: link@ },
            Action::Finish(end) => ActionView::Finish(*end),
        }
    }
}

/// What a lookup is, mathematically.
pub struct LookupView {
    pub backend: Backend,
    pub policy: Policy,
    pub link: Option<Seq<char>>,
    pub attachment: Option<AttachmentView>,
    pub ephemeral: Option<bool>,
    pub handle: HandleView,
    pub stage: Stage,
}

pub open spec fn visibility(ephemeral: Option<bool>) -> DeferVisibility {
    if ephemeral == Some(true) {
        DeferVisibility::Ephemeral
    } else {
        DeferVisibility::Visible
    }
}

impl LookupView {
    /// A lookup that has not begun.
    pub open spec fn fresh(
        backend: Backend,
        policy: Policy,
        link: Option<Seq<char>>,
        attachment: Option<AttachmentView>,
        ephemeral: Option<bool>,
        handle: HandleView,
    ) -> LookupView {
        LookupView { backend, policy, link, attachment, ephemeral, handle, stage: Stage::Fresh }
    }

    pub open spec fn lacks_reference(self) -> bool {
        self.link is None && self.attachment is None
    }

    /// The command ends.
    pub open spec fn finish(self, end: Result<(), Fail>) -> (LookupView, ActionView) {
        (LookupView { stage: Stage::Finished, ..self }, ActionView::Finish(end))
    }

    /// A last message goes out: `reply`, by the call that the handle names
    /// for it. With a failure the command fails once the message has
    /// arrived, without one it succeeds.
    pub open spec fn say(self, reply: ReplyView, failure: Option<Fail>) -> (
        LookupView,
        ActionView,
    ) {
        let call = self.handle.reply(reply);
        (
            LookupView {
                stage: match failure {
                    Some(fail) => Stage::Notifying(call.kind(), fail),
                    None => Stage::Closing(call.kind()),
                },
                ..self
            },
            ActionView::Call(call),
        )
    }

    /// The interaction is deferred, unless the handle refuses.
    pub open spec fn defer(self) -> (LookupView, ActionView) {
        match self.handle.defer(visibility(self.ephemeral)) {
            Ok(call) => (LookupView { stage: Stage::Deferring, ..self }, ActionView::Call(call)),
            Err(fail) => self.finish(Err(fail)),
        }
    }

    /// The image is resolved and the backend asked; or the user is told
    /// why not.
    pub open spec fn look_up(self) -> (LookupView, ActionView) {
        if self.lacks_reference() {
            self.say(ReplyView::notice(MISSING_REFERENCE_NOTICE@), None)
        } else {
            match resolved(self.link, self.attachment) {
                Ok(link) => (
                    LookupView { stage: Stage::Searching, ..self },
                    ActionView::Search { backend: self.backend, link },
                ),
                Err((fail, NotifyActionView::Send(notice))) => self.say(notice, Some(fail)),
                Err((fail, NotifyActionView::Nothing)) => self.finish(Err(fail)),
            }
        }
    }

    /// The lookup with the handle's note that a call of kind `call`
    /// succeeded.
    pub open spec fn noted(self, call: CallKind, message: Option<u64>) -> LookupView {
        LookupView { handle: self.handle.after(call, message), ..self }
    }

    /// The lookup after `event`, and what is to be done next. `limit` is
    /// the number of matches that a reply lists at most.
    pub open spec fn advance(self, event: EventView, limit: nat) -> (LookupView, ActionView) {
        match (self.stage, event) {
            (Stage::Fresh, EventView::Start) => {
                if !self.policy.available {
                    self.say(ReplyView::notice(UNAVAILABLE_NOTICE@), None)
                } else {
                    self.defer()
                }
            },
            (Stage::Deferring, EventView::Sent(message)) => {
                let deferred = self.noted(CallKind::FirstResponse, message);
                if self.policy.rate_limited {
                    (LookupView { stage: Stage::Limiting, ..deferred }, ActionView::ConsultLimits)
                } else {
                    deferred.look_up()
                }
            },
            (Stage::Limiting, EventView::Limits(Some(cause))) => self.say(
                ReplyView::notice(cause.advice()),
                None,
            ),
            (Stage::Limiting, EventView::Limits(None)) => self.look_up(),
            (Stage::Searching, EventView::Searched(outcome)) => self.say(
                response(outcome, limit, self.ephemeral),
                None,
            ),
            (Stage::Closing(call), EventView::Sent(message)) => self.noted(call, message).finish(
                Ok(()),
            ),
            (Stage::Notifying(call, fail), EventView::Sent(message)) => self.noted(
                call,
                message,
            ).finish(Err(fail)),
            (Stage::Deferring, EventView::SendFailed) => self.finish(Err(Fail::Transport)),
            (Stage::Closing(_), EventView::SendFailed) => self.finish(Err(Fail::Transport)),
            (Stage::Notifying(_, _), EventView::SendFailed) => self.finish(Err(Fail::Transport)),
            _ => self.finish(Err(Fail::UnexpectedEvent)),
        }
    }
}

impl LookupView {
    /// What holds of a lookup all along: while it waits for its turn or for
    /// the backend, its interaction has been responded to.
    pub open spec fn in_order(self) -> bool {
        (self.stage is Limiting || self.stage is Searching) ==> self.handle.responded()
    }
}

/// A lookup that has not begun is in order, and every step keeps it so. The
/// backend is asked only once the interaction has been responded to, which is
/// to say deferred; and a step asks for a first response only of an
/// interaction that has none, so no interaction is asked for two.
pub proof fn lemma_deferred_before_search(lookup: LookupView, event: EventView, limit: nat)
    requires
        lookup.in_order(),
    ensures
        LookupView::fresh(
            lookup.backend,
            lookup.policy,
            lookup.link,
            lookup.attachment,
            lookup.ephemeral,
            lookup.handle,
        ).in_order(),
        lookup.advance(event, limit).0.in_order(),
        lookup.advance(event, limit).1 is Search ==> lookup.advance(event, limit).0.handle.responded(),
        lookup.advance(event, limit).1 matches ActionView::Call(call) ==> (call.is_first_response()
            <==> !lookup.advance(event, limit).0.handle.responded()),
{
}

/// The course of a lookup that nothing stops. A lookup that is in service and
/// rate limited, with a link that parses, answers its invocation with
/// a deferral; when that has arrived, asks for its turn; when the
/// limits let it pass, asks its backend for the link; and when the backend has
/// answered, sends one followup whose embed begins with the field
/// `Original Link`, and ends well when that has arrived.
pub proof fn lemma_unhindered_lookup(
    lookup: LookupView,
    link: Seq<char>,
    result: SauceResultView,
    limit: nat,
    first: Option<u64>,
    last: Option<u64>,
)
    requires
        lookup.stage is Fresh,
        !lookup.handle.responded(),
        lookup.policy == (Policy { available: true, rate_limited: true }),
        lookup.link == Some(link),
    ensures
        crate::sauce_finder::parses_as_url(link) ==> ({
            let (deferring, deferral) = lookup.advance(EventView::Start, limit);
            let (limiting, turn) = deferring.advance(EventView::Sent(first), limit);
            let (searching, search) = limiting.advance(EventView::Limits(None), limit);
            let (closing, followup) = searching.advance(EventView::Searched(Ok(result)), limit);
            let (finished, end) = closing.advance(EventView::Sent(last), limit);
            &&& deferral == ActionView::Call(
                PlatformCallView::Defer { ephemeral: lookup.ephemeral == Some(true) },
            )
            &&& turn == ActionView::ConsultLimits
            &&& search == (ActionView::Search { backend: lookup.backend, link })
            &&& followup matches ActionView::Call(
                PlatformCallView::CreateFollowup { content, embed, ephemeral },
            )
            &&& content is None
            &&& ephemeral == (lookup.ephemeral == Some(true))
            &&& embed matches Some(shown)
            &&& shown.fields == crate::sauce_finder::result_fields(result, limit)
            &&& shown.fields[0] == crate::reply::block_field(
                crate::sauce_finder::ORIGINAL_LINK@,
                result.original_url,
            )
            &&& end == ActionView::Finish(Ok(()))
            &&& finished.stage is Finished
        }),
{
}

/// A denial by the rate limits is no failure: the lookup passes the advice on, for
/// the user alone, and ends well when it has arrived. The backend is not
/// asked.
pub proof fn lemma_denial_ends_well(
    lookup: LookupView,
    cause: Cause,
    limit: nat,
    message: Option<u64>,
)
    requires
        lookup.stage is Limiting,
        lookup.in_order(),
    ensures
        ({
            let (closing, advice) = lookup.advance(EventView::Limits(Some(cause)), limit);
            let (finished, end) = closing.advance(EventView::Sent(message), limit);
            &&& advice matches ActionView::Call(call)
            &&& call.kind() == CallKind::Followup
            &&& call->CreateFollowup_content == text_if_any(cause.advice())
            &&& call->CreateFollowup_ephemeral
            &&& end == ActionView::Finish(Ok(()))
            &&& finished.stage is Finished
        }),
{
}

/// A platform call that fails ends the command with `Transport`, and a
/// command that is over stays so: whatever is reported to it, it asks for
/// nothing more.
pub proof fn lemma_ends_for_good(lookup: LookupView, event: EventView, limit: nat)
    ensures
        (lookup.stage is Deferring || lookup.stage is Closing || lookup.stage is Notifying)
            ==> lookup.advance(EventView::SendFailed, limit) == lookup.finish(
            Err(Fail::Transport),
        ),
        lookup.stage is Finished ==> lookup.advance(event, limit) == lookup.finish(
            Err(Fail::UnexpectedEvent),
        ),
        lookup.advance(event, limit).1 is Finish <==> lookup.advance(event, limit).0.stage
            is Finished,
{
}

/// One lookup, from the invocation of its command to its end.
#[derive(Debug)]
pub struct Lookup {
    backend: Backend,
    policy: Policy,
    link: Option<String>,
    attachment: Option<Attachment>,
    ephemeral: Option<bool>,
    handle: Handle,
    stage: Stage,
}

impl View for Lookup {
    type V = LookupView;

    closed spec fn view(&self) -> LookupView {
        LookupView {
            backend: self.backend,
            policy: self.policy,
            link: self.link.deep_view(),
            attachment: self.attachment.deep_view(),
            ephemeral: self.ephemeral,
            handle: self.handle@,
            stage: self.stage,
        }
    }
}

impl Lookup {
    /// A lookup that has not begun.
    pub fn new(
        backend: Backend,
        policy: Policy,
        link: Option<String>,
        attachment: Option<Attachment>,
        ephemeral: Option<bool>,
        handle: Handle,
    ) -> (lookup: Self)
        ensures
            lookup@ == LookupView::fresh(
                backend,
                policy,
                link.deep_view(),
                attachment.deep_view(),
                ephemeral,
                handle@,
            ),
    {
        Lookup { backend, policy, link, attachment, ephemeral, handle, stage: Stage::Fresh }
    }

    /// The handle of the interaction that the lookup serves.
    pub fn handle(&self) -> (handle: &Handle)
        ensures
            handle@ == self@.handle,
    {
        &self.handle
    }

    /// How far the lookup has come.
    pub fn stage(&self) -> (stage: Stage)
        ensures
            stage == self@.stage,
    {
        self.stage
    }

    fn finish(&mut self, end: Result<(), Fail>) -> (action: Action)
        ensures
            (final(self)@, action@) == old(self)@.finish(end),
    {
        self.stage = Stage::Finished;
        Action::Finish(end)
    }

    fn say(&mut self, reply: Reply, failure: Option<Fail>) -> (action: Action)
        ensures
            (final(self)@, action@) == old(self)@.say(reply@, failure),
    {
        let call = self.handle.reply(reply);
        self.stage = match failure {
            Some(fail) => Stage::Notifying(call.kind(), fail),
            None => Stage::Closing(call.kind()),
        };
        Action::Call(call)
    }

    fn defer(&mut self) -> (action: Action)
        ensures
            (final(self)@, action@) == old(self)@.defer(),
    {
        let hidden = match self.ephemeral {
            Some(hidden) => hidden,
            None => false,
        };
        let visibility = if hidden {
            DeferVisibility::Ephemeral
        } else {
            DeferVisibility::Visible
        };
        match self.handle.defer(visibility) {
            Ok(call) => {
                self.stage = Stage::Deferring;
                Action::Call(call)
            },
            Err(fail) => self.finish(Err(fail)),
        }
    }

    fn look_up(&mut self) -> (action: Action)
        ensures
            (final(self)@, action@) == old(self)@.look_up(),
    {
        if self.link.is_none() && self.attachment.is_none() {
            return self.say(respond_failure(), None);
        }
        match get_link(&self.link, &self.attachment) {
            Ok(link) => {
                self.stage = Stage::Searching;
                Action::Search { backend: self.backend, link }
            },
            Err((fail, NotifyAction::Send(notice))) => self.say(notice, Some(fail)),
            Err((fail, NotifyAction::Nothing)) => self.finish(Err(fail)),
        }
    }

    /// Takes what happened last and says what is to be done next.
    ///
    /// A command whose backend is out of service answers with a notice. Every
    /// other one is deferred; then, where the policy asks for it, takes a turn
    /// at the rate limits, and on a denial passes the advice on; then says so
    /// if it names no image, or else resolves its image, asks the backend, and
    /// closes with the reply to what the backend said. A platform call that
    /// fails ends the command with `Transport`, and an event that the lookup
    /// was not waiting for with `UnexpectedEvent`.
    pub fn step(&mut self, event: Event, cfg: &Config) -> (action: Action)
        ensures
            (final(self)@, action@) == old(self)@.advance(event@, cfg@.settings.top_links),
    {
        match (self.stage, event) {
            (Stage::Fresh, Event::Start) => {
                if !self.policy.available {
                    self.say(Reply::notice(UNAVAILABLE_NOTICE), None)
                } else {
                    self.defer()
                }
            },
            (Stage::Deferring, Event::Sent(message)) => {
                self.handle.record(CallKind::FirstResponse, message);
                if self.policy.rate_limited {
                    self.stage = Stage::Limiting;
                    Action::ConsultLimits
                } else {
                    self.look_up()
                }
            },
            (Stage::Limiting, Event::Limits(Some(cause))) => self.say(
                Reply::notice(cause.message()),
                None,
            ),
            (Stage::Limiting, Event::Limits(None)) => self.look_up(),
            (Stage::Searching, Event::Searched(outcome)) => {
                let reply = respond(outcome, cfg, self.ephemeral);
                self.say(reply, None)
            },
            (Stage::Closing(call), Event::Sent(message)) => {
                self.handle.record(call, message);
                self.finish(Ok(()))
            },
            (Stage::Notifying(call, fail), Event::Sent(message)) => {
                self.handle.record(call, message);
                self.finish(Err(fail))
            },
            (Stage::Deferring, Event::SendFailed) => self.finish(Err(Fail::Transport)),
            (Stage::Closing(_), Event::SendFailed) => self.finish(Err(Fail::Transport)),
            (Stage::Notifying(_, _), Event::SendFailed) => self.finish(Err(Fail::Transport)),
            _ => self.finish(Err(Fail::UnexpectedEvent)),
        }
    }
}

} // verus!
