//! The `saucenao` command and the rate limits that guard its provider's quota.

use crate::clock;
use crate::commands::lookup::Backend;
use crate::commands::lookup::Lookup;
use crate::commands::lookup::LookupView;
use crate::commands::ApplicationCommandData;
use crate::commands::CommandKind;
use crate::handle::Handle;
use crate::rate_limiter::lemma_attempts_within_window;
use crate::rate_limiter::RateLimiter;
use crate::rate_limiter::Window;
use crate::sauce_finder::Attachment;
use vstd::prelude::*;

verus! {

/// The declaration of the command.
pub fn get() -> (declared: Vec<ApplicationCommandData>)
    ensures
        declared.deep_view() == seq![CommandKind::Saucenao.declared()],
{
    let mut declared: Vec<ApplicationCommandData> = Vec::new();
    declared.push(Saucenao::create_command());
    assert(declared.deep_view() =~= seq![CommandKind::Saucenao.declared()]);
    declared
}

/// Attempts that the short window takes.
pub const SHORT_CAPACITY: u64 = 6;

/// The short window: thirty seconds, in nanoseconds.
pub const SHORT_WINDOW: u128 = 30_000_000_000;

/// Attempts that the long window takes.
pub const LONG_CAPACITY: u64 = 200;

/// The long window: twenty-four hours, in nanoseconds.
pub const LONG_WINDOW: u128 = 86_400_000_000_000;

/// Which window a denial is put down to.
#[derive(Debug, Clone, Copy, PartialEq, Eq, Structural)]
pub enum Cause {
    Short,
    Long,
}

/// What the user is told when the short window is put down as the cause.
pub const SHORT_ADVICE: &'static str =
    "You are being rate limited. Please wait up to 30 seconds before trying again. (sorry, the rate limits on SauceNao are like this. Consider `/support`ing the bot's creator)";

/// What the user is told when the long window is put down as the cause.
pub const LONG_ADVICE: &'static str =
    "You are being rate limited. Please wait up to 24 hours for it to fix. (sorry, the rate limits on SauceNao are like this. Consider `/support`ing the bot's creator)";

impl Cause {
    pub open spec fn advice(self) -> Seq<char> {
        match self {
            Cause::Short => SHORT_ADVICE@,
            Cause::Long => LONG_ADVICE@,
        }
    }

    /// What the user is told on a denial.
    pub fn message(&self) -> (text: &'static str)
        ensures
            text@ == self.advice(),
    {
        match self {
            Cause::Short => SHORT_ADVICE,
            Cause::Long => LONG_ADVICE,
        }
    }
}

/// What the rate limits are, mathematically: two windows on one clock.
pub struct Limits {
    pub short: Window,
    pub long: Window,
}

impl Limits {
    /// The limits as they are made: both windows open and full.
    pub open spec fn fresh() -> Limits {
        Limits {
            short: Window::fresh(SHORT_CAPACITY as nat, SHORT_WINDOW as nat, 0),
            long: Window::fresh(LONG_CAPACITY as nat, LONG_WINDOW as nat, 0),
        }
    }

    /// Whether an invocation at `now` is turned away: it is, as soon as
    /// either window denies it.
    pub open spec fn limited(self, now: nat) -> bool {
        !(self.short.permits(now) && self.long.permits(now))
    }

    /// The limits after an invocation at `now`. Both windows are attempted,
    /// whatever the other one says.
    pub open spec fn after(self, now: nat) -> Limits {
        Limits { short: self.short.after_attempt(now), long: self.long.after_attempt(now) }
    }

    /// The limits after one invocation at each of `times`, in order.
    pub open spec fn after_all(self, times: Seq<nat>) -> Limits {
        Limits { short: self.short.after_attempts(times), long: self.long.after_attempts(times) }
    }

    /// The window that a denial is put down to: the long one whenever the
    /// short one has nothing left, else the short one.
    pub open spec fn cause(self) -> Cause {
        if self.short.remaining == 0 {
            Cause::Long
        } else {
            Cause::Short
        }
    }

    /// What an invocation at `now` is told: nothing where it may pass,
    /// else the cause of the denial as the limits show it afterwards.
    pub open spec fn verdict(self, now: nat) -> Option<Cause> {
        if self.limited(now) {
            Some(self.after(now).cause())
        } else {
            None
        }
    }
}

/// Of seven invocations within the first thirty seconds of fresh limits,
/// the first six pass and the seventh is turned away, although the long
/// window has 194 attempts left when it comes.
pub proof fn lemma_seventh_in_short_window_limited(times: Seq<nat>)
    requires
        times.len() == 7,
        forall|i: int| 0 <= i < 7 ==> #[trigger] times[i] <= SHORT_WINDOW,
    ensures
        forall|i: int|
            0 <= i < 6 ==> !Limits::fresh().after_all(#[trigger] times.take(i)).limited(
                times[i],
            ),
        Limits::fresh().after_all(times.take(6)).limited(times[6]),
        Limits::fresh().after_all(times.take(6)).long.remaining == 194,
        Limits::fresh().after_all(times.take(6)).long.permits(times[6]),
{
    let limits = Limits::fresh();
    assert forall|i: int| 0 <= i <= 6 implies {
        &&& (#[trigger] limits.after_all(times.take(i))).short == (Window {
            remaining: (6 - i) as nat,
            ..limits.short
        })
        &&& limits.after_all(times.take(i)).long == (Window {
            remaining: (200 - i) as nat,
            ..limits.long
        })
    } by {
        let before = times.take(i);
        assert forall|j: int| 0 <= j < before.len() implies !limits.short.expired(
            #[trigger] before[j],
        ) && !limits.long.expired(before[j]) by {
            assert(before[j] == times[j]);
        }
        lemma_attempts_within_window(limits.short, before);
        lemma_attempts_within_window(limits.long, before);
    }
    assert forall|i: int| 0 <= i < 6 implies !limits.after_all(#[trigger] times.take(i)).limited(
        times[i],
    ) by {
        assert(times[i] <= SHORT_WINDOW);
    }
    assert(times[6] <= SHORT_WINDOW);
}

/// The rate limits of the `saucenao` command: a short window and a long one,
/// shared by all who invoke the command.
#[derive(Debug, Clone)]
pub struct RateLimits {
    short_usage: RateLimiter,
    long_usage: RateLimiter,
}

impl View for RateLimits {
    type V = Limits;

    closed spec fn view(&self) -> Limits {
        Limits { short: self.short_usage@, long: self.long_usage@ }
    }
}

impl RateLimits {
    /// Limits of six attempts in thirty seconds and two hundred in
    /// twenty-four hours, both windows opening now.
    pub fn new() -> (limits: Self)
        ensures
            limits@ == Limits::fresh(),
    {
        let origin = clock::now();
        Self {
            short_usage: RateLimiter::anchored(SHORT_CAPACITY, SHORT_WINDOW, origin),
            long_usage: RateLimiter::anchored(LONG_CAPACITY, LONG_WINDOW, origin),
        }
    }

    /// The clock of the limits: nanoseconds since they were made.
    fn now(&self) -> u128 {
        self.short_usage.now()
    }

    /// One invocation at the moment the clock shows. Whatever that moment
    /// is, the limits move as `limited_at` says for it.
    pub fn limited(&mut self) -> (limited: bool)
        ensures
            exists|now: nat|
                final(self)@ == (#[trigger] old(self)@.after(now)) && limited == old(
                    self,
                )@.limited(now),
    {
        let now: u128 = self.now();
        let limited = self.limited_at(now);
        assert(self@ == old(self)@.after(now as nat));
        limited
    }

    /// One invocation at `now`, in nanoseconds on the clock of the limits. Both
    /// windows are attempted, and the invocation is turned away as soon as
    /// either denies it.
    pub fn limited_at(&mut self, now: u128) -> (limited: bool)
        ensures
            final(self)@ == old(self)@.after(now as nat),
            limited == old(self)@.limited(now as nat),
    {
        let a = self.short_usage.attempt_at(now);
        let b = self.long_usage.attempt_at(now);
        !(a && b)
    }

    /// The window that a denial is put down to: the long one whenever the
    /// short one has nothing left, else the short one.
    pub fn cause(&self) -> (cause: Cause)
        ensures
            cause == self@.cause(),
    {
        if self.short_usage.remaining() == 0 {
            Cause::Long
        } else {
            Cause::Short
        }
    }

    /// One invocation at the moment the clock shows: nothing where it may
    /// pass, else the cause of the denial.
    pub fn check(&mut self) -> (verdict: Option<Cause>)
        ensures
            exists|now: nat|
                final(self)@ == (#[trigger] old(self)@.after(now)) && verdict == old(
                    self,
                )@.verdict(now),
    {
        let now: u128 = self.now();
        let verdict = self.check_at(now);
        assert(self@ == old(self)@.after(now as nat));
        verdict
    }

    /// One invocation at `now`: nothing where it may pass, else the cause of
    /// the denial.
    pub fn check_at(&mut self, now: u128) -> (verdict: Option<Cause>)
        ensures
            final(self)@ == old(self)@.after(now as nat),
            verdict == old(self)@.verdict(now as nat),
    {
        if self.limited_at(now) {
            Some(self.cause())
        } else {
            None
        }
    }

    /// Attempts left in the short window.
    pub fn short_remaining(&self) -> (left: u64)
        ensures
            left == self@.short.remaining,
    {
        self.short_usage.remaining()
    }

    /// Attempts left in the long window.
    pub fn long_remaining(&self) -> (left: u64)
        ensures
            left == self@.long.remaining,
    {
        self.long_usage.remaining()
    }
}

/// One invocation of `saucenao`, with what the user gave it.
#[derive(Debug)]
pub struct Saucenao {
    /// The link to search for.
    pub link: Option<String>,
    /// An attachment to search for.
    pub attachment: Option<Attachment>,
    /// Whether the message should be hidden.
    pub ephemeral: Option<bool>,
}

impl Saucenao {
    /// The command as it is declared to the platform.
    pub fn create_command() -> (data: ApplicationCommandData)
        ensures
            data@ == CommandKind::Saucenao.declared(),
    {
        CommandKind::Saucenao.create_command()
    }

    /// The lookup that serves this invocation on `handle`. It defers the
    /// interaction and then takes its turn at the rate limits, before it
    /// looks at what the user gave.
    pub fn execute(self, handle: Handle) -> (lookup: Lookup)
        ensures
            lookup@ == LookupView::fresh(
                Backend::Saucenao,
                Backend::Saucenao.policy(),
                self.link.deep_view(),
                self.attachment.deep_view(),
                self.ephemeral,
                handle@,
            ),
    {
        let Saucenao { link, attachment, ephemeral } = self;
        Lookup::new(
            Backend::Saucenao,
            Backend::Saucenao.policy(),
            link,
            attachment,
            ephemeral,
            handle,
        )
    }
}

} // verus!
