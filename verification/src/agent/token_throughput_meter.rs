//! How fast an agent generates tokens.
use std::time::Instant;

use vstd::prelude::*;

use crate::outside::is_clock_reading;
use crate::outside::now;
use crate::outside::read_clock;

verus! {

/// How long a window stays open, in nanoseconds, before its token count is
/// turned into a measurement. One second keeps the reported rate intuitive: it
/// is the number of tokens counted in the last second.
pub const WINDOW_DURATION: u128 = 1_000_000_000;

/// A measurement is stale, and reported as no tokens at all, once this many
/// nanoseconds have passed without a new token. Otherwise an agent that produced
/// a quick burst and then went idle would keep reporting the rate of that burst.
pub const STALE_AFTER: u128 = 2_000_000_000;

/// The count at which a window stops counting.
pub const COUNT_LIMIT: u64 = 0x20_0000_0000_0000;

/// So many tokens in so many nanoseconds.
#[derive(Clone, Copy, Debug, PartialEq, Eq, Structural)]
pub struct TokenRate {
    pub tokens: u64,
    pub elapsed_nanos: u128,
}

/// No tokens at all.
pub open spec fn idle_rate() -> TokenRate {
    TokenRate { tokens: 0, elapsed_nanos: WINDOW_DURATION }
}

/// What a meter has measured and counted. Moments are nanoseconds since the meter
/// was made.
pub ghost struct ThroughputWindow {
    /// When the meter was made, as the clock says.
    pub created_at: Instant,
    /// The rate of the window that was closed last.
    pub measured: TokenRate,
    /// The tokens counted since then.
    pub token_count: u64,
    /// When the open window was opened.
    pub started_at: u128,
    /// When the last token was recorded; when the meter was made, if none was.
    pub last_token_at: u128,
}

/// How much time passed between two moments; none if the clock went back.
pub open spec fn time_between(earlier: u128, later: u128) -> u128 {
    if later > earlier {
        (later - earlier) as u128
    } else {
        0
    }
}

impl ThroughputWindow {
    /// What a meter has measured and counted when it is made.
    pub open spec fn initial(created_at: Instant) -> ThroughputWindow {
        ThroughputWindow {
            created_at,
            measured: idle_rate(),
            token_count: 0,
            started_at: 0,
            last_token_at: 0,
        }
    }

    /// A window in which one more token was counted.
    pub open spec fn counted(self) -> u64 {
        if self.token_count < COUNT_LIMIT {
            (self.token_count + 1) as u64
        } else {
            self.token_count
        }
    }

    /// After one more token at the moment `now`: a window that has been open for
    /// long enough is closed, and a new one is opened then.
    pub open spec fn after_token(self, now: u128) -> ThroughputWindow {
        if time_between(self.started_at, now) >= WINDOW_DURATION {
            ThroughputWindow {
                measured: TokenRate {
                    tokens: self.counted(),
                    elapsed_nanos: time_between(self.started_at, now),
                },
                token_count: 0,
                started_at: now,
                last_token_at: now,
                ..self
            }
        } else {
            ThroughputWindow { token_count: self.counted(), last_token_at: now, ..self }
        }
    }

    /// Whether `now` is the moment of a call in which the clock was read: the time
    /// since the meter was made, as the clock says it.
    pub open spec fn is_moment_read(self, now: u128) -> bool {
        is_clock_reading(self.created_at, now)
    }

    /// The rate that is reported at the moment `now`.
    pub open spec fn rate_at(self, now: u128) -> TokenRate {
        if time_between(self.last_token_at, now) > STALE_AFTER {
            idle_rate()
        } else {
            self.measured
        }
    }
}

/// Tracks the tokens that an agent generates and derives an approximate rate of
/// tokens per second from them: it counts tokens in a one-second window and,
/// once the window closes, turns that count into the reported rate.
#[derive(Debug)]
pub struct TokenThroughputMeter {
    created_at: Instant,
    last_token_at: u128,
    measured: TokenRate,
    window_started_at: u128,
    window_token_count: u64,
}

impl View for TokenThroughputMeter {
    type V = ThroughputWindow;

    closed spec fn view(&self) -> ThroughputWindow {
        ThroughputWindow {
            created_at: self.created_at,
            measured: self.measured,
            token_count: self.window_token_count,
            started_at: self.window_started_at,
            last_token_at: self.last_token_at,
        }
    }
}

fn time_passed(earlier: u128, later: u128) -> (nanos: u128)
    ensures
        nanos == time_between(earlier, later),
{
    if later > earlier {
        later - earlier
    } else {
        0
    }
}

impl TokenThroughputMeter {
    /// A meter that has not counted anything.
    pub fn new() -> (meter: TokenThroughputMeter)
        ensures
            meter@ == ThroughputWindow::initial(meter@.created_at),
    {
        TokenThroughputMeter {
            created_at: now(),
            last_token_at: 0,
            measured: TokenRate { tokens: 0, elapsed_nanos: WINDOW_DURATION },
            window_started_at: 0,
            window_token_count: 0,
        }
    }

    /// Records a token that was generated `now` nanoseconds after the meter was
    /// made, and closes and measures the current window if it has been open for
    /// at least [`WINDOW_DURATION`]; a new one is opened then.
    pub fn record_token_at(&mut self, now: u128)
        ensures
            final(self)@ == old(self)@.after_token(now),
    {
        if self.window_token_count < COUNT_LIMIT {
            self.window_token_count = self.window_token_count + 1;
        }
        let elapsed: u128 = time_passed(self.window_started_at, now);
        if elapsed >= WINDOW_DURATION {
            self.measured = TokenRate { tokens: self.window_token_count, elapsed_nanos: elapsed };
            self.window_token_count = 0;
            self.window_started_at = now;
        }
        self.last_token_at = now;
    }

    /// Records a token that was generated just now.
    pub fn record_token(&mut self)
        ensures
            exists|now: u128|
                old(self)@.is_moment_read(now) && final(self)@ == #[trigger] old(
                    self,
                )@.after_token(now),
    {
        let now: u128 = self.read_moment();
        self.record_token_at(now);
    }

    /// The moment of this call, in nanoseconds since the meter was made.
    fn read_moment(&self) -> (now: u128)
        ensures
            self@.is_moment_read(now),
    {
        read_clock(&self.created_at)
    }

    /// The most recently measured rate, `now` nanoseconds after the meter was
    /// made, or no tokens at all if generation has been idle for longer than
    /// [`STALE_AFTER`].
    pub fn tokens_per_second_at(&self, now: u128) -> (rate: TokenRate)
        ensures
            rate == self@.rate_at(now),
    {
        if time_passed(self.last_token_at, now) > STALE_AFTER {
            return TokenRate { tokens: 0, elapsed_nanos: WINDOW_DURATION };
        }
        self.measured
    }

    /// The rate as of now.
    pub fn tokens_per_second(&self) -> (rate: TokenRate)
        ensures
            exists|now: u128| self@.is_moment_read(now) && rate == #[trigger] self@.rate_at(now),
    {
        let now: u128 = self.read_moment();
        self.tokens_per_second_at(now)
    }
}

impl Default for TokenThroughputMeter {
    fn default() -> (meter: Self)
        ensures
            meter@ == ThroughputWindow::initial(meter@.created_at),
    {
        TokenThroughputMeter::new()
    }
}

/// A token that closes a window leaves a positive rate over at least one window
/// behind, which is reported until the meter has been idle for too long, and
/// opens a new window.
pub proof fn a_closed_window_reports_a_positive_rate(
    window: ThroughputWindow,
    now: u128,
    later: u128,
)
    requires
        time_between(window.started_at, now) >= WINDOW_DURATION,
        time_between(now, later) <= STALE_AFTER,
    ensures
        window.after_token(now).rate_at(later).tokens > 0,
        window.after_token(now).rate_at(later).elapsed_nanos >= WINDOW_DURATION,
        window.after_token(now).started_at == now,
        window.after_token(now).token_count == 0,
{
}

/// A meter decays to no tokens at all once it has been idle for too long,
/// whatever it measured and counted before.
pub proof fn an_idle_meter_decays_to_zero(window: ThroughputWindow, now: u128, later: u128)
    requires
        time_between(now, later) > STALE_AFTER,
    ensures
        window.after_token(now).rate_at(later) == idle_rate(),
{
}

/// Tokens within an open window do not change the reported rate, nor when the
/// window was opened.
pub proof fn tokens_within_a_window_leave_the_rate(window: ThroughputWindow, now: u128)
    requires
        time_between(window.started_at, now) < WINDOW_DURATION,
    ensures
        window.after_token(now).measured == window.measured,
        window.after_token(now).started_at == window.started_at,
        window.after_token(now).token_count >= window.token_count,
{
}

/// The meter after tokens at the given moments, one after the other.
pub open spec fn after_tokens(window: ThroughputWindow, moments: Seq<u128>) -> ThroughputWindow
    decreases moments.len(),
{
    if moments.len() == 0 {
        window
    } else {
        after_tokens(window, moments.drop_last()).after_token(moments.last())
    }
}

proof fn lemma_tokens_are_counted(window: ThroughputWindow, moments: Seq<u128>)
    requires
        window.token_count == 0,
        moments.len() < COUNT_LIMIT,
        forall|i: int|
            0 <= i < moments.len() ==> window.started_at <= #[trigger] moments[i]
                < window.started_at + 1_000_000_000,
    ensures
        after_tokens(window, moments).token_count == moments.len(),
        after_tokens(window, moments).started_at == window.started_at,
        after_tokens(window, moments).measured == window.measured,
    decreases moments.len(),
{
    if moments.len() > 0 {
        lemma_tokens_are_counted(window, moments.drop_last());
        assert(moments.last() == moments[moments.len() - 1]);
    }
}

/// The rate that is reported is that of the window that was closed last: all tokens
/// of a window, the one that closes it at least a second after it was opened among
/// them, over the time for which it was open. It is reported until two seconds have
/// passed without a token, and then there are no tokens at all.
pub proof fn a_rate_counts_the_tokens_of_a_window(
    window: ThroughputWindow,
    moments: Seq<u128>,
    closed_at: u128,
    asked_at: u128,
)
    requires
        window.token_count == 0,
        moments.len() < 9_007_199_254_740_992,
        forall|i: int|
            0 <= i < moments.len() ==> window.started_at <= #[trigger] moments[i]
                < window.started_at + 1_000_000_000,
        closed_at >= window.started_at + 1_000_000_000,
        asked_at >= closed_at,
    ensures
        ({
            let rate = after_tokens(window, moments.push(closed_at)).rate_at(asked_at);
            if asked_at - closed_at <= 2_000_000_000 {
                &&& rate.tokens == moments.len() + 1
                &&& rate.elapsed_nanos == closed_at - window.started_at
            } else {
                rate.tokens == 0
            }
        }),
        after_tokens(window, moments.push(closed_at)).token_count == 0,
        after_tokens(window, moments.push(closed_at)).started_at == closed_at,
{
    lemma_tokens_are_counted(window, moments);
    assert(moments.push(closed_at).drop_last() =~= moments);
}

/// An agent that generates nothing for more than two seconds reports no tokens at
/// all, and one that generates goes on to report what was measured: the moment that
/// counts is that of the call.
pub proof fn idle_time_is_what_counts(window: ThroughputWindow, now: u128)
    requires
        window.is_moment_read(now),
    ensures
        now - window.last_token_at > 2_000_000_000 ==> window.rate_at(now).tokens == 0,
        now - window.last_token_at <= 2_000_000_000 ==> window.rate_at(now) == window.measured,
{
}

/// A token closes the window exactly if the window has been open for a second, and is then
/// counted in what is measured; else it is counted in the open window.
pub proof fn a_token_is_counted_once(meter: &mut TokenThroughputMeter, now: u128)
    requires
        call_ensures(TokenThroughputMeter::record_token_at, (meter, now), ()),
        now >= old(meter)@.started_at,
        old(meter)@.token_count < 9_007_199_254_740_992,
    ensures
        ({
            let before = old(meter)@;
            let after = final(meter)@;
            let closes = now - before.started_at >= 1_000_000_000;
            &&& closes ==> after.measured.tokens == before.token_count + 1
                && after.measured.elapsed_nanos == now - before.started_at && after.token_count == 0
                && after.started_at == now
            &&& !closes ==> after.measured == before.measured && after.token_count
                == before.token_count + 1 && after.started_at == before.started_at
            &&& after.last_token_at == now
            &&& after.created_at == before.created_at
        }),
{
}

/// The rate is what was measured last, unless no token was recorded for more than two
/// seconds: then there are no tokens at all.
pub proof fn a_rate_is_reported_for_two_seconds(
    meter: &TokenThroughputMeter,
    now: u128,
    rate: TokenRate,
)
    requires
        call_ensures(TokenThroughputMeter::tokens_per_second_at, (meter, now), rate),
    ensures
        now <= meter@.last_token_at + 2_000_000_000 ==> rate == meter@.measured,
        now > meter@.last_token_at + 2_000_000_000 ==> rate.tokens == 0,
        rate == meter@.measured || rate.tokens == 0,
{
}

/// What is recorded and asked for without a moment is so for the moment of the call, as
/// the clock says it: a token is the last one from then on, and a rate is that of then.
pub proof fn the_clock_says_when_a_call_is_made(
    recorded: &mut TokenThroughputMeter,
    asked: &TokenThroughputMeter,
    rate: TokenRate,
)
    requires
        call_ensures(TokenThroughputMeter::record_token, (recorded,), ()),
        call_ensures(TokenThroughputMeter::tokens_per_second, (asked,), rate),
    ensures
        exists|nanos: u128|
            {
                &&& #[trigger] is_clock_reading(old(recorded)@.created_at, nanos)
                &&& final(recorded)@.last_token_at == nanos
            },
        exists|nanos: u128|
            {
                &&& #[trigger] is_clock_reading(asked@.created_at, nanos)
                &&& nanos > asked@.last_token_at + 2_000_000_000 ==> rate.tokens == 0
                &&& nanos <= asked@.last_token_at + 2_000_000_000 ==> rate == asked@.measured
            },
{
    let recorded_at = choose|now: u128|
        old(recorded)@.is_moment_read(now) && final(recorded)@ == #[trigger] old(
            recorded,
        )@.after_token(now);
    assert(old(recorded)@.is_moment_read(recorded_at));
    let asked_at = choose|now: u128|
        asked@.is_moment_read(now) && rate == #[trigger] asked@.rate_at(now);
    assert(asked@.is_moment_read(asked_at));
}

/// A new meter has counted and measured nothing, and reports no tokens at any moment.
pub proof fn a_new_meter_reports_no_tokens(
    meter: TokenThroughputMeter,
    now: u128,
    rate: TokenRate,
)
    requires
        call_ensures(TokenThroughputMeter::default, (), meter),
        call_ensures(TokenThroughputMeter::tokens_per_second_at, (&meter, now), rate),
    ensures
        rate.tokens == 0,
        meter@.token_count == 0,
{
}

} // verus!
