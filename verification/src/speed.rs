//! UI-only generation-rate metering. Estimates never enter usage or cost
//! accounting.
//!
//! Token counts are kept in quarter tokens: streamed text is estimated at four
//! characters per token, so every count the meter forms (completed tokens,
//! reported tokens and pending characters divided by four) is a whole number
//! of quarters.

use vstd::prelude::*;

verus! {

/// Four characters of streamed text count as one estimated token.
pub const CHARS_PER_TOKEN: u128 = 4;

/// A sample is only taken after a quarter of a second of generation, in
/// nanoseconds, to avoid a misleading spike from one nearly instantaneous chunk.
pub const MIN_SAMPLE_NANOS: u128 = 250_000_000;

/// The abstract state of a [`SpeedMeter`].
pub struct SpeedState {
    /// Tokens of the calls that already finished, in quarter tokens.
    pub completed_quarters: nat,
    /// Whether any finished call was only estimated.
    pub completed_estimated: bool,
    /// Characters streamed by the current call.
    pub chars: nat,
    /// Characters that had been streamed when the current usage report came in.
    pub chars_at_report: nat,
    /// Output tokens reported for the current call.
    pub reported: Option<u64>,
    /// Generation time of the latest output, in nanoseconds.
    pub elapsed_nanos: nat,
}

impl SpeedState {
    /// Characters streamed after the latest usage report.
    pub open spec fn pending(self) -> nat {
        if self.chars >= self.chars_at_report {
            (self.chars - self.chars_at_report) as nat
        } else {
            0
        }
    }

    /// The exact token count, in quarter tokens.
    pub open spec fn exact_quarters(self) -> nat {
        (self.completed_quarters + CHARS_PER_TOKEN * match self.reported {
            Some(t) => t as nat,
            None => 0nat,
        } + self.pending()) as nat
    }

    /// The token count as the meter holds it: the exact count, capped at the
    /// largest value the meter can store.
    pub open spec fn quarters(self) -> nat {
        if self.exact_quarters() <= u128::MAX {
            self.exact_quarters()
        } else {
            u128::MAX as nat
        }
    }

    /// Whether the count rests on an estimate from streamed characters.
    pub open spec fn estimated(self) -> bool {
        self.completed_estimated || self.pending() > 0
    }

    /// The meter before anything was streamed.
    pub open spec fn initial() -> SpeedState {
        SpeedState {
            completed_quarters: 0,
            completed_estimated: false,
            chars: 0,
            chars_at_report: 0,
            reported: None,
            elapsed_nanos: 0,
        }
    }

    /// The state after streamed text of `len` characters at `elapsed_nanos`.
    pub open spec fn after_output(self, len: nat, elapsed_nanos: nat) -> SpeedState {
        if len == 0 {
            self
        } else {
            SpeedState {
                chars: if self.chars + len <= usize::MAX {
                    self.chars + len
                } else {
                    usize::MAX as nat
                },
                elapsed_nanos,
                ..self
            }
        }
    }

    /// The state after a usage report of `tokens` output tokens.
    pub open spec fn after_usage(self, tokens: u64) -> SpeedState {
        if tokens == 0 || self.reported == Some(tokens) {
            self
        } else {
            SpeedState { reported: Some(tokens), chars_at_report: self.chars, ..self }
        }
    }

    /// The state when the next model call starts.
    pub open spec fn after_next_call(self) -> SpeedState {
        SpeedState {
            completed_quarters: self.quarters(),
            completed_estimated: self.estimated(),
            chars: 0,
            chars_at_report: 0,
            reported: None,
            ..self
        }
    }

    /// The sample the meter shows: present once it counted some tokens over at
    /// least a quarter of a second.
    pub open spec fn sample(self) -> Option<SpeedSample> {
        if self.quarters() > 0 && self.elapsed_nanos >= MIN_SAMPLE_NANOS {
            Some(
                SpeedSample {
                    quarter_tokens: self.quarters() as u128,
                    elapsed_nanos: self.elapsed_nanos as u128,
                    estimated: self.estimated(),
                },
            )
        } else {
            None
        }
    }
}

/// A generation-rate sample: `quarter_tokens / 4` tokens over
/// `elapsed_nanos / 10^9` seconds.
#[derive(Debug, Clone, Copy, PartialEq, Eq, Structural)]
pub struct SpeedSample {
    pub quarter_tokens: u128,
    pub elapsed_nanos: u128,
    pub estimated: bool,
}

/// Measures output tokens per second of generation time for the footer.
#[derive(Debug, Clone, Copy)]
pub struct SpeedMeter {
    completed_quarters: u128,
    completed_estimated: bool,
    chars: usize,
    chars_at_report: usize,
    reported: Option<u64>,
    elapsed_nanos: u128,
}

impl View for SpeedMeter {
    type V = SpeedState;

    closed spec fn view(&self) -> SpeedState {
        SpeedState {
            completed_quarters: self.completed_quarters as nat,
            completed_estimated: self.completed_estimated,
            chars: self.chars as nat,
            chars_at_report: self.chars_at_report as nat,
            reported: self.reported,
            elapsed_nanos: self.elapsed_nanos as nat,
        }
    }
}

impl SpeedMeter {
    /// The report mark never passes the streamed text.
    #[verifier::type_invariant]
    closed spec fn inv(self) -> bool {
        self.chars_at_report <= self.chars
    }

    /// A meter that has seen nothing yet.
    pub fn new() -> (meter: SpeedMeter)
        ensures
            meter@ == SpeedState::initial(),
            consistent(meter@),
    {
        SpeedMeter {
            completed_quarters: 0,
            completed_estimated: false,
            chars: 0,
            chars_at_report: 0,
            reported: None,
            elapsed_nanos: 0,
        }
    }

    /// The token count in quarter tokens and whether it is estimated.
    fn count(&self) -> (result: (u128, bool))
        ensures
            result.0 == self@.quarters(),
            result.1 == self@.estimated(),
    {
        let pending: usize = self.chars.saturating_sub(self.chars_at_report);
        let reported: u64 = self.reported.unwrap_or(0);
        let current: u128 = reported as u128 * CHARS_PER_TOKEN + pending as u128;
        (self.completed_quarters.saturating_add(current), self.completed_estimated || pending > 0)
    }

    /// Records streamed `text`, produced after `elapsed_nanos` of generation.
    /// Empty text changes nothing.
    pub fn output(&mut self, text: &str, elapsed_nanos: u128)
        ensures
            final(self)@ == old(self)@.after_output(text@.len(), elapsed_nanos as nat),
            consistent(final(self)@),
    {
        proof {
            use_type_invariant(&*self);
        }
        if !text.is_empty() {
            let len: usize = text.unicode_len();
            self.chars = self.chars.saturating_add(len);
            self.elapsed_nanos = elapsed_nanos;
        }
    }

    /// Records a usage report of `tokens` output tokens for the current call.
    /// A zero counter is no evidence that the streamed text held no tokens, and
    /// a repeated report changes nothing.
    pub fn usage(&mut self, tokens: u64)
        ensures
            final(self)@ == old(self)@.after_usage(tokens),
            consistent(final(self)@),
    {
        proof {
            use_type_invariant(&*self);
        }
        if tokens == 0 {
            return;
        }
        if self.reported != Some(tokens) {
            self.reported = Some(tokens);
            self.chars_at_report = self.chars;
        }
    }

    /// Closes the current model call: its count joins the completed tokens.
    pub fn next_call(&mut self)
        ensures
            final(self)@ == old(self)@.after_next_call(),
            consistent(final(self)@),
    {
        proof {
            use_type_invariant(&*self);
        }
        let (tokens, estimated) = self.count();
        self.completed_quarters = tokens;
        self.completed_estimated = estimated;
        self.chars_at_report = 0;
        self.chars = 0;
        self.reported = None;
    }

    /// The current rate sample, if there is one to show.
    pub fn sample(&self) -> (result: Option<SpeedSample>)
        ensures
            result == self@.sample(),
    {
        let (tokens, estimated) = self.count();
        if tokens > 0 && self.elapsed_nanos >= MIN_SAMPLE_NANOS {
            Some(SpeedSample { quarter_tokens: tokens, elapsed_nanos: self.elapsed_nanos, estimated })
        } else {
            None
        }
    }
}

impl Default for SpeedMeter {
    fn default() -> (meter: SpeedMeter)
        ensures
            meter@ == SpeedState::initial(),
    {
        SpeedMeter::new()
    }
}

/// A usage report with a zero output counter changes nothing.
pub proof fn law_zero_usage_is_ignored(s: SpeedState)
    ensures
        s.after_usage(0) == s,
{
}

/// Receiving the same usage report again changes nothing: the speed never
/// decays because a final report is repeated.
pub proof fn law_repeated_usage_is_idempotent(s: SpeedState, tokens: u64)
    ensures
        s.after_usage(tokens).after_usage(tokens) == s.after_usage(tokens),
{
}

/// Empty output changes nothing, not even the generation time.
pub proof fn law_empty_output_is_ignored(s: SpeedState, elapsed_nanos: nat)
    ensures
        s.after_output(0, elapsed_nanos) == s,
{
}

/// A fresh meter shows no speed.
pub proof fn law_fresh_meter_has_no_sample()
    ensures
        SpeedState::initial().sample() is None,
{
}

/// A new usage report replaces the estimate of the current call: the count
/// becomes the completed tokens plus the reported tokens, and it is estimated
/// only if a finished call was.
pub proof fn law_usage_replaces_estimate(s: SpeedState, tokens: u64)
    requires
        tokens > 0,
        s.reported != Some(tokens),
    ensures
        s.after_usage(tokens).pending() == 0,
        s.after_usage(tokens).exact_quarters() == s.completed_quarters + CHARS_PER_TOKEN * tokens,
        s.after_usage(tokens).estimated() == s.completed_estimated,
{
}

/// Starting the next call keeps the count, its estimate flag and therefore the
/// shown rate: the final rate stays visible until the next output.
pub proof fn law_next_call_keeps_rate(s: SpeedState)
    ensures
        s.after_next_call().quarters() == s.quarters(),
        s.after_next_call().estimated() == s.estimated(),
        s.after_next_call().sample() == s.sample(),
{
}

/// Every state a meter reaches has its report mark within the streamed text.
pub open spec fn consistent(s: SpeedState) -> bool {
    s.chars_at_report <= s.chars <= usize::MAX
}

/// The operations keep states consistent.
pub proof fn law_operations_keep_consistency(s: SpeedState, len: nat, elapsed_nanos: nat, tokens: u64)
    requires
        consistent(s),
    ensures
        consistent(SpeedState::initial()),
        consistent(s.after_output(len, elapsed_nanos)),
        consistent(s.after_usage(tokens)),
        consistent(s.after_next_call()),
{
}

/// Streamed text without a later report makes the count an estimate of four
/// characters per token.
pub proof fn law_output_is_estimated(s: SpeedState, len: nat, elapsed_nanos: nat)
    requires
        consistent(s),
        len > 0,
        s.chars + len <= usize::MAX,
    ensures
        s.after_output(len, elapsed_nanos).estimated(),
        s.after_output(len, elapsed_nanos).pending() == s.pending() + len,
        s.after_output(len, elapsed_nanos).elapsed_nanos == elapsed_nanos,
{
}

} // verus!
