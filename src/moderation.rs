//! Moderation: a per-connection rate-limited acceptability check on
//! outgoing chat text, backed by rustrict's `Context`.

use std::time::Duration;
use rustrict::{BlockReason, Context, ContextProcessingOptions, ContextRateLimitOptions};
use vstd::prelude::*;

verus! {

#[verifier::external_type_specification]
#[verifier::external_body]
pub struct ExContext(Context);

#[verifier::external_type_specification]
#[verifier::external_body]
pub struct ExBlockReason(BlockReason);

/// Relies on rustrict's `Context::new`: a context with no history.
pub assume_specification[ Context::new ]() -> Context;

/// The knobs of the acceptability check.
#[derive(Debug, Clone, Copy, PartialEq, Eq)]
pub struct ModerationOptions {
    pub block_if_muted: bool,
    pub block_if_empty: bool,
    pub block_if_severely_inappropriate: bool,
    pub trim_whitespace: bool,
    /// Minimum time between messages beyond the burst, in milliseconds.
    pub rate_limit_interval_ms: u64,
    /// How many messages after the first may come faster than the interval.
    pub rate_limit_burst: u8,
}

/// The options the relay moderates with: nothing is blocked for being muted,
/// empty or severe, whitespace is trimmed, and the rate limit lets five
/// messages through at once, then one per 500 ms. rustrict opens its
/// rate-limit window with the first message and counts its burst from the
/// second one on, so a burst of four there gives five messages at once.
pub fn context_options() -> (r: ModerationOptions)
    ensures
        !r.block_if_muted,
        !r.block_if_empty,
        !r.block_if_severely_inappropriate,
        r.trim_whitespace,
        r.rate_limit_interval_ms == 500,
        r.rate_limit_burst == 4,
{
    ModerationOptions {
        block_if_muted: false,
        block_if_empty: false,
        block_if_severely_inappropriate: false,
        trim_whitespace: true,
        rate_limit_interval_ms: 500,
        rate_limit_burst: 4,
    }
}

/// What the moderator decided on one text.
#[derive(Debug, Clone, PartialEq, Eq)]
pub enum ModerationOutcome {
    /// The text may be published, as given here (censored and trimmed).
    Accepted(String),
    /// The text is held back; the sender is restricted for `duration`.
    Banned { duration: Duration, reason: String },
}

/// Relies on rustrict's `Context::process_with_options`, given the knobs of
/// `o` and rustrict's defaults for the rest: the censored text, or why it is
/// blocked. The answer depends on the time and on the context's history, so
/// nothing is promised of it. rustrict divides by the rate-limit interval once
/// it accepts a text, so the interval must not be zero.
#[verifier::external_body]
fn process(ctx: &mut Context, text: String, o: &ModerationOptions) -> Result<String, BlockReason>
    requires
        o.rate_limit_interval_ms > 0,
{
    let options = ContextProcessingOptions {
        block_if_muted: o.block_if_muted,
        block_if_empty: o.block_if_empty,
        block_if_severely_inappropriate: o.block_if_severely_inappropriate,
        rate_limit: Some(ContextRateLimitOptions {
            limit: Duration::from_millis(o.rate_limit_interval_ms),
            burst: o.rate_limit_burst,
            ..Default::default()
        }),
        trim_whitespace: o.trim_whitespace,
        ..Default::default()
    };
    ctx.process_with_options(text, &options)
}

/// Relies on rustrict's `Context::restricted_for`: how long the sender stays
/// restricted, which depends on the time.
#[verifier::external_body]
fn restricted_for(ctx: &Context) -> Duration {
    ctx.restricted_for()
}

/// Relies on rustrict's `BlockReason::generic_str`: a warning to show the sender.
#[verifier::external_body]
fn block_reason_text(reason: BlockReason) -> String {
    reason.generic_str().to_owned()
}

/// A moderation check as the contracts see it: the options it checks with,
/// and every text handed to it so far, oldest first.
pub struct GateModel {
    pub options: ModerationOptions,
    pub checked: Seq<Seq<char>>,
}

/// The acceptability check of one connection, with its own rate-limit state.
pub struct ModerationGate {
    ctx: Context,
    options: ModerationOptions,
    checked: Ghost<Seq<Seq<char>>>,
}

impl View for ModerationGate {
    type V = GateModel;

    closed spec fn view(&self) -> GateModel {
        GateModel { options: self.options, checked: self.checked@ }
    }
}

impl ModerationGate {
    /// A check with the given options and no history. rustrict needs a rate-limit
    /// interval above zero.
    pub fn new(options: &ModerationOptions) -> (r: ModerationGate)
        requires
            options.rate_limit_interval_ms > 0,
        ensures
            r@.options == *options,
            r@.checked == Seq::<Seq<char>>::empty(),
    {
        ModerationGate { ctx: Context::new(), options: *options, checked: Ghost(Seq::empty()) }
    }

    /// Checks `text` with this check's options, counting it against the rate
    /// limit. Whether it passes depends on the time and the history, so the
    /// verdict itself is not promised.
    pub fn evaluate(&mut self, text: String) -> (r: ModerationOutcome)
        requires
            old(self)@.options.rate_limit_interval_ms > 0,
        ensures
            final(self)@.options == old(self)@.options,
            final(self)@.checked == old(self)@.checked.push(text@),
    {
        let ghost t = text@;
        let verdict = process(&mut self.ctx, text, &self.options);
        self.checked = Ghost(self.checked@.push(t));
        match verdict {
            Ok(accepted) => ModerationOutcome::Accepted(accepted),
            Err(reason) => ModerationOutcome::Banned {
                duration: restricted_for(&self.ctx),
                reason: block_reason_text(reason),
            },
        }
    }
}

} // verus!
