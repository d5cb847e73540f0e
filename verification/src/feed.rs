//! The live metadata feed: envelope unwrapping and the reconnect
//! policy.
//!
//! The transport (a Server-Sent Events connection) lives outside the
//! library. What the library pins down is the policy around it: every
//! received envelope yields its now-playing message, and an outage is
//! retried with a bounded budget and a fixed delay, the failure count
//! resetting on any successfully received message.

use vstd::prelude::*;

use crate::models::CodeRadioMessage;

verus! {

/// How many consecutive connection failures one outage may consume
/// before the feed turns terminally failed.
pub const FEED_RETRY_BUDGET: u8 = 3;

/// Seconds to wait between reconnection attempts within an outage.
pub const FEED_RETRY_DELAY_SECONDS: u64 = 1;

/// One envelope of the push feed's channel protocol.
#[derive(Debug, Clone)]
pub struct SeverSentEventsChannelMessage<TData> {
    pub channel: String,
    pub publication: Pub<TData>,
}

/// The publication part of a feed envelope.
#[derive(Debug, Clone)]
pub struct Pub<TData> {
    pub data: TData,
    pub offset: i64,
}

/// The now-playing payload carried by a feed envelope.
#[derive(Debug, Clone)]
pub struct Np {
    pub np: CodeRadioMessage,
}

/// Unwrap a feed envelope to the now-playing message it carries.
pub fn now_playing_from_envelope(envelope: SeverSentEventsChannelMessage<Np>) -> (message:
    CodeRadioMessage)
    ensures
        message == envelope.publication.data.np,
{
    envelope.publication.data.np
}

/// What the transport reports to the feed client, one report at a
/// time.
#[derive(Debug, Clone)]
pub enum FeedEvent {
    /// A now-playing message arrived on the connection.
    MessageReceived(CodeRadioMessage),
    /// The connection could not be established or dropped.
    ConnectionFailed,
}

/// What the feed client tells its driver to do after one report.
#[derive(Debug, Clone)]
pub enum FeedAction {
    /// Hand the message to the consumer.
    Deliver(CodeRadioMessage),
    /// Wait [`FEED_RETRY_DELAY_SECONDS`] and reconnect.
    RetryAfterDelay,
    /// The outage exhausted the retry budget: fail terminally.
    GiveUp,
}

/// One step of the reconnect policy: a message resets the failure
/// count and is delivered; a failure is retried until the outage has
/// consumed the whole budget, then the feed gives up.
pub open spec fn spec_feed_step(failures: u8, event: FeedEvent) -> (u8, FeedAction) {
    match event {
        FeedEvent::MessageReceived(message) => (0u8, FeedAction::Deliver(message)),
        FeedEvent::ConnectionFailed => if failures + 1 < FEED_RETRY_BUDGET {
            ((failures + 1) as u8, FeedAction::RetryAfterDelay)
        } else {
            (FEED_RETRY_BUDGET, FeedAction::GiveUp)
        },
    }
}

/// The actions the policy takes on a whole sequence of reports,
/// starting from `failures` consumed in the current outage.
pub open spec fn spec_run_feed(failures: u8, events: Seq<FeedEvent>) -> Seq<FeedAction>
    decreases events.len(),
{
    if events.len() == 0 {
        seq![]
    } else {
        let step = spec_feed_step(failures, events[0]);
        seq![step.1] + spec_run_feed(step.0, events.drop_first())
    }
}

/// The maintained state of the metadata feed: how much of the retry
/// budget the current outage has consumed.
pub struct LiveFeedClient {
    consecutive_failures: u8,
}

impl LiveFeedClient {
    /// Failures consumed by the current outage.
    pub closed spec fn spec_failures(&self) -> u8 {
        self.consecutive_failures
    }

    /// The failure count never exceeds the budget.
    pub closed spec fn wf(&self) -> bool {
        self.consecutive_failures <= FEED_RETRY_BUDGET
    }

    /// A freshly connected feed: no outage in progress.
    pub fn new() -> (client: LiveFeedClient)
        ensures
            client.wf(),
            client.spec_failures() == 0,
    {
        LiveFeedClient { consecutive_failures: 0 }
    }

    /// Advance the policy by one transport report.
    pub fn on_event(&mut self, event: FeedEvent) -> (action: FeedAction)
        requires
            old(self).wf(),
        ensures
            final(self).wf(),
            (final(self).spec_failures(), action) == spec_feed_step(
                old(self).spec_failures(),
                event,
            ),
    {
        match event {
            FeedEvent::MessageReceived(message) => {
                self.consecutive_failures = 0;
                FeedAction::Deliver(message)
            },
            FeedEvent::ConnectionFailed => {
                if self.consecutive_failures + 1 < FEED_RETRY_BUDGET {
                    self.consecutive_failures = self.consecutive_failures + 1;
                    FeedAction::RetryAfterDelay
                } else {
                    self.consecutive_failures = FEED_RETRY_BUDGET;
                    FeedAction::GiveUp
                }
            },
        }
    }
}

/// The policy answers every report with exactly one action.
proof fn lemma_run_feed_len(failures: u8, events: Seq<FeedEvent>)
    ensures
        spec_run_feed(failures, events).len() == events.len(),
    decreases events.len(),
{
    if events.len() > 0 {
        let step = spec_feed_step(failures, events[0]);
        lemma_run_feed_len(step.0, events.drop_first());
    }
}

/// An outage of `k` consecutive failures, `k` within the budget,
/// leaves every one of those reports answered with a retry, and the
/// policy then continues on the remaining reports with `k` more
/// failures consumed.
proof fn lemma_run_feed_failures(failures: u8, k: nat, rest: Seq<FeedEvent>)
    requires
        failures + k < FEED_RETRY_BUDGET,
    ensures
        ({
            let events = Seq::new(k, |i: int| FeedEvent::ConnectionFailed) + rest;
            let run = spec_run_feed(failures, events);
            &&& run.len() == k + rest.len()
            &&& forall|i: int| 0 <= i < k ==> run[i] == FeedAction::RetryAfterDelay
            &&& run.skip(k as int) == spec_run_feed((failures + k) as u8, rest)
        }),
    decreases k,
{
    let events = Seq::new(k, |i: int| FeedEvent::ConnectionFailed) + rest;
    let run = spec_run_feed(failures, events);
    if k == 0 {
        assert(events =~= rest);
        lemma_run_feed_len(failures, events);
        assert(run.skip(0) =~= run);
    } else {
        assert(events[0] == FeedEvent::ConnectionFailed);
        let step = spec_feed_step(failures, events[0]);
        assert(step.0 == (failures + 1) as u8 && step.1 == FeedAction::RetryAfterDelay);
        let tail_events = Seq::new((k - 1) as nat, |i: int| FeedEvent::ConnectionFailed) + rest;
        assert(events.drop_first() =~= tail_events);
        lemma_run_feed_failures((failures + 1) as u8, (k - 1) as nat, rest);
        let tail_run = spec_run_feed((failures + 1) as u8, tail_events);
        assert(run =~= seq![step.1] + tail_run);
        assert(run.len() == k + rest.len());
        assert forall|i: int| 0 <= i < k implies run[i] == FeedAction::RetryAfterDelay by {
            if i > 0 {
                assert(run[i] == tail_run[i - 1]);
            }
        }
        assert(run.skip(k as int) =~= tail_run.skip((k - 1) as int));
        assert(tail_run.skip((k - 1) as int) == spec_run_feed((failures + k) as u8, rest));
    }
}

/// An outage shorter than the retry budget, followed by a successful
/// message, ultimately delivers that message: every failure is
/// answered with a retry, never a give-up, and the message's report is
/// answered with its delivery.
pub proof fn lemma_feed_recovers_within_budget(k: nat, message: CodeRadioMessage)
    requires
        k < FEED_RETRY_BUDGET,
    ensures
        ({
            let events = Seq::new(k, |i: int| FeedEvent::ConnectionFailed) + seq![
                FeedEvent::MessageReceived(message),
            ];
            let run = spec_run_feed(0, events);
            &&& run.len() == k + 1
            &&& forall|i: int| 0 <= i < k ==> run[i] == FeedAction::RetryAfterDelay
            &&& run[k as int] == FeedAction::Deliver(message)
        }),
{
    let rest = seq![FeedEvent::MessageReceived(message)];
    lemma_run_feed_failures(0, k, rest);
    let events = Seq::new(k, |i: int| FeedEvent::ConnectionFailed) + rest;
    let run = spec_run_feed(0, events);
    let tail_run = spec_run_feed(k as u8, rest);
    assert(tail_run =~= seq![FeedAction::Deliver(message)] + spec_run_feed(0, rest.drop_first()));
    assert(run[k as int] == run.skip(k as int)[0]);
}

/// An outage of as many consecutive failures as the whole budget is
/// terminal: the last report is answered with a give-up.
pub proof fn lemma_feed_gives_up_at_budget()
    ensures
        ({
            let events = Seq::new(FEED_RETRY_BUDGET as nat, |i: int| FeedEvent::ConnectionFailed);
            let run = spec_run_feed(0, events);
            &&& run.len() == FEED_RETRY_BUDGET
            &&& forall|i: int| 0 <= i < FEED_RETRY_BUDGET - 1 ==> run[i]
                == FeedAction::RetryAfterDelay
            &&& run[FEED_RETRY_BUDGET - 1] == FeedAction::GiveUp
        }),
{
    let k = (FEED_RETRY_BUDGET - 1) as nat;
    let rest = seq![FeedEvent::ConnectionFailed];
    lemma_run_feed_failures(0, k, rest);
    let events = Seq::new(FEED_RETRY_BUDGET as nat, |i: int| FeedEvent::ConnectionFailed);
    let prefixed = Seq::new(k, |i: int| FeedEvent::ConnectionFailed) + rest;
    assert(events =~= prefixed);
    let run = spec_run_feed(0, events);
    let tail_run = spec_run_feed(k as u8, rest);
    assert(tail_run =~= seq![FeedAction::GiveUp] + spec_run_feed(
        FEED_RETRY_BUDGET,
        rest.drop_first(),
    ));
    assert(run[FEED_RETRY_BUDGET - 1] == run.skip(k as int)[0]);
}

} // verus!
