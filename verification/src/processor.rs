//! The consumer loop: fetch a batch, dispatch it envelope by envelope,
//! commit, and fetch again.
//!
//! The loop is a state machine. [`ConsumerService::start_processing`] names
//! the first thing to do. Whoever runs the loop does it, and reports what
//! came of it to [`ConsumerService::step`], which names the next thing.
//! Envelopes are dispatched in fetch order. An envelope counts as settled
//! once its handler succeeded or its re-publish to the retry or dead-letter
//! topic succeeded, and nothing is committed before the whole batch is
//! settled.

use vstd::prelude::*;
use crate::config::{AppConfig, RetryConfig};
use crate::consumer::{
    ConsumedEvent, ConsumedView, FetchRequest, FetchRequestView, KafkaConsumer, Source,
};
use crate::error::{DeliveryError, FatalError};
use crate::models::{EnvelopeView, EventEnvelope};
use crate::retry::{backoff_delay, decide, RetryCoordinator, RetryDecision, RetryDecisionView};

verus! {

/// Where the loop stands.
#[derive(Clone, Copy, Debug, PartialEq, Eq, Structural)]
pub enum Phase {
    /// Between batches, waiting for a fetch.
    Fetching,
    /// Waiting for the handler's verdict on the current envelope.
    AwaitingHandler,
    /// Waiting for the re-publish of the current envelope.
    AwaitingPublish,
    /// The batch is settled; waiting for the commit.
    Committing,
    /// A re-publish failed; waiting before the batch is dispatched again.
    Stalled,
}

/// How an envelope was settled.
#[derive(Clone, Copy, Debug, PartialEq, Eq, Structural)]
pub enum Resolution {
    /// The handler processed it.
    Handled,
    /// It was re-published to the retry topic.
    Retried,
    /// It was published to the dead-letter topic.
    DeadLettered,
}

/// What the runner of the loop reports.
#[derive(Debug, PartialEq, Eq)]
pub enum Event {
    /// The fetch returned this batch, which may be empty.
    Fetched(Vec<ConsumedEvent>),
    /// The handler finished the current envelope, or failed for the reason
    /// given.
    Handled(Result<(), String>),
    /// The re-publish of the current envelope ended like this.
    Published(Result<u64, DeliveryError>),
    /// The commit went through.
    Committed,
    /// The stall delay is over.
    StallElapsed,
}

/// Mathematical content of an [`Event`].
pub enum EventView {
    Fetched(Seq<ConsumedView>),
    Handled(Result<(), Seq<char>>),
    Published(Result<u64, DeliveryError>),
    Committed,
    StallElapsed,
}

/// The content of a batch.
pub open spec fn batch_view(batch: Seq<ConsumedEvent>) -> Seq<ConsumedView> {
    batch.map_values(|consumed: ConsumedEvent| consumed@)
}

impl View for Event {
    type V = EventView;

    open spec fn view(&self) -> EventView {
        match self {
            Event::Fetched(batch) => EventView::Fetched(batch_view(batch@)),
            Event::Handled(Ok(())) => EventView::Handled(Ok(())),
            Event::Handled(Err(reason)) => EventView::Handled(Err(reason@)),
            Event::Published(outcome) => EventView::Published(*outcome),
            Event::Committed => EventView::Committed,
            Event::StallElapsed => EventView::StallElapsed,
        }
    }
}

/// What the runner of the loop is to do next.
#[derive(Debug, PartialEq, Eq)]
pub enum Action {
    /// Fetch a batch and report it.
    Fetch(FetchRequest),
    /// Hand this envelope to the handler and report the verdict.
    Process(EventEnvelope),
    /// Carry out this decision and report how the publish ended: for a
    /// retry, wait for the backoff and publish the envelope to the retry
    /// topic; for a dead letter, publish the envelope with its reason to
    /// the dead-letter topic.
    Republish(RetryDecision),
    /// Commit `offset` for the partition and report it.
    Commit { topic: String, partition: u32, offset: u64 },
    /// Commit nothing, wait `delay_ms` milliseconds and report it.
    Stall { delay_ms: u64 },
}

/// Mathematical content of an [`Action`].
pub enum ActionView {
    Fetch(FetchRequestView),
    Process(EnvelopeView),
    Republish(RetryDecisionView),
    Commit { topic: Seq<char>, partition: u32, offset: u64 },
    Stall { delay_ms: u64 },
}

impl View for Action {
    type V = ActionView;

    open spec fn view(&self) -> ActionView {
        match self {
            Action::Fetch(request) => ActionView::Fetch(request@),
            Action::Process(envelope) => ActionView::Process(envelope@),
            Action::Republish(decision) => ActionView::Republish(decision@),
            Action::Commit { topic, partition, offset } => ActionView::Commit {
                topic: topic@,
                partition: *partition,
                offset: *offset,
            },
            Action::Stall { delay_ms } => ActionView::Stall { delay_ms: *delay_ms },
        }
    }
}

/// The reason that tags an envelope which arrives with its retries already
/// used up.
pub open spec fn exhausted_reason() -> Seq<char> {
    "retries exhausted"@
}

/// The highest offset of a batch, and 0 for an empty one.
pub open spec fn highest_offset(batch: Seq<ConsumedView>) -> u64
    decreases batch.len(),
{
    if batch.len() == 0 {
        0
    } else {
        let before = highest_offset(batch.drop_last());
        if batch.last().offset >= before {
            batch.last().offset
        } else {
            before
        }
    }
}

/// How the publish that a decision asks for settles the envelope.
pub open spec fn resolution_of(decision: RetryDecisionView) -> Resolution {
    match decision {
        RetryDecisionView::Retry { .. } => Resolution::Retried,
        RetryDecisionView::DeadLetter { .. } => Resolution::DeadLettered,
    }
}

/// Mathematical content of a [`ConsumerService`]: its settings and the
/// state of its loop.
pub struct ServiceView {
    /// Name of the topic consumed.
    pub topic: Seq<char>,
    pub partition: u32,
    pub batch_size: usize,
    pub poll_timeout_ms: u32,
    pub policy: RetryConfig,
    pub auto_commit: bool,
    pub phase: Phase,
    /// The batch in hand, in fetch order.
    pub batch: Seq<ConsumedView>,
    /// How each settled envelope was settled. Envelopes are settled in
    /// order, so these are the first of the batch.
    pub resolved: Seq<Resolution>,
    /// The decision whose publish is awaited.
    pub pending: Option<RetryDecisionView>,
    /// Envelopes published to the dead-letter topic so far.
    pub dead_lettered: u64,
    /// Stalls so far.
    pub stalls: u64,
}

/// A count raised by one, held at the largest number that fits.
pub open spec fn bumped(count: u64) -> u64 {
    if count == u64::MAX {
        count
    } else {
        (count + 1) as u64
    }
}

impl ServiceView {
    /// The envelope being dispatched: the first that is not settled.
    pub open spec fn current(self) -> EnvelopeView {
        self.batch[self.resolved.len() as int].envelope
    }

    /// Whether `decision` is what the policy decides for the current
    /// envelope.
    pub open spec fn decided(self, decision: RetryDecisionView) -> bool {
        exists|reason: Seq<char>| decision == #[trigger] decide(self.policy, self.current(), reason)
    }

    /// The states that the loop can be in.
    pub open spec fn wf(self) -> bool {
        match self.phase {
            Phase::Fetching => self.batch.len() == 0 && self.resolved.len() == 0
                && self.pending is None,
            Phase::AwaitingHandler => self.resolved.len() < self.batch.len()
                && self.pending is None && self.current().attempt_count
                < self.policy.max_retries,
            Phase::AwaitingPublish => self.resolved.len() < self.batch.len()
                && self.pending is Some && self.decided(self.pending.unwrap()),
            Phase::Committing => 0 < self.batch.len() == self.resolved.len()
                && self.pending is None && !self.auto_commit,
            Phase::Stalled => 0 < self.batch.len() && self.resolved.len() == 0
                && self.pending is None,
        }
    }

    /// The state in which dispatch goes on after the settled envelopes.
    ///
    /// With the whole batch settled the loop commits, or, where the broker
    /// client commits by itself or nothing was fetched, fetches again. An
    /// envelope that arrives with its retries used up goes straight to the
    /// dead-letter topic, and no handler sees it. Any other envelope goes
    /// to the handler.
    pub open spec fn arranged(self) -> ServiceView {
        if self.resolved.len() >= self.batch.len() {
            if self.auto_commit || self.batch.len() == 0 {
                ServiceView {
                    phase: Phase::Fetching,
                    batch: Seq::empty(),
                    resolved: Seq::empty(),
                    pending: None,
                    ..self
                }
            } else {
                ServiceView { phase: Phase::Committing, pending: None, ..self }
            }
        } else if self.current().attempt_count >= self.policy.max_retries {
            ServiceView {
                phase: Phase::AwaitingPublish,
                pending: Some(decide(self.policy, self.current(), exhausted_reason())),
                ..self
            }
        } else {
            ServiceView { phase: Phase::AwaitingHandler, pending: None, ..self }
        }
    }

    /// The state after `event`.
    ///
    /// A handler's success settles the current envelope. A handler's
    /// failure asks the retry policy where the envelope goes, and the
    /// envelope is settled only when that publish has succeeded. If that
    /// publish fails the loop stalls: nothing is committed, and after the
    /// delay the same batch is dispatched again from its first envelope.
    /// Dead letters and stalls are counted. An event that the loop is not
    /// waiting for changes nothing.
    pub open spec fn next(self, event: EventView) -> ServiceView {
        match (self.phase, event) {
            (Phase::Fetching, EventView::Fetched(batch)) => ServiceView {
                batch,
                resolved: Seq::empty(),
                ..self
            }.arranged(),
            (Phase::AwaitingHandler, EventView::Handled(Ok(()))) => ServiceView {
                resolved: self.resolved.push(Resolution::Handled),
                ..self
            }.arranged(),
            (Phase::AwaitingHandler, EventView::Handled(Err(reason))) => ServiceView {
                phase: Phase::AwaitingPublish,
                pending: Some(decide(self.policy, self.current(), reason)),
                ..self
            },
            (Phase::AwaitingPublish, EventView::Published(Ok(_))) => ServiceView {
                resolved: self.resolved.push(resolution_of(self.pending.unwrap())),
                dead_lettered: if self.pending.unwrap() is DeadLetter {
                    bumped(self.dead_lettered)
                } else {
                    self.dead_lettered
                },
                ..self
            }.arranged(),
            (Phase::AwaitingPublish, EventView::Published(Err(_))) => ServiceView {
                phase: Phase::Stalled,
                resolved: Seq::empty(),
                pending: None,
                stalls: bumped(self.stalls),
                ..self
            },
            (Phase::Stalled, EventView::StallElapsed) => ServiceView {
                resolved: Seq::empty(),
                ..self
            }.arranged(),
            (Phase::Committing, EventView::Committed) => ServiceView {
                phase: Phase::Fetching,
                batch: Seq::empty(),
                resolved: Seq::empty(),
                pending: None,
                ..self
            },
            _ => self,
        }
    }

    /// What the loop waits for in this state.
    pub open spec fn action(self) -> ActionView {
        match self.phase {
            Phase::Fetching => ActionView::Fetch(
                FetchRequestView {
                    topic: self.topic,
                    partition: self.partition,
                    max_items: self.batch_size,
                    poll_timeout_ms: self.poll_timeout_ms,
                },
            ),
            Phase::AwaitingHandler => ActionView::Process(self.current()),
            Phase::AwaitingPublish => match self.pending {
                Some(decision) => ActionView::Republish(decision),
                None => ActionView::Stall { delay_ms: self.policy.base_delay_ms },
            },
            Phase::Committing => ActionView::Commit {
                topic: self.topic,
                partition: self.partition,
                offset: highest_offset(self.batch),
            },
            Phase::Stalled => ActionView::Stall { delay_ms: self.policy.base_delay_ms },
        }
    }
}

/// What a loop is set up with.
#[derive(Debug)]
struct Settings {
    consumer: KafkaConsumer,
    coordinator: RetryCoordinator,
    auto_commit: bool,
}

/// What a loop has counted.
#[derive(Clone, Copy, Debug, PartialEq, Eq)]
pub struct Tally {
    /// Envelopes published to the dead-letter topic.
    pub dead_lettered: u64,
    /// Stalls.
    pub stalls: u64,
}

/// The batch consumer loop of one partition.
#[derive(Debug)]
pub struct ConsumerService {
    settings: Settings,
    tally: Tally,
    phase: Phase,
    batch: Vec<ConsumedEvent>,
    resolved: Vec<Resolution>,
    pending: Option<RetryDecision>,
}

/// A step of the loop: the service after the event, and what to do next.
#[derive(Debug)]
pub struct Transition {
    pub service: ConsumerService,
    pub action: Action,
}

impl View for ConsumerService {
    type V = ServiceView;

    closed spec fn view(&self) -> ServiceView {
        ServiceView {
            phase: self.phase,
            batch: batch_view(self.batch@),
            resolved: self.resolved@,
            pending: match self.pending {
                Some(decision) => Some(decision@),
                None => None,
            },
            ..Self::fresh(self.settings, self.tally)
        }
    }
}

impl ConsumerService {
    #[verifier::type_invariant]
    spec fn inv(self) -> bool {
        self@.wf()
    }

    spec fn fresh(settings: Settings, tally: Tally) -> ServiceView {
        ServiceView {
            dead_lettered: tally.dead_lettered,
            stalls: tally.stalls,
            ..Self::initial(
                settings.consumer.topic@,
                settings.consumer.partition,
                settings.consumer.batch_size,
                settings.consumer.poll_timeout_ms,
                settings.coordinator.policy,
                settings.auto_commit,
            )
        }
    }

    /// The state in which a loop starts: between batches, with nothing in
    /// hand and nothing counted.
    pub open spec fn initial(
        topic: Seq<char>,
        partition: u32,
        batch_size: usize,
        poll_timeout_ms: u32,
        policy: RetryConfig,
        auto_commit: bool,
    ) -> ServiceView {
        ServiceView {
            topic,
            partition,
            batch_size,
            poll_timeout_ms,
            policy,
            auto_commit,
            phase: Phase::Fetching,
            batch: Seq::empty(),
            resolved: Seq::empty(),
            pending: None,
            dead_lettered: 0,
            stalls: 0,
        }
    }

    /// A loop over partition 0 of the events topic, with the default
    /// settings.
    pub fn new() -> (made: Result<Self, FatalError>)
        ensures
            made matches Ok(service) && service@ == Self::initial(
                "events"@,
                0,
                100,
                1_000,
                RetryConfig { max_retries: 3, base_delay_ms: 1_000, max_delay_ms: 60_000 },
                false,
            ),
    {
        ConsumerService::with_config(&AppConfig::default(), Source::Events, 0)
    }

    /// A loop over one partition of the events or the retry topic, unless
    /// a required setting is missing.
    pub fn with_config(config: &AppConfig, source: Source, partition: u32) -> (made: Result<
        Self,
        FatalError,
    >)
        ensures
            match made {
                Ok(service) => config.first_missing() is None && service@ == Self::initial(
                    KafkaConsumer::source_topic(config, source),
                    partition,
                    config.consumer.batch_size,
                    config.consumer.poll_timeout_ms,
                    config.retry,
                    config.consumer.auto_commit,
                ),
                Err(error) => config.first_missing() matches Some(field) && error
                    == FatalError::MissingConfig(field),
            },
    {
        match KafkaConsumer::with_config(config, source, partition) {
            Ok(consumer) => {
                let settings = Settings {
                    consumer,
                    coordinator: RetryCoordinator::new(config.retry),
                    auto_commit: config.consumer.auto_commit,
                };
                Ok(Self::idle(settings, Tally { dead_lettered: 0, stalls: 0 }))
            },
            Err(error) => Err(error),
        }
    }

    /// The consumer that fetches for this loop and decodes what it fetched.
    pub fn consumer(&self) -> (consumer: &KafkaConsumer)
        ensures
            consumer.topic@ == self@.topic,
            consumer.partition == self@.partition,
            consumer.batch_size == self@.batch_size,
            consumer.poll_timeout_ms == self@.poll_timeout_ms,
    {
        &self.settings.consumer
    }

    /// Where the loop stands.
    pub fn phase(&self) -> (phase: Phase)
        ensures
            phase == self@.phase,
    {
        self.phase
    }

    /// How the settled envelopes of the batch in hand were settled, in
    /// fetch order.
    pub fn resolved(&self) -> (resolved: &Vec<Resolution>)
        ensures
            resolved@ == self@.resolved,
    {
        &self.resolved
    }

    /// What this loop has counted so far, for its operators.
    pub fn tally(&self) -> (tally: Tally)
        ensures
            tally.dead_lettered == self@.dead_lettered,
            tally.stalls == self@.stalls,
    {
        self.tally
    }

    /// Whether the loop stands between batches, where it may be shut down.
    /// A dispatch or a commit under way is finished first.
    pub fn may_shut_down(&self) -> (idle: bool)
        ensures
            idle == (self@.phase == Phase::Fetching),
    {
        match self.phase {
            Phase::Fetching => true,
            _ => false,
        }
    }

    fn highest(batch: &Vec<ConsumedEvent>) -> (offset: u64)
        ensures
            offset == highest_offset(batch_view(batch@)),
    {
        let mut offset: u64 = 0;
        let mut i: usize = 0;
        assert(batch_view(batch@).take(0) =~= Seq::empty());
        while i < batch.len()
            invariant
                i <= batch@.len(),
                offset == highest_offset(batch_view(batch@).take(i as int)),
            decreases batch@.len() - i,
        {
            proof {
                let upto = batch_view(batch@).take(i + 1);
                assert(upto.drop_last() =~= batch_view(batch@).take(i as int));
                assert(upto.last() == batch@[i as int]@);
            }
            if batch[i].offset >= offset {
                offset = batch[i].offset;
            }
            i = i + 1;
        }
        assert(batch_view(batch@).take(i as int) =~= batch_view(batch@));
        offset
    }

    fn idle(settings: Settings, tally: Tally) -> (service: Self)
        ensures
            service@ == Self::fresh(settings, tally),
    {
        let service = ConsumerService {
            settings,
            tally,
            phase: Phase::Fetching,
            batch: Vec::new(),
            resolved: Vec::new(),
            pending: None,
        };
        assert(service@.batch =~= Seq::empty());
        service
    }

    fn arrange(
        settings: Settings,
        tally: Tally,
        batch: Vec<ConsumedEvent>,
        resolved: Vec<Resolution>,
    ) -> (service: Self)
        requires
            resolved@.len() <= batch@.len(),
        ensures
            service@ == (ServiceView {
                batch: batch_view(batch@),
                resolved: resolved@,
                ..Self::fresh(settings, tally)
            }).arranged(),
    {
        let settled = resolved.len();
        if settled >= batch.len() {
            if settings.auto_commit || batch.len() == 0 {
                Self::idle(settings, tally)
            } else {
                ConsumerService {
                    settings,
                    tally,
                    phase: Phase::Committing,
                    batch,
                    resolved,
                    pending: None,
                }
            }
        } else if settings.coordinator.is_exhausted(&batch[settled].envelope) {
            let reason = "retries exhausted".to_owned();
            let decision = settings.coordinator.on_failure(&batch[settled].envelope, reason);
            ConsumerService {
                settings,
                tally,
                phase: Phase::AwaitingPublish,
                batch,
                resolved,
                pending: Some(decision),
            }
        } else {
            ConsumerService {
                settings,
                tally,
                phase: Phase::AwaitingHandler,
                batch,
                resolved,
                pending: None,
            }
        }
    }

    /// What the loop waits for: for a new service, the first fetch.
    pub fn start_processing(&self) -> (action: Action)
        ensures
            action@ == self@.action(),
    {
        proof {
            use_type_invariant(self);
        }
        match self.phase {
            Phase::Fetching => Action::Fetch(self.settings.consumer.fetch_request()),
            Phase::AwaitingHandler => Action::Process(
                self.batch[self.resolved.len()].envelope.clone(),
            ),
            Phase::AwaitingPublish => match &self.pending {
                Some(decision) => Action::Republish(decision.clone()),
                None => Action::Stall { delay_ms: self.settings.coordinator.policy.base_delay_ms },
            },
            Phase::Committing => Action::Commit {
                topic: self.settings.consumer.topic.clone(),
                partition: self.settings.consumer.partition,
                offset: Self::highest(&self.batch),
            },
            Phase::Stalled => Action::Stall {
                delay_ms: self.settings.coordinator.policy.base_delay_ms,
            },
        }
    }

    /// Takes what the runner reports and says what to do next.
    pub fn step(self, event: Event) -> (taken: Transition)
        ensures
            taken.service@ == self@.next(event@),
            taken.action@ == taken.service@.action(),
    {
        proof {
            use_type_invariant(&self);
        }
        let ConsumerService { settings, tally, phase, batch, resolved, pending } = self;
        let service = match (phase, event) {
            (Phase::Fetching, Event::Fetched(fetched)) => {
                Self::arrange(settings, tally, fetched, Vec::new())
            },
            (Phase::AwaitingHandler, Event::Handled(Ok(()))) => {
                let mut resolved = resolved;
                resolved.push(Resolution::Handled);
                Self::arrange(settings, tally, batch, resolved)
            },
            (Phase::AwaitingHandler, Event::Handled(Err(reason))) => {
                let decision = settings.coordinator.on_failure(
                    &batch[resolved.len()].envelope,
                    reason,
                );
                ConsumerService {
                    settings,
                    tally,
                    phase: Phase::AwaitingPublish,
                    batch,
                    resolved,
                    pending: Some(decision),
                }
            },
            (Phase::AwaitingPublish, Event::Published(Ok(_))) => {
                let (how, tally) = match &pending {
                    Some(RetryDecision::DeadLetter { .. }) => (
                        Resolution::DeadLettered,
                        Tally { dead_lettered: tally.dead_lettered.saturating_add(1), ..tally },
                    ),
                    _ => (Resolution::Retried, tally),
                };
                let mut resolved = resolved;
                resolved.push(how);
                Self::arrange(settings, tally, batch, resolved)
            },
            (Phase::AwaitingPublish, Event::Published(Err(_))) => {
                ConsumerService {
                    settings,
                    tally: Tally { stalls: tally.stalls.saturating_add(1), ..tally },
                    phase: Phase::Stalled,
                    batch,
                    resolved: Vec::new(),
                    pending: None,
                }
            },
            (Phase::Stalled, Event::StallElapsed) => {
                Self::arrange(settings, tally, batch, Vec::new())
            },
            (Phase::Committing, Event::Committed) => Self::idle(settings, tally),
            (phase, _) => ConsumerService { settings, tally, phase, batch, resolved, pending },
        };
        let action = service.start_processing();
        Transition { service, action }
    }
}

/// The state after a run of events, taken in order.
pub open spec fn after(state: ServiceView, events: Seq<EventView>) -> ServiceView
    decreases events.len(),
{
    if events.len() == 0 {
        state
    } else {
        after(state, events.drop_last()).next(events.last())
    }
}

/// A step leads from a state of the loop to a state of the loop.
pub proof fn law_step_keeps_state(state: ServiceView, event: EventView)
    requires
        state.wf(),
    ensures
        state.next(event).wf(),
{
    let next = state.next(event);
    if next.phase == Phase::AwaitingPublish && next != state {
        match (state.phase, event) {
            (Phase::AwaitingHandler, EventView::Handled(Err(reason))) => {
                assert(next.pending.unwrap() == decide(next.policy, next.current(), reason));
            },
            _ => {
                assert(next.pending.unwrap() == decide(
                    next.policy,
                    next.current(),
                    exhausted_reason(),
                ));
            },
        }
    }
}

/// Whatever is reported to a loop, and in whatever order, it stays in one
/// of its states.
pub proof fn law_every_run_keeps_state(start: ServiceView, events: Seq<EventView>)
    requires
        start.wf(),
    ensures
        after(start, events).wf(),
    decreases events.len(),
{
    if events.len() > 0 {
        law_every_run_keeps_state(start, events.drop_last());
        law_step_keeps_state(after(start, events.drop_last()), events.last());
    }
}

/// The highest offset of a batch is the offset of one of its envelopes,
/// and none of them has a higher one.
pub proof fn law_highest_offset_covers_batch(batch: Seq<ConsumedView>)
    requires
        batch.len() > 0,
    ensures
        forall|i: int| 0 <= i < batch.len() ==> (#[trigger] batch[i]).offset <= highest_offset(batch),
        exists|i: int| 0 <= i < batch.len() && (#[trigger] batch[i]).offset == highest_offset(batch),
    decreases batch.len(),
{
    let before = batch.drop_last();
    let last = batch.len() - 1;
    if before.len() > 0 {
        law_highest_offset_covers_batch(before);
        assert forall|i: int| 0 <= i < batch.len() implies (#[trigger] batch[i]).offset
            <= highest_offset(batch) by {
            if i < last {
                assert(before[i] == batch[i]);
            }
        }
        if batch[last].offset >= highest_offset(before) {
            assert(batch[last].offset == highest_offset(batch));
        } else {
            let at = choose|i: int|
                0 <= i < before.len() && (#[trigger] before[i]).offset == highest_offset(before);
            assert(batch[at] == before[at]);
            assert(batch[at].offset == highest_offset(batch));
        }
    } else {
        assert(highest_offset(before) == 0);
        assert(batch[last].offset == highest_offset(batch));
    }
}

/// In every state that a loop can reach, a commit is asked for only when
/// each envelope of the batch is settled, only where the pipeline commits
/// by itself, and for the highest offset of the batch. So no offset is
/// committed for an envelope whose handling or re-publish has not
/// succeeded.
pub proof fn law_commit_only_when_batch_settled(start: ServiceView, events: Seq<EventView>)
    requires
        start.wf(),
        after(start, events).action() is Commit,
    ensures
        after(start, events).resolved.len() == after(start, events).batch.len(),
        after(start, events).batch.len() > 0,
        !start.auto_commit,
        after(start, events).action() == (ActionView::Commit {
            topic: start.topic,
            partition: start.partition,
            offset: highest_offset(after(start, events).batch),
        }),
{
    law_every_run_keeps_state(start, events);
    lemma_settings_stay(start, events);
}

proof fn lemma_settings_stay(start: ServiceView, events: Seq<EventView>)
    ensures
        after(start, events).topic == start.topic,
        after(start, events).partition == start.partition,
        after(start, events).batch_size == start.batch_size,
        after(start, events).poll_timeout_ms == start.poll_timeout_ms,
        after(start, events).policy == start.policy,
        after(start, events).auto_commit == start.auto_commit,
        after(start, events).dead_lettered >= start.dead_lettered,
        after(start, events).stalls >= start.stalls,
    decreases events.len(),
{
    if events.len() > 0 {
        lemma_settings_stay(start, events.drop_last());
    }
}

/// A step marks an envelope as settled only on the success of its handler
/// or of its re-publish, and then it is the current envelope that is
/// marked. Any other step leaves the marks as they are or clears them.
pub proof fn law_settled_only_by_success(state: ServiceView, event: EventView)
    requires
        state.wf(),
    ensures
        ({
            let next = state.next(event);
            ||| next.resolved == state.resolved
            ||| next.resolved.len() == 0
            ||| (state.phase == Phase::AwaitingHandler && (event matches EventView::Handled(Ok(_)))
                && next.resolved == state.resolved.push(Resolution::Handled))
            ||| (state.phase == Phase::AwaitingPublish && (event matches EventView::Published(
                Ok(_),
            )) && next.resolved == state.resolved.push(
                resolution_of(state.pending.unwrap()),
            ))
        }),
{
}

/// While the re-publish of an envelope has not succeeded, no step leads to
/// a commit and no step marks the envelope as settled.
pub proof fn law_no_commit_while_publish_unsettled(state: ServiceView, event: EventView)
    requires
        state.wf(),
        state.phase == Phase::AwaitingPublish,
        !(event matches EventView::Published(Ok(_))),
    ensures
        !(state.action() is Commit),
        !(state.next(event).action() is Commit),
        state.next(event).resolved.len() <= state.resolved.len(),
{
}

/// A failed re-publish stalls the partition: nothing is committed, the
/// batch stays in hand, and after the delay it is dispatched again from its
/// first envelope.
pub proof fn law_failed_publish_stalls(state: ServiceView, error: DeliveryError)
    requires
        state.wf(),
        state.phase == Phase::AwaitingPublish,
    ensures
        ({
            let stalled = state.next(EventView::Published(Err(error)));
            let resumed = stalled.next(EventView::StallElapsed);
            &&& stalled.action() == (ActionView::Stall { delay_ms: state.policy.base_delay_ms })
            &&& stalled.batch == state.batch
            &&& stalled.resolved.len() == 0
            &&& resumed.batch == state.batch
            &&& resumed.resolved.len() == 0
            &&& resumed.phase == Phase::AwaitingHandler || resumed.phase == Phase::AwaitingPublish
        }),
{
}

/// An envelope whose handler fails is re-published to the retry topic with
/// one more failure on record, after the backoff of that count. It is not
/// dead-lettered.
pub proof fn law_handler_failure_is_retried(state: ServiceView, reason: Seq<char>)
    requires
        state.wf(),
        state.phase == Phase::AwaitingHandler,
    ensures
        state.next(EventView::Handled(Err(reason))).action() == ActionView::Republish(
            RetryDecisionView::Retry {
                envelope: EnvelopeView {
                    attempt_count: (state.current().attempt_count + 1) as u32,
                    ..state.current()
                },
                backoff_ms: backoff_delay(
                    state.policy.base_delay_ms as nat,
                    state.policy.max_delay_ms as nat,
                    (state.current().attempt_count + 1) as nat,
                ) as u64,
            },
        ),
        state.current().attempt_count + 1 <= state.policy.max_retries,
{
}

/// No handler is given an envelope whose retries are used up; and what is
/// dead-lettered is the current envelope, unchanged, with its retries used
/// up.
pub proof fn law_exhausted_envelope_skips_handler(state: ServiceView)
    requires
        state.wf(),
    ensures
        state.action() is Process ==> state.action()->Process_0 == state.current()
            && state.current().attempt_count < state.policy.max_retries,
        state.action() matches ActionView::Republish(RetryDecisionView::DeadLetter { envelope, .. })
            ==> envelope == state.current() && envelope.attempt_count
            >= state.policy.max_retries,
        state.action() matches ActionView::Republish(RetryDecisionView::Retry { envelope, .. })
            ==> envelope.attempt_count == state.current().attempt_count + 1
            && envelope.attempt_count <= state.policy.max_retries,
{
}

/// The count of dead letters rises only when the publish of a dead letter
/// has succeeded, and the count of stalls only when a re-publish has
/// failed; neither ever falls.
pub proof fn law_counts_follow_events(state: ServiceView, event: EventView)
    requires
        state.wf(),
    ensures
        ({
            let next = state.next(event);
            &&& next.dead_lettered == if state.phase == Phase::AwaitingPublish && (
            event matches EventView::Published(Ok(_))) && state.pending.unwrap() is DeadLetter {
                bumped(state.dead_lettered)
            } else {
                state.dead_lettered
            }
            &&& next.stalls == if state.phase == Phase::AwaitingPublish && (
            event matches EventView::Published(Err(_))) {
                bumped(state.stalls)
            } else {
                state.stalls
            }
        }),
{
}

/// Where the broker client commits by itself, the loop never asks for a
/// commit.
pub proof fn law_auto_commit_never_commits(state: ServiceView)
    requires
        state.wf(),
        state.auto_commit,
    ensures
        !(state.action() is Commit),
{
}

} // verus!
