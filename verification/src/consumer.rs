//! The consumer: which request goes to the broker session for each
//! operation, and what each answer of the session means.
//!
//! A [`BaseConsumer`] never talks to the session itself. An operation yields a
//! [`DriverCall`]; the embedding program performs it and hands the session's
//! answer to the matching `*_outcome` function.

use crate::error::{
    is_error, spec_is_error, DriverStatus, KafkaError, KafkaResult, RESP_ERR_ASSIGN_PARTITIONS,
    RESP_ERR_NO_ERROR, RESP_ERR_PARTITION_EOF, RESP_ERR_REVOKE_PARTITIONS,
};
use crate::message::Message;
use crate::topic_partition_list::{
    lemma_native_round_trip, lemma_topics_round_trip, list_from_native, list_representable,
    list_to_native, native_view, topics_model, NativeEntry, NativeEntryModel, TopicPartitionList,
    TopicPartitionModel,
};
use vstd::prelude::*;

verus! {

/// How a commit is acknowledged.
#[derive(Debug, Clone, Copy, PartialEq, Eq)]
pub enum CommitMode {
    /// Wait until the broker has confirmed the commit.
    Sync,
    /// Queue the commit and return; its fate is not observed.
    Async,
}

/// The flag by which the session is told how to commit.
pub open spec fn spec_async_flag(mode: CommitMode) -> i32 {
    match mode {
        CommitMode::Sync => 0i32,
        CommitMode::Async => 1i32,
    }
}

/// One change of group membership observed by the session.
#[derive(Debug, Clone, PartialEq, Eq)]
pub enum Rebalance {
    /// These partitions were assigned to the consumer.
    Assign(TopicPartitionList),
    /// The consumer's partitions were revoked.
    Revoke,
    /// The rebalance failed; carries the session's text.
    Error(String),
}

/// The mathematical value of a [`Rebalance`].
pub enum RebalanceModel {
    Assign(Seq<TopicPartitionModel>),
    Revoke,
    Error(Seq<char>),
}

impl View for Rebalance {
    type V = RebalanceModel;

    open spec fn view(&self) -> RebalanceModel {
        match *self {
            Rebalance::Assign(list) => RebalanceModel::Assign(list@),
            Rebalance::Revoke => RebalanceModel::Revoke,
            Rebalance::Error(text) => RebalanceModel::Error(text@),
        }
    }
}

/// The values of a list of rebalance events, in order.
pub open spec fn rebalance_views(events: Seq<Rebalance>) -> Seq<RebalanceModel> {
    Seq::new(events.len(), |i: int| events[i]@)
}

/// The event that a rebalance notice of the session stands for: the assign
/// code is an assignment of the partitions announced, the revoke code a
/// revocation, any other code a failed rebalance with the session's text.
pub open spec fn spec_notice_event(
    code: i32,
    partitions: Seq<NativeEntryModel>,
    diagnostic: Seq<char>,
) -> RebalanceModel {
    if code == RESP_ERR_ASSIGN_PARTITIONS {
        RebalanceModel::Assign(list_from_native(partitions))
    } else if code == RESP_ERR_REVOKE_PARTITIONS {
        RebalanceModel::Revoke
    } else {
        RebalanceModel::Error(diagnostic)
    }
}

/// What the consumer reads of a client configuration.
#[derive(Debug, Clone, Copy, PartialEq, Eq)]
pub struct ClientConfig {
    /// Whether rebalance events are kept for [`BaseConsumer::take_rebalances`].
    pub track_rebalances: bool,
}

/// A request to the broker session.
#[derive(Debug, Clone, PartialEq, Eq)]
pub enum DriverCall {
    /// Route the session's group-coordination events to consumer polls.
    SetConsumer,
    /// Replace the subscription by these topics and patterns.
    Subscribe(Vec<NativeEntry>),
    /// Drop the subscription.
    Unsubscribe,
    /// Consume exactly these partitions, from these offsets.
    Assign(Vec<NativeEntry>),
    /// Consume no partition until the next subscription or assignment.
    Unassign,
    /// Report the current subscription.
    Subscription,
    /// Hand out the next event, waiting at most this many milliseconds.
    Poll(i32),
    /// Commit the position after the record referred to.
    CommitMessage { record: u64, async_flag: i32 },
    /// Leave the group and close the session.
    Close,
}

/// The mathematical value of a [`DriverCall`].
pub enum DriverCallModel {
    SetConsumer,
    Subscribe(Seq<NativeEntryModel>),
    Unsubscribe,
    Assign(Seq<NativeEntryModel>),
    Unassign,
    Subscription,
    Poll(i32),
    CommitMessage { record: u64, async_flag: i32 },
    Close,
}

impl View for DriverCall {
    type V = DriverCallModel;

    open spec fn view(&self) -> DriverCallModel {
        match *self {
            DriverCall::SetConsumer => DriverCallModel::SetConsumer,
            DriverCall::Subscribe(l) => DriverCallModel::Subscribe(native_view(l@)),
            DriverCall::Unsubscribe => DriverCallModel::Unsubscribe,
            DriverCall::Assign(l) => DriverCallModel::Assign(native_view(l@)),
            DriverCall::Unassign => DriverCallModel::Unassign,
            DriverCall::Subscription => DriverCallModel::Subscription,
            DriverCall::Poll(t) => DriverCallModel::Poll(t),
            DriverCall::CommitMessage { record, async_flag } => DriverCallModel::CommitMessage {
                record,
                async_flag,
            },
            DriverCall::Close => DriverCallModel::Close,
        }
    }
}

/// The request by which a rebalance notice is answered.
pub open spec fn spec_rebalance_answer(
    code: i32,
    partitions: Seq<NativeEntryModel>,
) -> DriverCallModel {
    if code == RESP_ERR_ASSIGN_PARTITIONS {
        DriverCallModel::Assign(partitions)
    } else {
        DriverCallModel::Unassign
    }
}

impl Rebalance {
    /// The event that a rebalance notice of the session stands for.
    ///
    /// The notice carries a response code, the partitions concerned in the
    /// session's form, and the session's text for the code. The assign code
    /// is an assignment of those partitions, the revoke code a revocation;
    /// any other code is a failed rebalance with the session's text.
    pub fn from_notice(code: i32, partitions: &Vec<NativeEntry>, diagnostic: String) -> (r:
        Rebalance)
        ensures
            r@ == spec_notice_event(code, native_view(partitions@), diagnostic@),
    {
        if code == RESP_ERR_ASSIGN_PARTITIONS {
            Rebalance::Assign(TopicPartitionList::from_native(partitions))
        } else if code == RESP_ERR_REVOKE_PARTITIONS {
            Rebalance::Revoke
        } else {
            Rebalance::Error(diagnostic)
        }
    }

    /// The request by which a rebalance notice is answered: the session
    /// waits for it before it goes on. An assignment is taken up as it was
    /// announced; on a revocation, and on a failed rebalance, every
    /// partition is given up.
    pub fn answer(code: i32, partitions: Vec<NativeEntry>) -> (call: DriverCall)
        ensures
            call@ == spec_rebalance_answer(code, native_view(partitions@)),
    {
        if code == RESP_ERR_ASSIGN_PARTITIONS {
            DriverCall::Assign(partitions)
        } else {
            DriverCall::Unassign
        }
    }
}

/// The mathematical value of a [`BaseConsumer`].
pub struct ConsumerModel {
    /// Whether rebalance events are kept.
    pub track_rebalances: bool,
    /// The rebalance events kept since the last drain, oldest first.
    pub rebalances: Seq<RebalanceModel>,
    /// Whether the session has been closed.
    pub closed: bool,
}

impl ConsumerModel {
    /// Without tracking, no event is ever kept.
    pub open spec fn wf(self) -> bool {
        !self.track_rebalances ==> self.rebalances.len() == 0
    }

    /// A consumer on a session that was just established.
    pub open spec fn fresh(config: ClientConfig) -> ConsumerModel {
        ConsumerModel {
            track_rebalances: config.track_rebalances,
            rebalances: Seq::empty(),
            closed: false,
        }
    }

    /// The consumer after the session has observed `event`.
    pub open spec fn record(self, event: RebalanceModel) -> ConsumerModel {
        if self.track_rebalances {
            ConsumerModel { rebalances: self.rebalances.push(event), ..self }
        } else {
            self
        }
    }

    /// The consumer after the session has observed `events`, first to last.
    pub open spec fn record_all(self, events: Seq<RebalanceModel>) -> ConsumerModel
        decreases events.len(),
    {
        if events.len() == 0 {
            self
        } else {
            self.record_all(events.drop_last()).record(events.last())
        }
    }

    /// The consumer after its rebalance log was taken.
    pub open spec fn drain(self) -> ConsumerModel {
        ConsumerModel { rebalances: Seq::empty(), ..self }
    }

    /// The request that a teardown sends: one close, and only while the
    /// session is open.
    pub open spec fn close_call(self) -> Option<DriverCallModel> {
        if self.closed {
            None
        } else {
            Some(DriverCallModel::Close)
        }
    }

    /// The consumer after a teardown.
    pub open spec fn close(self) -> ConsumerModel {
        ConsumerModel { closed: true, ..self }
    }

    /// How many close requests a run of `attempts` teardowns sends.
    pub open spec fn closes_sent(self, attempts: nat) -> nat
        decreases attempts,
    {
        if attempts == 0 {
            0
        } else {
            (if self.close_call().is_some() {
                1nat
            } else {
                0nat
            }) + self.close().closes_sent((attempts - 1) as nat)
        }
    }
}

/// What the establishing of a session means: a fresh consumer, or the
/// session's text as a construction error.
pub open spec fn spec_session_outcome(
    config: ClientConfig,
    session: Result<(), String>,
) -> Result<ConsumerModel, KafkaError> {
    match session {
        Ok(_) => Ok(ConsumerModel::fresh(config)),
        Err(diagnostic) => Err(KafkaError::ClientCreation(diagnostic)),
    }
}

/// What the session's answer to a subscription or an assignment means.
pub open spec fn spec_subscription_outcome(reply: DriverStatus) -> KafkaResult<()> {
    if spec_is_error(reply.code) {
        Err(KafkaError::Subscription(reply.diagnostic))
    } else {
        Ok(())
    }
}

/// What the session's answer to a poll means.
pub open spec fn spec_poll_outcome(event: Option<Message>) -> KafkaResult<Option<Message>> {
    match event {
        None => Ok(None),
        Some(m) => if !spec_is_error(m.err) {
            Ok(Some(m))
        } else if m.err == RESP_ERR_PARTITION_EOF {
            Err(KafkaError::PartitionEof)
        } else {
            Err(KafkaError::MessageConsumption(m.err))
        },
    }
}

/// What the session's answer to a commit means: a failure is reported in
/// `Sync` mode and goes unobserved in `Async` mode.
pub open spec fn spec_commit_outcome(mode: CommitMode, code: i32) -> KafkaResult<()> {
    match mode {
        CommitMode::Async => Ok(()),
        CommitMode::Sync => if spec_is_error(code) {
            Err(KafkaError::MessageConsumption(code))
        } else {
            Ok(())
        },
    }
}

/// A consumer: the owner of one broker session.
///
/// It keeps what the session cannot: whether rebalance events are tracked,
/// the events observed since they were last taken, and whether the session
/// has been closed.
#[derive(Debug)]
pub struct BaseConsumer {
    track_rebalances: bool,
    rebalances: Vec<Rebalance>,
    closed: bool,
}

impl View for BaseConsumer {
    type V = ConsumerModel;

    closed spec fn view(&self) -> ConsumerModel {
        ConsumerModel {
            track_rebalances: self.track_rebalances,
            rebalances: rebalance_views(self.rebalances@),
            closed: self.closed,
        }
    }
}

impl BaseConsumer {
    /// Builds the consumer for a session that the caller tried to establish.
    ///
    /// `session` is `Ok` where the session stands and else holds the
    /// session's text. On success the consumer comes with the request that
    /// registers the session as a consumer; on failure no consumer exists.
    pub fn from_config(config: &ClientConfig, session: Result<(), String>) -> (r: KafkaResult<
        (BaseConsumer, DriverCall),
    >)
        ensures
            match r {
                Ok((consumer, call)) => spec_session_outcome(*config, session) == Ok::<
                    ConsumerModel,
                    KafkaError,
                >(consumer@) && consumer@.wf() && call@ == DriverCallModel::SetConsumer,
                Err(e) => spec_session_outcome(*config, session) == Err::<
                    ConsumerModel,
                    KafkaError,
                >(e),
            },
    {
        match session {
            Ok(_) => {
                let consumer = BaseConsumer {
                    track_rebalances: config.track_rebalances,
                    rebalances: Vec::new(),
                    closed: false,
                };
                assert(consumer@.rebalances =~= Seq::<RebalanceModel>::empty());
                Ok((consumer, DriverCall::SetConsumer))
            },
            Err(diagnostic) => Err(KafkaError::ClientCreation(diagnostic)),
        }
    }

    /// Whether the session has been closed.
    pub fn is_closed(&self) -> (r: bool)
        ensures
            r == self@.closed,
    {
        self.closed
    }

    /// Whether rebalance events are kept.
    pub fn tracks_rebalances(&self) -> (r: bool)
        ensures
            r == self@.track_rebalances,
    {
        self.track_rebalances
    }

    /// The request that subscribes to the given topics and patterns,
    /// replacing any subscription: one entry per name, in order, in the
    /// session's form. A name that begins with `^` is a pattern, which the
    /// session matches against the cluster's topics.
    ///
    /// The consumer is taken exclusively because the session's membership
    /// changes; the consumer's own state does not.
    pub fn subscribe(&mut self, topics: &Vec<&str>) -> (call: DriverCall)
        requires
            old(self)@.wf(),
            !old(self)@.closed,
        ensures
            call@ == DriverCallModel::Subscribe(list_to_native(topics_model(topics@))),
            *final(self) == *old(self),
    {
        let list = TopicPartitionList::with_topics(topics);
        DriverCall::Subscribe(list.to_native())
    }

    /// What the session's answer to [`BaseConsumer::subscribe`] or
    /// [`BaseConsumer::assign`] means: success for the success code, else a
    /// subscription error with the session's text.
    pub fn subscription_outcome(reply: DriverStatus) -> (r: KafkaResult<()>)
        ensures
            r == spec_subscription_outcome(reply),
    {
        if is_error(reply.code) {
            Err(KafkaError::Subscription(reply.diagnostic))
        } else {
            Ok(())
        }
    }

    /// The request that drops the subscription. It is the same whatever was
    /// subscribed to, and there is no answer to wait for: it cannot fail.
    pub fn unsubscribe(&mut self) -> (call: DriverCall)
        requires
            old(self)@.wf(),
            !old(self)@.closed,
        ensures
            call@ == DriverCallModel::Unsubscribe,
            *final(self) == *old(self),
    {
        DriverCall::Unsubscribe
    }

    /// The request that switches to manual assignment of exactly the given
    /// entries, in order, in the session's form.
    pub fn assign(&mut self, assignment: &TopicPartitionList) -> (call: DriverCall)
        requires
            old(self)@.wf(),
            !old(self)@.closed,
        ensures
            call@ == DriverCallModel::Assign(list_to_native(assignment@)),
            *final(self) == *old(self),
    {
        DriverCall::Assign(assignment.to_native())
    }

    /// The request for the session's current subscription. The answer, a
    /// list in the session's form, is read by
    /// [`TopicPartitionList::from_native`].
    pub fn get_subscriptions(&self) -> (call: DriverCall)
        requires
            self@.wf(),
            !self@.closed,
        ensures
            call@ == DriverCallModel::Subscription,
    {
        DriverCall::Subscription
    }

    /// The request for the next event, with the longest wait in milliseconds.
    pub fn poll(&self, timeout_ms: i32) -> (call: DriverCall)
        requires
            self@.wf(),
            !self@.closed,
        ensures
            call@ == DriverCallModel::Poll(timeout_ms),
    {
        DriverCall::Poll(timeout_ms)
    }

    /// Takes in the session's answer to [`BaseConsumer::poll`]: the
    /// rebalances that the session observed while it was polled, oldest
    /// first, and the event that it handed out, if any.
    ///
    /// The rebalances go to the log in their order where tracking is on, and
    /// are dropped where it is off, whatever the event is. Then: no event
    /// within the wait is no message and no error. An event with the success
    /// status is handed on as it came. The end of a partition is its own
    /// outcome; every other status is a consumption error with that status
    /// as its code.
    pub fn poll_outcome(&mut self, observed: Vec<Rebalance>, event: Option<Message>) -> (r:
        KafkaResult<Option<Message>>)
        requires
            old(self)@.wf(),
        ensures
            final(self)@ == old(self)@.record_all(rebalance_views(observed@)),
            final(self)@.wf(),
            r == spec_poll_outcome(event),
    {
        let mut observed = observed;
        let ghost events = rebalance_views(observed@);
        proof {
            lemma_rebalances_keep_order(self@, events);
        }
        if self.track_rebalances {
            self.rebalances.append(&mut observed);
            assert(rebalance_views(self.rebalances@) =~= old(self)@.rebalances + events);
        } else {
            assert(self@.rebalances =~= Seq::<RebalanceModel>::empty());
        }
        match event {
            None => Ok(None),
            Some(m) => {
                if !is_error(m.err) {
                    Ok(Some(m))
                } else if m.err == RESP_ERR_PARTITION_EOF {
                    Err(KafkaError::PartitionEof)
                } else {
                    Err(KafkaError::MessageConsumption(m.err))
                }
            },
        }
    }

    /// The request that commits the position after `message`, with the flag
    /// 0 for `Sync` and 1 for `Async`.
    pub fn commit_message(&self, message: &Message, mode: CommitMode) -> (call: DriverCall)
        requires
            self@.wf(),
            !self@.closed,
        ensures
            call@ == (DriverCallModel::CommitMessage {
                record: message.record,
                async_flag: spec_async_flag(mode),
            }),
    {
        let async_flag: i32 = match mode {
            CommitMode::Sync => 0,
            CommitMode::Async => 1,
        };
        DriverCall::CommitMessage { record: message.record, async_flag }
    }

    /// What the session's answer to [`BaseConsumer::commit_message`] means:
    /// in `Sync` mode a failure code is a consumption error with that code;
    /// in `Async` mode the answer is not looked at.
    pub fn commit_outcome(mode: CommitMode, code: i32) -> (r: KafkaResult<()>)
        ensures
            r == spec_commit_outcome(mode, code),
    {
        match mode {
            CommitMode::Async => Ok(()),
            CommitMode::Sync => {
                if is_error(code) {
                    Err(KafkaError::MessageConsumption(code))
                } else {
                    Ok(())
                }
            },
        }
    }

    /// Notes a rebalance that the session observed: appended to the log
    /// where tracking is on, dropped where it is off.
    pub fn record_rebalance(&mut self, event: Rebalance)
        requires
            old(self)@.wf(),
        ensures
            final(self)@ == old(self)@.record(event@),
            final(self)@.wf(),
    {
        if self.track_rebalances {
            self.rebalances.push(event);
            assert(rebalance_views(self.rebalances@) =~= old(self)@.rebalances.push(event@));
        }
    }

    /// Takes the rebalance events noted since the last call, oldest first,
    /// and leaves the log empty. Without tracking the result is empty.
    pub fn take_rebalances(&mut self) -> (r: Vec<Rebalance>)
        requires
            old(self)@.wf(),
        ensures
            rebalance_views(r@) == old(self)@.rebalances,
            !old(self)@.track_rebalances ==> r@.len() == 0,
            final(self)@ == old(self)@.drain(),
            final(self)@.wf(),
    {
        let mut taken: Vec<Rebalance> = Vec::new();
        std::mem::swap(&mut self.rebalances, &mut taken);
        assert(self@.rebalances =~= Seq::<RebalanceModel>::empty());
        taken
    }

    /// Tears the consumer down. The first call yields the close request and
    /// marks the session closed; every later call yields nothing and changes
    /// nothing.
    pub fn close(&mut self) -> (r: Option<DriverCall>)
        requires
            old(self)@.wf(),
        ensures
            final(self)@ == old(self)@.close(),
            final(self)@.wf(),
            match r {
                Some(call) => old(self)@.close_call() == Some(call@),
                None => old(self)@.close_call().is_none(),
            },
    {
        if self.closed {
            None
        } else {
            self.closed = true;
            Some(DriverCall::Close)
        }
    }
}

/// What every kind of consumer has in common: it is built on a
/// [`BaseConsumer`] and lends it out, so that the operations of the base
/// consumer serve all kinds alike.
pub trait Consumer {
    /// The base consumer underneath.
    fn get_base_consumer(&self) -> &BaseConsumer;

    /// The base consumer underneath, for the operations that change it.
    fn get_base_consumer_mut(&mut self) -> &mut BaseConsumer;
}

impl Consumer for BaseConsumer {
    fn get_base_consumer(&self) -> (r: &BaseConsumer)
        ensures
            *r == *self,
    {
        self
    }

    fn get_base_consumer_mut(&mut self) -> (r: &mut BaseConsumer)
        ensures
            *r == *old(self),
            *final(self) == *final(r),
    {
        self
    }
}

/// A subscription reads back as it was made: where the session reports the
/// very list that [`BaseConsumer::subscribe`] handed it, the answer to
/// [`BaseConsumer::get_subscriptions`] reads as the topics subscribed to, in
/// their order. (For a pattern the session may report the topics it matched
/// instead; of that nothing is said here.)
pub proof fn lemma_subscribe_then_get_subscriptions(
    topics: Seq<&str>,
    call: DriverCallModel,
    reported: Seq<NativeEntryModel>,
)
    requires
        call == DriverCallModel::Subscribe(list_to_native(topics_model(topics))),
        call == DriverCallModel::Subscribe(reported),
    ensures
        list_from_native(reported) == topics_model(topics),
{
    lemma_topics_round_trip(topics);
}

/// An assignment reads back as it was made: where the session reports the
/// very list that [`BaseConsumer::assign`] handed it, the answer reads as
/// the entries assigned, partitions and offsets included. This holds of the
/// representable assignments, and of no other.
pub proof fn lemma_assign_then_get_subscriptions(
    assignment: Seq<TopicPartitionModel>,
    call: DriverCallModel,
    reported: Seq<NativeEntryModel>,
)
    requires
        call == DriverCallModel::Assign(list_to_native(assignment)),
        call == DriverCallModel::Assign(reported),
    ensures
        list_representable(assignment) <==> list_from_native(reported) == assignment,
{
    lemma_native_round_trip(assignment);
}

/// A poll that found no event is no message; an event with the success
/// status is a message; the end of a partition and a consumption error are
/// two outcomes that never stand for each other, and a consumption error
/// carries the very status of the event.
pub proof fn lemma_poll_outcomes_are_distinct(m: Message)
    ensures
        spec_poll_outcome(None) == Ok::<Option<Message>, KafkaError>(None),
        spec_poll_outcome(Some(m)).is_ok() <==> m.err == RESP_ERR_NO_ERROR,
        spec_poll_outcome(Some(m)) == Err::<Option<Message>, KafkaError>(KafkaError::PartitionEof)
            <==> m.err == RESP_ERR_PARTITION_EOF,
        spec_poll_outcome(Some(m)) == Err::<Option<Message>, KafkaError>(
            KafkaError::MessageConsumption(m.err),
        ) <==> (m.err != RESP_ERR_NO_ERROR && m.err != RESP_ERR_PARTITION_EOF),
        spec_poll_outcome(Some(m)).is_err() && m.err != RESP_ERR_PARTITION_EOF
            ==> spec_poll_outcome(Some(m)) != Err::<Option<Message>, KafkaError>(
            KafkaError::PartitionEof,
        ),
{
}

/// Events reach the log in the order in which they were observed: with
/// tracking, the log after a run of events is the old log followed by the
/// run; without tracking it stays empty.
pub proof fn lemma_rebalances_keep_order(m: ConsumerModel, events: Seq<RebalanceModel>)
    requires
        m.wf(),
    ensures
        m.record_all(events).wf(),
        m.record_all(events).track_rebalances == m.track_rebalances,
        m.record_all(events).closed == m.closed,
        m.track_rebalances ==> m.record_all(events).rebalances == m.rebalances + events,
        !m.track_rebalances ==> m.record_all(events).rebalances == Seq::<RebalanceModel>::empty(),
    decreases events.len(),
{
    if events.len() == 0 {
        assert(m.rebalances + events =~= m.rebalances);
        assert(m.rebalances =~= Seq::<RebalanceModel>::empty() || m.track_rebalances);
    } else {
        lemma_rebalances_keep_order(m, events.drop_last());
        let before = m.record_all(events.drop_last());
        if m.track_rebalances {
            assert((m.rebalances + events.drop_last()).push(events.last()) =~= m.rebalances
                + events);
        } else {
            assert(before.record(events.last()) == before);
        }
    }
}

/// What two polls in a row note is what one poll would note of both runs
/// of events, the first run before the second: the order of observation
/// holds across polls.
pub proof fn lemma_polls_accumulate(
    m: ConsumerModel,
    first: Seq<RebalanceModel>,
    second: Seq<RebalanceModel>,
)
    requires
        m.wf(),
    ensures
        m.record_all(first).record_all(second) == m.record_all(first + second),
{
    lemma_rebalances_keep_order(m, first);
    lemma_rebalances_keep_order(m.record_all(first), second);
    lemma_rebalances_keep_order(m, first + second);
    if m.track_rebalances {
        assert((m.rebalances + first) + second =~= m.rebalances + (first + second));
    }
}

/// Taking the log drains it: a second taking, with nothing observed in
/// between, finds the log empty and leaves the consumer as it was; and what
/// was observed between two takings is exactly what the second one finds.
pub proof fn lemma_take_rebalances_drains(m: ConsumerModel, events: Seq<RebalanceModel>)
    requires
        m.wf(),
    ensures
        m.drain().wf(),
        m.drain().rebalances == Seq::<RebalanceModel>::empty(),
        m.drain().drain() == m.drain(),
        m.track_rebalances ==> m.drain().record_all(events).rebalances == events,
        !m.track_rebalances ==> m.drain().record_all(events).rebalances == Seq::<
            RebalanceModel,
        >::empty(),
{
    lemma_rebalances_keep_order(m.drain(), events);
    assert(Seq::<RebalanceModel>::empty() + events =~= events);
}

/// A teardown is idempotent: the first closes the session, a second one
/// sends nothing and changes nothing.
pub proof fn lemma_close_is_idempotent(m: ConsumerModel)
    ensures
        !m.closed ==> m.close_call() == Some(DriverCallModel::Close),
        m.close().closed,
        m.close().close_call().is_none(),
        m.close().close() == m.close(),
        m.close().rebalances == m.rebalances,
{
}

/// However often a consumer is torn down, its session is closed exactly
/// once: an open consumer sends one close request over any run of one or
/// more teardowns, a closed one sends none.
pub proof fn lemma_session_closes_once(m: ConsumerModel, attempts: nat)
    ensures
        m.closes_sent(attempts) == if m.closed || attempts == 0 {
            0nat
        } else {
            1nat
        },
    decreases attempts,
{
    if attempts > 0 {
        lemma_session_closes_once(m.close(), (attempts - 1) as nat);
    }
}

/// A commit in `Async` mode never reports a failure; one in `Sync` mode
/// reports every failure code, and as a consumption error with that code.
pub proof fn lemma_commit_outcomes(code: i32)
    ensures
        spec_commit_outcome(CommitMode::Async, code).is_ok(),
        spec_commit_outcome(CommitMode::Sync, code).is_ok() <==> code == RESP_ERR_NO_ERROR,
        code != RESP_ERR_NO_ERROR ==> spec_commit_outcome(CommitMode::Sync, code) == Err::<
            (),
            KafkaError,
        >(KafkaError::MessageConsumption(code)),
{
}

} // verus!
