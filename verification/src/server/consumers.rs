//! What is done with a message of a queue once the function that it is for has run.
use vstd::prelude::*;

use crate::function::id::FunctionId;

verus! {

/// How long is waited after a message failed, in seconds.
pub const RETRY_DELAY_SECONDS: u64 = 1;

/// What is done with a message of a queue.
#[derive(Clone, Copy, Debug, PartialEq, Eq, Structural)]
pub enum MessageAction {
    /// The message is done.
    Acknowledge,
    /// The message goes back to the queue, and the next one has to wait.
    RejectAndWait { seconds: u64 },
}

/// A consumer of a queue.
#[derive(Debug)]
pub struct RabbitMqConsumer {
    pub amqp_addr: String,
    pub id: String,
    pub queue: String,
    pub function_id: FunctionId,
    pub rpc_method_name: String,
}

impl RabbitMqConsumer {
    pub fn new(
        amqp_addr: String,
        id: String,
        queue: String,
        function_id: String,
        rpc_method_name: String,
    ) -> (consumer: Self)
        ensures
            consumer.amqp_addr == amqp_addr,
            consumer.id == id,
            consumer.queue == queue,
            consumer.function_id@ == function_id@,
            consumer.rpc_method_name == rpc_method_name,
    {
        RabbitMqConsumer {
            amqp_addr,
            id,
            queue,
            function_id: FunctionId::new(function_id),
            rpc_method_name,
        }
    }

    /// What is done with a message, from whether the function has handled it.
    pub fn handled(&self, succeeded: bool) -> (action: MessageAction)
        ensures
            action == (if succeeded {
                MessageAction::Acknowledge
            } else {
                MessageAction::RejectAndWait { seconds: RETRY_DELAY_SECONDS }
            }),
    {
        if succeeded {
            MessageAction::Acknowledge
        } else {
            MessageAction::RejectAndWait { seconds: RETRY_DELAY_SECONDS }
        }
    }
}

/// How far a message of a topic has come.
#[derive(Clone, Copy, Debug, PartialEq, Eq, Structural)]
pub enum TopicEvent {
    /// The function could not be invoked.
    NotInvoked,
    /// The function failed.
    Failed,
    /// The function has handled the message.
    Handled,
    CommitFailed,
    Committed,
}

/// What comes next for a message of a topic.
#[derive(Clone, Copy, Debug, PartialEq, Eq, Structural)]
pub enum TopicStep {
    Commit,
    /// The next message is received, after a wait where something failed.
    Receive { wait_seconds: u64 },
}

/// What comes next for a message of a topic: only one that its function has handled is committed.
pub fn topic_step(event: TopicEvent) -> (step: TopicStep)
    ensures
        step == (match event {
            TopicEvent::Handled => TopicStep::Commit,
            TopicEvent::Committed => TopicStep::Receive { wait_seconds: 0 },
            _ => TopicStep::Receive { wait_seconds: RETRY_DELAY_SECONDS },
        }),
{
    match event {
        TopicEvent::Handled => TopicStep::Commit,
        TopicEvent::Committed => TopicStep::Receive { wait_seconds: 0 },
        TopicEvent::NotInvoked => TopicStep::Receive { wait_seconds: RETRY_DELAY_SECONDS },
        TopicEvent::Failed => TopicStep::Receive { wait_seconds: RETRY_DELAY_SECONDS },
        TopicEvent::CommitFailed => TopicStep::Receive { wait_seconds: RETRY_DELAY_SECONDS },
    }
}

/// A message is acknowledged exactly where it was handled; one that was not is rejected and waited for a
/// second.
pub proof fn messages_are_acknowledged_where_handled(
    consumer: RabbitMqConsumer,
    succeeded: bool,
    action: MessageAction,
)
    requires
        call_ensures(RabbitMqConsumer::handled, (&consumer, succeeded), action),
    ensures
        action is Acknowledge <==> succeeded,
        action matches MessageAction::RejectAndWait { seconds } ==> seconds == 1,
{
}

/// A message of a topic is committed exactly where it was handled; after a commit the next is received
/// at once, and after a failure a second later.
pub proof fn topics_are_committed_where_handled(event: TopicEvent, step: TopicStep)
    requires
        call_ensures(topic_step, (event,), step),
    ensures
        step is Commit <==> event is Handled,
        step matches TopicStep::Receive { wait_seconds } ==> (wait_seconds == 0
            <==> event is Committed) && wait_seconds <= 1,
{
}

/// A consumer has each part that it was given in its own place.
pub proof fn consumers_have_what_they_were_given(
    amqp_addr: String,
    id: String,
    queue: String,
    function_id: String,
    rpc_method_name: String,
    consumer: RabbitMqConsumer,
)
    requires
        call_ensures(
            RabbitMqConsumer::new,
            (amqp_addr, id, queue, function_id, rpc_method_name),
            consumer,
        ),
    ensures
        consumer.amqp_addr@ == amqp_addr@,
        consumer.id@ == id@,
        consumer.queue@ == queue@,
        consumer.function_id.id@ == function_id@,
        consumer.rpc_method_name@ == rpc_method_name@,
{
}

} // verus!
