//! Log messages that go to a message broker.
use vstd::prelude::*;

use crate::effects::logs;
use crate::effects::logs::{LogMessageEvent, LogSource};
use crate::text::owned;

verus! {

/// How long the logger waits before it connects again.
pub const RECONNECT_DELAY_SECONDS: u64 = 1;

/// The key by which the broker routes the messages of a source.
pub open spec fn routing_key_of(source: logs::LogSourceView) -> Seq<char> {
    match source {
        logs::LogSourceView::FxRuntime => "fx/runtime"@,
        logs::LogSourceView::Function(id) => "fx/function/"@ + id,
    }
}

/// The key by which the broker routes the messages of a source.
pub fn routing_key(source: &LogSource) -> (key: String)
    ensures
        key@ == routing_key_of(source@),
{
    match source {
        LogSource::FxRuntime => owned("fx/runtime"),
        LogSource::Function { id } => {
            let mut key = owned("fx/function/");
            key.push_str(id.as_str());
            key
        },
    }
}

/// What the logger waits for.
#[derive(Clone, Copy, Debug, PartialEq, Eq, Structural)]
pub enum RabbitMqLogger {
    /// The next message.
    Receiving,
    /// That the broker has taken a message.
    Publishing,
    /// A new connection.
    Reconnecting,
    /// Nothing more: there are no more messages.
    Stopped,
}

/// What the logger does next.
pub enum RabbitMqAction {
    /// Takes the next message.
    Receive,
    /// Hands a message to the broker under a routing key.
    Publish { routing_key: String, event: LogMessageEvent },
    /// Waits [`RECONNECT_DELAY_SECONDS`] and connects again. The message that could not be
    /// published is lost.
    Reconnect,
    /// Ends.
    Stop,
}

impl RabbitMqLogger {
    /// A logger that is connected.
    pub fn new() -> (logger: Self)
        ensures
            logger == RabbitMqLogger::Receiving,
    {
        RabbitMqLogger::Receiving
    }

    /// A message was received, which is published as it is; or there are no more.
    pub fn received(&mut self, message: Option<LogMessageEvent>) -> (action: RabbitMqAction)
        requires
            *old(self) == RabbitMqLogger::Receiving,
        ensures
            match message {
                Some(message) => *final(self) == RabbitMqLogger::Publishing && (action matches
                    RabbitMqAction::Publish { routing_key, event } && event == message
                    && routing_key@ == routing_key_of(message.source@)),
                None => *final(self) == RabbitMqLogger::Stopped && action is Stop,
            },
    {
        match message {
            Some(event) => {
                *self = RabbitMqLogger::Publishing;
                RabbitMqAction::Publish { routing_key: routing_key(&event.source), event }
            },
            None => {
                *self = RabbitMqLogger::Stopped;
                RabbitMqAction::Stop
            },
        }
    }

    /// The broker has taken the message, or not.
    pub fn published(&mut self, taken: bool) -> (action: RabbitMqAction)
        requires
            *old(self) == RabbitMqLogger::Publishing,
        ensures
            if taken {
                *final(self) == RabbitMqLogger::Receiving && action is Receive
            } else {
                *final(self) == RabbitMqLogger::Reconnecting && action is Reconnect
            },
    {
        if taken {
            *self = RabbitMqLogger::Receiving;
            RabbitMqAction::Receive
        } else {
            *self = RabbitMqLogger::Reconnecting;
            RabbitMqAction::Reconnect
        }
    }

    /// There is a new connection.
    pub fn reconnected(&mut self) -> (action: RabbitMqAction)
        requires
            *old(self) == RabbitMqLogger::Reconnecting,
        ensures
            *final(self) == RabbitMqLogger::Receiving,
            action is Receive,
    {
        *self = RabbitMqLogger::Receiving;
        RabbitMqAction::Receive
    }
}

/// Each source has a key of its own: the keys of two functions are the same only where the functions
/// are, and none of them is that of the host.
pub proof fn sources_have_their_own_keys(
    a: &LogSource,
    b: &LogSource,
    of_a: String,
    of_b: String,
)
    requires
        call_ensures(routing_key, (a,), of_a),
        call_ensures(routing_key, (b,), of_b),
    ensures
        of_a@ == of_b@ <==> a@ == b@,
        *a is FxRuntime ==> of_a@ == "fx/runtime"@,
        *a matches LogSource::Function { id } ==> of_a@ == "fx/function/"@ + id@,
{
    reveal_strlit("fx/runtime");
    reveal_strlit("fx/function/");
    if *a is Function && *b is Function && of_a@ == of_b@ {
        let x = a->id@;
        let y = b->id@;
        let mark = "fx/function/"@;
        assert((mark + x).len() == (mark + y).len());
        assert forall|i: int| 0 <= i < x.len() implies x[i] == y[i] by {
            assert((mark + x)[mark.len() + i] == x[i]);
            assert((mark + y)[mark.len() + i] == y[i]);
        }
        assert(x =~= y);
    }
    assert("fx/runtime"@[3] == 'r');
    if *a is Function {
        assert(of_a@[3] == 'f');
    }
    if *b is Function {
        assert(of_b@[3] == 'f');
    }
}

/// An event that was received is published as it is under the key of its own source; after the last one
/// the logger stops. One that was not taken has it connect anew before it goes on.
pub proof fn received_events_are_published(
    message: Option<LogMessageEvent>,
    received: RabbitMqAction,
    taken: bool,
    published: RabbitMqAction,
    reconnected: RabbitMqAction,
    key: String,
)
    requires
        message is Some ==> call_ensures(routing_key, (&message->0.source,), key),
    ensures
        forall|logger: &mut RabbitMqLogger| #[trigger]
            call_ensures(RabbitMqLogger::received, (logger, message), received) ==> {
                &&& message is None <==> received is Stop
                &&& message is None <==> *final(logger) is Stopped
                &&& message is Some ==> *final(logger) is Publishing && (
                received matches RabbitMqAction::Publish { routing_key: sent, event } && event
                    == message->0 && sent@ == key@)
            },
        forall|logger: &mut RabbitMqLogger| #[trigger]
            call_ensures(RabbitMqLogger::published, (logger, taken), published) ==> {
                &&& published is Receive <==> taken
                &&& published is Reconnect <==> !taken
                &&& *final(logger) is Receiving <==> taken
                &&& *final(logger) is Reconnecting <==> !taken
            },
        forall|logger: &mut RabbitMqLogger| #[trigger]
            call_ensures(RabbitMqLogger::reconnected, (logger,), reconnected) ==> *final(
                logger
            ) is Receiving && reconnected is Receive,
{
}

} // verus!
