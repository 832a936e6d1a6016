//! Log messages and where they go.
use vstd::prelude::*;

use crate::function::id::FunctionId;
use crate::table::Table;
use crate::text::owned;

verus! {

/// Where a log message comes from.
#[derive(Debug)]
pub enum LogSource {
    Function { id: String },
    FxRuntime,
}

/// What a [`LogSource`] is, whatever string holds it.
pub enum LogSourceView {
    Function(Seq<char>),
    FxRuntime,
}

impl View for LogSource {
    type V = LogSourceView;

    open spec fn view(&self) -> LogSourceView {
        match self {
            LogSource::Function { id } => LogSourceView::Function(id@),
            LogSource::FxRuntime => LogSourceView::FxRuntime,
        }
    }
}

impl LogSource {
    pub fn function(function_id: &FunctionId) -> (source: Self)
        ensures
            source@ == LogSourceView::Function(function_id@),
    {
        LogSource::Function { id: function_id.as_string() }
    }
}

/// What a log message marks.
#[derive(Clone, Copy, Debug, PartialEq, Eq, Structural)]
pub enum LogEventType {
    Begin,
    End,
    Instant,
}

/// How important a log message is.
#[derive(Clone, Copy, Debug, PartialEq, Eq, Structural)]
pub enum LogEventLevel {
    Trace,
    Debug,
    Info,
    Warn,
    Error,
}

/// How important a log message is, before it becomes an event.
#[derive(Clone, Copy, Debug, PartialEq, Eq, Structural)]
pub enum LogLevel {
    Trace,
    Debug,
    Info,
    Warn,
    Error,
}

/// The value of a field of a log message. A floating point number is held as its bits.
#[derive(Debug)]
pub enum EventFieldValue {
    Text(String),
    U64(u64),
    I64(i64),
    F64(u64),
    Object(Vec<(String, Box<EventFieldValue>)>),
}

/// A log message.
pub struct LogMessageEvent {
    pub source: LogSource,
    pub event_type: LogEventType,
    pub level: LogEventLevel,
    pub fields: Table<String, EventFieldValue>,
}

impl LogMessageEvent {
    pub fn new(
        source: LogSource,
        event_type: LogEventType,
        level: LogEventLevel,
        fields: Table<String, EventFieldValue>,
    ) -> (event: Self)
        ensures
            event.source == source,
            event.event_type == event_type,
            event.level == level,
            event.fields == fields,
    {
        LogMessageEvent { source, event_type, level, fields }
    }

    pub fn source(&self) -> (source: &LogSource)
        ensures
            *source == self.source,
    {
        &self.source
    }

    pub fn fields(&self) -> (fields: &Table<String, EventFieldValue>)
        ensures
            *fields == self.fields,
    {
        &self.fields
    }
}

/// Whether a field value is a given text.
pub open spec fn is_text(value: EventFieldValue, t: Seq<char>) -> bool {
    value matches EventFieldValue::Text(v) && v@ == t
}

/// A field of a log message as a function has written it; a part that could not be decoded is
/// missing.
pub struct LogField {
    pub name: Option<String>,
    pub value: Option<String>,
}

/// The fields of a message: those that could be decoded, of a name that comes again the last.
pub open spec fn decoded_fields(fields: Seq<LogField>) -> Map<Seq<char>, Seq<char>>
    decreases fields.len(),
{
    if fields.len() == 0 {
        Map::empty()
    } else {
        let before = decoded_fields(fields.drop_last());
        match (fields.last().name, fields.last().value) {
            (Some(name), Some(value)) => before.insert(name@, value@),
            _ => before,
        }
    }
}

/// Whether a table holds exactly the given texts.
pub open spec fn holds_texts(
    table: Table<String, EventFieldValue>,
    texts: Map<Seq<char>, Seq<char>>,
) -> bool {
    &&& table.wf()
    &&& table@.dom() =~= texts.dom()
    &&& forall|k: Seq<char>| #[trigger] table@.dom().contains(k) ==> is_text(table@[k], texts[k])
}

fn collect_fields(fields: &Vec<LogField>) -> (table: Table<String, EventFieldValue>)
    ensures
        holds_texts(table, decoded_fields(fields@)),
{
    let mut table: Table<String, EventFieldValue> = Table::new();
    let mut i: usize = 0;
    while i < fields.len()
        invariant
            i <= fields@.len(),
            holds_texts(table, decoded_fields(fields@.take(i as int))),
        decreases fields@.len() - i,
    {
        let ghost next = fields@.take(i + 1);
        proof {
            assert(next.drop_last() =~= fields@.take(i as int));
            assert(next.last() == fields@[i as int]);
        }
        match (&fields[i].name, &fields[i].value) {
            (Some(name), Some(value)) => {
                table.insert(name.clone(), EventFieldValue::Text(value.clone()));
            },
            _ => {},
        }
        i = i + 1;
    }
    assert(fields@.take(fields@.len() as int) =~= fields@);
    table
}

/// A log message of a function as the function has written it; a part that could not be decoded
/// is missing.
pub struct LogRequest {
    pub event_type: Option<LogEventType>,
    pub level: Option<LogEventLevel>,
    pub fields: Option<Vec<LogField>>,
}

/// The log message that a function has written. What could not be decoded is left out: the
/// message then marks an instant, is an information, and has the fields that are left.
pub fn fx_log_handler(function_id: &FunctionId, request: LogRequest) -> (event: LogMessageEvent)
    ensures
        event.source@ == LogSourceView::Function(function_id@),
        event.event_type == (match request.event_type {
            Some(event_type) => event_type,
            None => LogEventType::Instant,
        }),
        event.level == (match request.level {
            Some(level) => level,
            None => LogEventLevel::Info,
        }),
        holds_texts(
            event.fields,
            match request.fields {
                Some(fields) => decoded_fields(fields@),
                None => Map::empty(),
            },
        ),
{
    let event_type = match request.event_type {
        Some(event_type) => event_type,
        None => LogEventType::Instant,
    };
    let level = match request.level {
        Some(level) => level,
        None => LogEventLevel::Info,
    };
    let fields = match &request.fields {
        Some(fields) => collect_fields(fields),
        None => Table::new(),
    };
    LogMessageEvent::new(LogSource::function(function_id), event_type, level, fields)
}

/// A message with texts for fields, before it becomes an event.
pub struct LogMessage {
    pub source: LogSource,
    pub event_type: LogEventType,
    pub level: LogLevel,
    pub fields: Table<String, String>,
}

/// The level of an event for the level of a message.
pub open spec fn event_level(level: LogLevel) -> LogEventLevel {
    match level {
        LogLevel::Trace => LogEventLevel::Trace,
        LogLevel::Debug => LogEventLevel::Debug,
        LogLevel::Info => LogEventLevel::Info,
        LogLevel::Warn => LogEventLevel::Warn,
        LogLevel::Error => LogEventLevel::Error,
    }
}

impl LogMessage {
    pub fn new(
        source: LogSource,
        event_type: LogEventType,
        level: LogLevel,
        fields: Table<String, String>,
    ) -> (message: Self)
        ensures
            message == (LogMessage { source, event_type, level, fields }),
    {
        LogMessage { source, event_type, level, fields }
    }

    /// The event for a message: each of its fields a text.
    pub fn into_event(self) -> (event: LogMessageEvent)
        requires
            self.fields.wf(),
        ensures
            event.source == self.source,
            event.event_type == self.event_type,
            event.level == event_level(self.level),
            event.fields.wf(),
            event.fields@.dom() =~= self.fields@.dom(),
            forall|k: Seq<char>| #[trigger]
                event.fields@.dom().contains(k) ==> is_text(event.fields@[k], self.fields@[k]@),
    {
        let mut fields: Table<String, EventFieldValue> = Table::new();
        let mut i: usize = 0;
        while i < self.fields.entries.len()
            invariant
                self.fields.wf(),
                fields.wf(),
                i <= self.fields.entries@.len(),
                forall|k: Seq<char>| #[trigger]
                    fields@.dom().contains(k) <==> exists|j: int|
                        0 <= j < i && self.fields.key_is(j, k),
                forall|k: Seq<char>| #[trigger]
                    fields@.dom().contains(k) ==> self.fields@.dom().contains(k) && is_text(
                        fields@[k],
                        self.fields@[k]@,
                    ),
            decreases self.fields.entries@.len() - i,
        {
            let ghost before = fields@;
            let (key, value) = &self.fields.entries[i];
            proof {
                self.fields.lemma_entry(i as int);
            }
            fields.insert(key.clone(), EventFieldValue::Text(value.clone()));
            proof {
                assert(self.fields.key_is(i as int, key@));
                assert forall|k: Seq<char>| #[trigger] fields@.dom().contains(k) <==> exists|
                    j: int,
                | 0 <= j < i + 1 && self.fields.key_is(j, k) by {
                    if exists|j: int| 0 <= j < i + 1 && self.fields.key_is(j, k) {
                        let j = choose|j: int| 0 <= j < i + 1 && self.fields.key_is(j, k);
                        if j < i {
                            assert(before.dom().contains(k));
                        }
                    }
                }
            }
            i = i + 1;
        }
        proof {
            assert forall|k: Seq<char>| self.fields@.dom().contains(k) implies
                #[trigger] fields@.dom().contains(k) by {
                let j = self.fields.lemma_position(k);
            }
        }
        let level = match self.level {
            LogLevel::Trace => LogEventLevel::Trace,
            LogLevel::Debug => LogEventLevel::Debug,
            LogLevel::Info => LogEventLevel::Info,
            LogLevel::Warn => LogEventLevel::Warn,
            LogLevel::Error => LogEventLevel::Error,
        };
        LogMessageEvent { source: self.source, event_type: self.event_type, level, fields }
    }
}

/// A logger that prints messages.
#[derive(Clone, Copy, Debug, PartialEq, Eq, Structural)]
pub struct StdoutLogger {}

impl StdoutLogger {
    pub fn new() -> (logger: Self)
        ensures
            logger == (StdoutLogger {  }),
    {
        StdoutLogger {  }
    }

    /// What a printed message starts with: the function, or `fx` for the runtime itself.
    pub fn label(&self, source: &LogSource) -> (label: String)
        ensures
            label@ == (match source@ {
                LogSourceView::Function(id) => id,
                LogSourceView::FxRuntime => "fx"@,
            }),
    {
        match source {
            LogSource::Function { id } => id.clone(),
            LogSource::FxRuntime => owned("fx"),
        }
    }
}

/// A logger that drops messages.
#[derive(Clone, Copy, Debug, PartialEq, Eq, Structural)]
pub struct NoopLogger {}

impl NoopLogger {
    pub fn new() -> (logger: Self)
        ensures
            logger == (NoopLogger {  }),
    {
        NoopLogger {  }
    }
}

/// A log message as it is sent over HTTP.
pub struct HttpLogEvent {
    pub fields: Table<String, EventFieldValue>,
    pub level: LogEventLevel,
    pub message: String,
    pub request_id: Option<String>,
    pub source: String,
    pub function_id: Option<String>,
    pub timestamp: String,
}

/// The text of a field: a text itself, else its debug form; nothing where there is no such field.
pub open spec fn field_text(
    fields: Map<Seq<char>, EventFieldValue>,
    name: Seq<char>,
    debug_form: Seq<char>,
) -> Option<Seq<char>> {
    if !fields.dom().contains(name) {
        None
    } else {
        match fields[name] {
            EventFieldValue::Text(t) => Some(t@),
            _ => Some(debug_form),
        }
    }
}

fn find_text(
    fields: &Table<String, EventFieldValue>,
    name: &str,
    debug_form: String,
) -> (found: Option<String>)
    requires
        fields.wf(),
    ensures
        match found {
            Some(t) => field_text(fields@, name@, debug_form@) == Some(t@),
            None => field_text(fields@, name@, debug_form@) is None,
        },
{
    match fields.get(&owned(name)) {
        None => None,
        Some(EventFieldValue::Text(t)) => Some(t.clone()),
        Some(_) => Some(debug_form),
    }
}

/// The message that is sent over HTTP. `message_debug` and `request_id_debug` are the debug forms
/// of the fields `message` and `request_id`, for the case that they are no texts. These two are sent
/// among the other fields too.
pub fn http_log_event(
    event: LogMessageEvent,
    message_debug: String,
    request_id_debug: String,
    timestamp: String,
) -> (sent: HttpLogEvent)
    requires
        event.fields.wf(),
    ensures
        sent.fields == event.fields,
        sent.source@ == "fx"@,
        match event.source@ {
            LogSourceView::FxRuntime => sent.function_id is None,
            LogSourceView::Function(id) => sent.function_id is Some && sent.function_id->0@ == id,
        },
        sent.message@ == (match field_text(event.fields@, "message"@, message_debug@) {
            Some(t) => t,
            None => "fx log"@,
        }),
        match field_text(event.fields@, "request_id"@, request_id_debug@) {
            Some(t) => sent.request_id is Some && sent.request_id->0@ == t,
            None => sent.request_id is None,
        },
        sent.level == event.level,
        sent.timestamp == timestamp,
{
    let function_id = match event.source {
        LogSource::FxRuntime => None,
        LogSource::Function { id } => Some(id),
    };
    let message = match find_text(&event.fields, "message", message_debug) {
        Some(t) => t,
        None => owned("fx log"),
    };
    let request_id = find_text(&event.fields, "request_id", request_id_debug);
    HttpLogEvent {
        fields: event.fields,
        level: event.level,
        message,
        request_id,
        source: owned("fx"),
        function_id,
        timestamp,
    }
}

proof fn lemma_decoded_fields(fields: Seq<LogField>)
    ensures
        forall|k: Seq<char>| #[trigger]
            decoded_fields(fields).dom().contains(k) <==> exists|i: int|
                0 <= i < fields.len() && (#[trigger] fields[i]).name is Some && fields[i].value is Some
                    && fields[i].name->0@ == k,
        forall|i: int|
            #![trigger fields[i]]
            0 <= i < fields.len() && fields[i].name is Some && fields[i].value is Some && (forall|
                j: int,
            |
                i < j < fields.len() && (#[trigger] fields[j]).name is Some
                    && fields[j].value is Some ==> fields[j].name->0@ != fields[i].name->0@)
                ==> decoded_fields(fields)[fields[i].name->0@] == fields[i].value->0@,
    decreases fields.len(),
{
    if fields.len() > 0 {
        let rest = fields.drop_last();
        lemma_decoded_fields(rest);
        let whole = decoded_fields(fields);
        let last = fields.len() - 1;
        let keeps = fields[last].name is Some && fields[last].value is Some;
        assert forall|k: Seq<char>| #[trigger] whole.dom().contains(k) <==> exists|i: int|
            0 <= i < fields.len() && (#[trigger] fields[i]).name is Some && fields[i].value is Some
                && fields[i].name->0@ == k by {
            if whole.dom().contains(k) && !(keeps && k == fields[last].name->0@) {
                assert(decoded_fields(rest).dom().contains(k));
                let i = choose|i: int|
                    0 <= i < rest.len() && (#[trigger] rest[i]).name is Some && rest[i].value is Some
                        && rest[i].name->0@ == k;
                assert(fields[i].name->0@ == k);
            }
            if exists|i: int|
                0 <= i < fields.len() && (#[trigger] fields[i]).name is Some
                    && fields[i].value is Some && fields[i].name->0@ == k {
                let i = choose|i: int|
                    0 <= i < fields.len() && (#[trigger] fields[i]).name is Some
                        && fields[i].value is Some && fields[i].name->0@ == k;
                if i < last {
                    assert(rest[i].name->0@ == k);
                    assert(decoded_fields(rest).dom().contains(k));
                }
            }
        }
        assert forall|i: int|
            #![trigger fields[i]]
            0 <= i < fields.len() && fields[i].name is Some && fields[i].value is Some && (forall|
                j: int,
            |
                i < j < fields.len() && (#[trigger] fields[j]).name is Some
                    && fields[j].value is Some ==> fields[j].name->0@
                    != fields[i].name->0@) implies whole[fields[i].name->0@]
            == fields[i].value->0@ by {
            if i < last {
                assert(keeps ==> fields[last].name->0@ != fields[i].name->0@);
                assert forall|j: int|
                    i < j < rest.len() && (#[trigger] rest[j]).name is Some
                        && rest[j].value is Some implies rest[j].name->0@ != rest[i].name->0@ by {
                    assert(fields[j].name->0@ != fields[i].name->0@);
                }
                assert(rest[i] == fields[i]);
            }
        }
    }
}

/// A message of a function becomes an event of that function with the fields of the message: exactly
/// those that could be decoded, each under its own name with its own value, the last where a name comes
/// again.
pub proof fn events_have_the_fields_of_their_messages(
    function_id: &FunctionId,
    request: LogRequest,
    event: LogMessageEvent,
    name: Seq<char>,
    i: int,
)
    requires
        call_ensures(fx_log_handler, (function_id, request), event),
        request.fields is Some,
    ensures
        event.source matches LogSource::Function { id } && id@ == function_id@,
        request.level is Some ==> event.level == request.level->0,
        request.level is None ==> event.level is Info,
        request.event_type is Some ==> event.event_type == request.event_type->0,
        request.event_type is None ==> event.event_type is Instant,
        event.fields@.dom().contains(name) <==> exists|j: int|
            0 <= j < request.fields->0@.len() && (#[trigger] request.fields->0@[j]).name is Some
                && request.fields->0@[j].value is Some && request.fields->0@[j].name->0@ == name,
        0 <= i < request.fields->0@.len() && request.fields->0@[i].name is Some
            && request.fields->0@[i].value is Some && (forall|j: int|
            i < j < request.fields->0@.len() && (#[trigger] request.fields->0@[j]).name is Some
                && request.fields->0@[j].value is Some ==> request.fields->0@[j].name->0@
                != request.fields->0@[i].name->0@) ==> (
        event.fields@[request.fields->0@[i].name->0@] matches EventFieldValue::Text(text) && text@
            == request.fields->0@[i].value->0@),
{
    lemma_decoded_fields(request.fields->0@);
    let texts = decoded_fields(request.fields->0@);
    assert(event.fields@.dom().contains(name) <==> texts.dom().contains(name));
    if 0 <= i < request.fields->0@.len() && request.fields->0@[i].name is Some
        && request.fields->0@[i].value is Some {
        let key = request.fields->0@[i].name->0@;
        assert(texts.dom().contains(key));
        assert(event.fields@.dom().contains(key));
    }
}

/// A message without fields that can be read becomes an event without fields.
pub proof fn messages_without_fields_have_none(
    function_id: &FunctionId,
    request: LogRequest,
    event: LogMessageEvent,
    name: Seq<char>,
)
    requires
        call_ensures(fx_log_handler, (function_id, request), event),
        request.fields is None,
    ensures
        !event.fields@.dom().contains(name),
        event.source matches LogSource::Function { id } && id@ == function_id@,
{
}

/// A message becomes an event of its own source, kind and level, with its own fields as texts.
pub proof fn messages_become_events(message: LogMessage, event: LogMessageEvent, name: Seq<char>)
    requires
        call_ensures(LogMessage::into_event, (message,), event),
    ensures
        event.source == message.source,
        event.event_type == message.event_type,
        message.level is Trace <==> event.level is Trace,
        message.level is Debug <==> event.level is Debug,
        message.level is Info <==> event.level is Info,
        message.level is Warn <==> event.level is Warn,
        message.level is Error <==> event.level is Error,
        event.fields@.dom().contains(name) <==> message.fields@.dom().contains(name),
        message.fields@.dom().contains(name) ==> (event.fields@[name] matches EventFieldValue::Text(
            text,
        ) && text@ == message.fields@[name]@),
{
}

/// An event is sent with its own level, fields and time, the function that it came from, and its message
/// and its request as the fields of these names say; without them it has a message of its own and no
/// request.
pub proof fn events_are_sent_as_they_are(
    event: LogMessageEvent,
    message_debug: String,
    request_id_debug: String,
    timestamp: String,
    sent: HttpLogEvent,
)
    requires
        call_ensures(
            http_log_event,
            (event, message_debug, request_id_debug, timestamp),
            sent,
        ),
    ensures
        sent.fields == event.fields,
        sent.level == event.level,
        sent.timestamp@ == timestamp@,
        sent.source@ == "fx"@,
        event.source is FxRuntime <==> sent.function_id is None,
        event.source matches LogSource::Function { id } ==> sent.function_id->0@ == id@,
        !event.fields@.dom().contains("message"@) ==> sent.message@ == "fx log"@,
        event.fields@.dom().contains("message"@) ==> (
        event.fields@["message"@] matches EventFieldValue::Text(text) ==> sent.message@ == text@),
        event.fields@.dom().contains("message"@) && event.fields@["message"@] !is Text
            ==> sent.message@ == message_debug@,
        event.fields@.dom().contains("request_id"@) <==> sent.request_id is Some,
        event.fields@.dom().contains("request_id"@) ==> (
        event.fields@["request_id"@] matches EventFieldValue::Text(text) ==> sent.request_id->0@
            == text@),
        event.fields@.dom().contains("request_id"@) && event.fields@["request_id"@] !is Text
            ==> sent.request_id->0@ == request_id_debug@,
{
}

/// What a line of the log is marked with is the function that it came from, or the host.
pub proof fn lines_are_marked_with_their_source(
    logger: StdoutLogger,
    source: &LogSource,
    label: String,
)
    requires
        call_ensures(StdoutLogger::label, (&logger, source), label),
    ensures
        *source matches LogSource::Function { id } ==> label@ == id@,
        *source is FxRuntime ==> label@ == "fx"@,
{
}

} // verus!
